//! Telling that an image was pasted.
//!
//! The window passes a paste on when the clipboard holds text, and says nothing when
//! it holds an image. So the command key is watched: where nothing comes of it within
//! a few frames, the clipboard is looked at for an image.

use vstd::prelude::*;

verus! {

/// Number of frames to wait after the command key is pressed before concluding that
/// a paste attempt failed.
pub const WAIT_FRAMES: u8 = 3;

/// State machine for detecting clipboard image paste attempts.
#[derive(Debug, Clone, Copy, PartialEq, Eq, Structural)]
pub struct PasteDetectState {
    /// Whether the command key was held in the previous frame.
    pub prev_command_held: bool,
    /// Remaining frames to wait after the command key was first pressed.
    /// 0 means not waiting.
    pub frames_remaining: u8,
    /// Whether a text paste or another command was seen during the wait.
    pub saw_command_action: bool,
}

impl Default for PasteDetectState {
    fn default() -> (state: Self)
        ensures
            state == (PasteDetectState {
                prev_command_held: false,
                frames_remaining: 0,
                saw_command_action: false,
            }),
    {
        PasteDetectState {
            prev_command_held: false,
            frames_remaining: 0,
            saw_command_action: false,
        }
    }
}

impl PasteDetectState {
    /// Whether the command key goes down in this frame.
    pub open spec fn rises(self, command_held: bool) -> bool {
        command_held && !self.prev_command_held
    }

    /// How many frames are left to wait once this frame has begun.
    pub open spec fn waiting(self, command_held: bool) -> u8 {
        if self.rises(command_held) {
            WAIT_FRAMES
        } else {
            self.frames_remaining
        }
    }

    /// Whether something came of the command key by this frame.
    pub open spec fn acted(self, command_held: bool, command_action: bool) -> bool {
        command_action || (self.saw_command_action && !self.rises(command_held))
    }

    /// Whether the clipboard is to be looked at in this frame.
    pub open spec fn looks(self, command_held: bool, command_action: bool) -> bool {
        self.waiting(command_held) == 1 && !self.acted(command_held, command_action)
    }

    /// The state after a frame.
    pub open spec fn next(self, command_held: bool, command_action: bool) -> PasteDetectState {
        PasteDetectState {
            prev_command_held: command_held,
            frames_remaining: if !command_held || self.waiting(command_held) == 0 {
                0
            } else {
                (self.waiting(command_held) - 1) as u8
            },
            saw_command_action: command_held && self.acted(command_held, command_action),
        }
    }

    /// Takes note of a frame: whether the command key is held, and whether any event
    /// of the frame shows that something came of it. Returns whether the clipboard is
    /// to be looked at for an image.
    pub fn raw_input_hook(&mut self, command_held: bool, command_action: bool) -> (look: bool)
        ensures
            look == old(self).looks(command_held, command_action),
            *final(self) == old(self).next(command_held, command_action),
    {
        let mut look = false;
        if command_action {
            self.saw_command_action = true;
        }
        if command_held && !self.prev_command_held {
            self.frames_remaining = WAIT_FRAMES;
            self.saw_command_action = command_action;
        }
        if self.frames_remaining > 0 {
            self.frames_remaining = self.frames_remaining - 1;
            if self.frames_remaining == 0 && !self.saw_command_action {
                look = true;
            }
        }
        if !command_held {
            self.frames_remaining = 0;
            self.saw_command_action = false;
        }
        self.prev_command_held = command_held;
        look
    }
}

/// The state after the command key went down and was held for as many frames as
/// there are entries, each of which says whether something came of it.
pub open spec fn held_for(state: PasteDetectState, frames: Seq<bool>) -> PasteDetectState
    decreases frames.len(),
{
    if frames.len() == 0 {
        state
    } else {
        held_for(state, frames.drop_last()).next(true, frames.last())
    }
}

/// The clipboard is looked at once for each time that the command key is pressed: in
/// the last frame of the wait, and there exactly where nothing came of the key.
pub proof fn clipboard_is_looked_at_once(state: PasteDetectState, frames: Seq<bool>, action: bool)
    requires
        !state.prev_command_held,
    ensures
        held_for(state, frames).looks(true, action) <==> {
            &&& frames.len() == WAIT_FRAMES - 1
            &&& !action
            &&& forall|i: int| 0 <= i < frames.len() ==> !frames[i]
        },
{
    lemma_held(state, frames);
    if frames.len() == 0 {
        assert(!held_for(state, frames).looks(true, action));
    }
}

proof fn lemma_held(state: PasteDetectState, frames: Seq<bool>)
    requires
        !state.prev_command_held,
    ensures
        ({
            let now = held_for(state, frames);
            frames.len() > 0 ==> {
                &&& now.prev_command_held
                &&& now.frames_remaining == if frames.len() < WAIT_FRAMES {
                    WAIT_FRAMES - frames.len()
                } else {
                    0
                }
                &&& now.saw_command_action <==> exists|i: int| 0 <= i < frames.len() && frames[i]
            }
        }),
    decreases frames.len(),
{
    if frames.len() > 0 {
        lemma_held(state, frames.drop_last());
        let before = held_for(state, frames.drop_last());
        let now = held_for(state, frames);
        if frames.len() == 1 {
            assert(before == state);
        }
        if exists|i: int| 0 <= i < frames.len() && frames[i] {
            let i = choose|i: int| 0 <= i < frames.len() && frames[i];
            if i < frames.len() - 1 {
                assert(frames.drop_last()[i]);
            }
        }
        if now.saw_command_action && !frames.last() {
            let i = choose|i: int|
                0 <= i < frames.drop_last().len() && #[trigger] frames.drop_last()[i];
            assert(frames[i]);
        }
    }
}

} // verus!

//! What the keys for talking, muting and deafening are for: whatever way a key takes, from
//! the settings through the system, the portal or the window, it does the one thing it is
//! bound to.

use vstd::prelude::*;

use crate::client::{AudioState, BackendState, RumbleApp};
use crate::client_view::{deafen_click, frame_keys, mute_click};
use crate::commands::CommandData;
use crate::hotkeys::{
    actions_after, event_of_report, events_of, hotkey_of, Answers, HotkeyEvent, HotkeyManager,
    ManagerData,
};
use crate::keys::named_key;
use crate::portal_hotkeys::signal_event;
use crate::settings::{HotkeyBinding, HotkeyModifiers, KeyboardSettings};
use crate::talk::{frame_ptt, hotkey_effect, pressed, WindowKeys};
use crate::text::lowercase;

verus! {

/// What a client hears and sends.
pub struct Voice {
    pub muted: bool,
    pub deafened: bool,
    pub sending: bool,
}

/// What a command makes of it.
pub open spec fn obeyed(voice: Voice, command: CommandData) -> Voice {
    match command {
        CommandData::SetMuted { muted } => Voice { muted, ..voice },
        CommandData::SetDeafened { deafened } => Voice { deafened, ..voice },
        CommandData::StartTransmit => Voice { sending: true, ..voice },
        CommandData::StopTransmit => Voice { sending: false, ..voice },
        _ => voice,
    }
}

/// What commands make of it, in turn.
pub open spec fn obeyed_all(voice: Voice, commands: Seq<CommandData>) -> Voice
    decreases commands.len(),
{
    if commands.len() == 0 {
        voice
    } else {
        obeyed(obeyed_all(voice, commands.drop_last()), commands.last())
    }
}

/// The voice after a hotkey, with a connection.
pub open spec fn after_hotkey(active: bool, voice: Voice, event: HotkeyEvent) -> Voice {
    obeyed_all(voice, hotkey_effect(active, true, voice.muted, voice.deafened, event).1)
}

proof fn lemma_one(voice: Voice, command: CommandData)
    ensures
        obeyed_all(voice, seq![command]) == obeyed(voice, command),
        obeyed_all(voice, Seq::empty()) == voice,
{
    reveal_with_fuel(obeyed_all, 2);
    assert(seq![command].drop_last() =~= Seq::empty());
}

/// With a connection the deafen key turns deafness over and leaves everything else as it
/// is, by one command; a second press gives back the first state.
pub proof fn the_deafen_key_turns_deafness_over(active: bool, voice: Voice)
    ensures
        after_hotkey(active, voice, HotkeyEvent::ToggleDeafen) == (Voice {
            deafened: !voice.deafened,
            ..voice
        }),
        after_hotkey(
            active,
            after_hotkey(active, voice, HotkeyEvent::ToggleDeafen),
            HotkeyEvent::ToggleDeafen,
        ) == voice,
        hotkey_effect(active, true, voice.muted, voice.deafened, HotkeyEvent::ToggleDeafen).1.len()
            == 1,
        hotkey_effect(active, true, voice.muted, voice.deafened, HotkeyEvent::ToggleDeafen).0
            == active,
{
    lemma_one(voice, CommandData::SetDeafened { deafened: !voice.deafened });
    lemma_one(
        Voice { deafened: !voice.deafened, ..voice },
        CommandData::SetDeafened { deafened: voice.deafened },
    );
}

/// With a connection the mute key turns muteness over and leaves everything else as it is,
/// by one command; a second press gives back the first state.
pub proof fn the_mute_key_turns_muteness_over(active: bool, voice: Voice)
    ensures
        after_hotkey(active, voice, HotkeyEvent::ToggleMute) == (Voice {
            muted: !voice.muted,
            ..voice
        }),
        after_hotkey(
            active,
            after_hotkey(active, voice, HotkeyEvent::ToggleMute),
            HotkeyEvent::ToggleMute,
        ) == voice,
        hotkey_effect(active, true, voice.muted, voice.deafened, HotkeyEvent::ToggleMute).1.len()
            == 1,
        hotkey_effect(active, true, voice.muted, voice.deafened, HotkeyEvent::ToggleMute).0
            == active,
{
    lemma_one(voice, CommandData::SetMuted { muted: !voice.muted });
    lemma_one(
        Voice { muted: !voice.muted, ..voice },
        CommandData::SetMuted { muted: voice.muted },
    );
}

/// Push-to-talk sends while its key is held, and only then: pressing it begins to send,
/// letting it go ends that, and neither does anything else.
pub proof fn push_to_talk_sends_while_held(voice: Voice)
    requires
        !voice.sending,
    ensures
        ({
            let down = hotkey_effect(
                false,
                true,
                voice.muted,
                voice.deafened,
                HotkeyEvent::PttPressed,
            );
            let held = obeyed_all(voice, down.1);
            let up = hotkey_effect(
                down.0,
                true,
                held.muted,
                held.deafened,
                HotkeyEvent::PttReleased,
            );
            &&& down.0 && held == (Voice { sending: true, ..voice })
            &&& !up.0 && obeyed_all(held, up.1) == voice
        }),
{
    lemma_one(voice, CommandData::StartTransmit);
    lemma_one(Voice { sending: true, ..voice }, CommandData::StopTransmit);
}

/// In a client that is connected, each hotkey changes the one thing that it is for, from
/// what the connection reports; the window's keys and the buttons start from the same.
pub proof fn hotkeys_change_one_thing(app: RumbleApp, state: BackendState)
    requires
        state.connection@ is Connected,
    ensures
        obeyed_all(reported(state.audio), pressed(app, state, HotkeyEvent::ToggleDeafen).1) == (
        Voice { deafened: !state.audio.self_deafened, ..reported(state.audio) }),
        obeyed_all(reported(state.audio), pressed(app, state, HotkeyEvent::ToggleMute).1) == (
        Voice { muted: !state.audio.self_muted, ..reported(state.audio) }),
        !app.push_to_talk_active ==> pressed(app, state, HotkeyEvent::PttPressed) == (
            true,
            seq![CommandData::StartTransmit],
        ),
        app.push_to_talk_active ==> pressed(app, state, HotkeyEvent::PttReleased) == (
            false,
            seq![CommandData::StopTransmit],
        ),
        pressed(app, state, HotkeyEvent::ToggleDeafen).0 == app.push_to_talk_active,
        pressed(app, state, HotkeyEvent::ToggleMute).0 == app.push_to_talk_active,
        pressed(app, state, HotkeyEvent::ToggleDeafen).1 == seq![deafen_click(state.audio)],
        pressed(app, state, HotkeyEvent::ToggleMute).1 == seq![mute_click(state.audio)],
{
    the_deafen_key_turns_deafness_over(app.push_to_talk_active, reported(state.audio));
    the_mute_key_turns_muteness_over(app.push_to_talk_active, reported(state.audio));
}

/// Without a connection no hotkey sends anything but the end of sending.
pub proof fn hotkeys_need_a_connection(app: RumbleApp, state: BackendState, event: HotkeyEvent)
    requires
        !(state.connection@ is Connected),
        event != HotkeyEvent::PttReleased || !app.push_to_talk_active,
    ensures
        pressed(app, state, event) == (app.push_to_talk_active, Seq::<CommandData>::empty()),
{
}

/// A key that goes down again, or comes up again, does nothing; and without a connection
/// no key but the one that ends sending does.
pub proof fn keys_do_nothing_out_of_turn(
    muted: bool,
    deafened: bool,
    connected: bool,
    active: bool,
    event: HotkeyEvent,
)
    ensures
        hotkey_effect(true, connected, muted, deafened, HotkeyEvent::PttPressed) == (
            true,
            Seq::<CommandData>::empty(),
        ),
        hotkey_effect(false, connected, muted, deafened, HotkeyEvent::PttReleased) == (
            false,
            Seq::<CommandData>::empty(),
        ),
        event != HotkeyEvent::PttReleased ==> hotkey_effect(active, false, muted, deafened, event)
            == (active, Seq::<CommandData>::empty()),
{
}

// ---------------------------------------------------------------------------
// From the settings to the voice
// ---------------------------------------------------------------------------

/// Whether the system has registered the hotkeys of the settings under numbers of their
/// own.
pub open spec fn are_apart(answers: Answers) -> bool {
    &&& answers.ptt is Some ==> answers.ptt != answers.mute && answers.ptt != answers.deafen
    &&& answers.mute is Some ==> answers.mute != answers.deafen
}

/// What the system's report on one key means.
pub open spec fn meaning(
    manager: ManagerData,
    settings: KeyboardSettings,
    answers: Answers,
    number: u32,
    pressed: bool,
) -> Seq<HotkeyEvent> {
    events_of(
        actions_after(HotkeyManager::plan_for(manager, settings), answers),
        seq![(number, pressed)],
    )
}

proof fn lemma_meaning(
    manager: ManagerData,
    settings: KeyboardSettings,
    answers: Answers,
    number: u32,
    pressed: bool,
)
    ensures
        ({
            let actions = actions_after(HotkeyManager::plan_for(manager, settings), answers);
            meaning(manager, settings, answers, number, pressed) == match event_of_report(
                actions,
                (number, pressed),
            ) {
                Some(event) => seq![event],
                None => Seq::empty(),
            }
        }),
{
    let reports = seq![(number, pressed)];
    let actions = actions_after(HotkeyManager::plan_for(manager, settings), answers);
    reveal_with_fuel(events_of, 2);
    assert(reports.drop_last() =~= Seq::empty());
    assert(Seq::<HotkeyEvent>::empty().push(
        event_of_report(actions, (number, pressed))->0,
    ) =~= seq![event_of_report(actions, (number, pressed))->0]);
}

/// The key that the settings bind to deafening, once the system has registered it, turns
/// deafness over when it goes down, and does nothing when it comes up.
pub proof fn the_bound_deafen_key_deafens(
    manager: ManagerData,
    settings: KeyboardSettings,
    answers: Answers,
    number: u32,
    active: bool,
    voice: Voice,
)
    requires
        manager.available,
        settings.global_hotkeys_enabled,
        settings.toggle_deafen_hotkey matches Some(binding) && hotkey_of(binding) is Some,
        are_apart(answers),
        answers.deafen == Some(number),
    ensures
        ({
            let down = meaning(manager, settings, answers, number, true);
            &&& down.len() == 1
            &&& after_hotkey(active, voice, down[0]) == (Voice {
                deafened: !voice.deafened,
                ..voice
            })
        }),
        meaning(manager, settings, answers, number, false).len() == 0,
{
    lemma_meaning(manager, settings, answers, number, true);
    lemma_meaning(manager, settings, answers, number, false);
    the_deafen_key_turns_deafness_over(active, voice);
}

/// The key that the settings bind to muting, once the system has registered it, turns
/// muteness over when it goes down, and does nothing when it comes up.
pub proof fn the_bound_mute_key_mutes(
    manager: ManagerData,
    settings: KeyboardSettings,
    answers: Answers,
    number: u32,
    active: bool,
    voice: Voice,
)
    requires
        manager.available,
        settings.global_hotkeys_enabled,
        settings.toggle_mute_hotkey matches Some(binding) && hotkey_of(binding) is Some,
        are_apart(answers),
        answers.mute == Some(number),
    ensures
        ({
            let down = meaning(manager, settings, answers, number, true);
            &&& down.len() == 1
            &&& after_hotkey(active, voice, down[0]) == (Voice { muted: !voice.muted, ..voice })
        }),
        meaning(manager, settings, answers, number, false).len() == 0,
{
    lemma_meaning(manager, settings, answers, number, true);
    lemma_meaning(manager, settings, answers, number, false);
    the_mute_key_turns_muteness_over(active, voice);
}

/// The key that the settings bind to push-to-talk, once the system has registered it, sends
/// from when it goes down until it comes up.
pub proof fn the_bound_talk_key_talks(
    manager: ManagerData,
    settings: KeyboardSettings,
    answers: Answers,
    number: u32,
    voice: Voice,
)
    requires
        manager.available,
        settings.global_hotkeys_enabled,
        settings.ptt_hotkey matches Some(binding) && hotkey_of(binding) is Some,
        are_apart(answers),
        answers.ptt == Some(number),
        !voice.sending,
    ensures
        ({
            let down = meaning(manager, settings, answers, number, true);
            let up = meaning(manager, settings, answers, number, false);
            &&& down.len() == 1 && up.len() == 1
            &&& after_hotkey(false, voice, down[0]) == (Voice { sending: true, ..voice })
            &&& after_hotkey(true, Voice { sending: true, ..voice }, up[0]) == voice
        }),
{
    lemma_meaning(manager, settings, answers, number, true);
    lemma_meaning(manager, settings, answers, number, false);
    push_to_talk_sends_while_held(voice);
}

/// Keys that were not registered mean nothing, and none is registered while hotkeys are
/// switched off or not to be had.
pub proof fn other_keys_mean_nothing(
    manager: ManagerData,
    settings: KeyboardSettings,
    answers: Answers,
    number: u32,
    pressed: bool,
)
    requires
        !manager.available || !settings.global_hotkeys_enabled || (answers.ptt != Some(number)
            && answers.mute != Some(number) && answers.deafen != Some(number)),
    ensures
        meaning(manager, settings, answers, number, pressed).len() == 0,
{
    lemma_meaning(manager, settings, answers, number, pressed);
}

/// The portal's shortcuts do what their names say.
pub proof fn portal_shortcuts_do_what_they_say(active: bool, voice: Voice)
    ensures
        signal_event("toggle-deafen"@, true) matches Some(event) && after_hotkey(
            active,
            voice,
            event,
        ) == (Voice { deafened: !voice.deafened, ..voice }),
        signal_event("toggle-mute"@, true) matches Some(event) && after_hotkey(
            active,
            voice,
            event,
        ) == (Voice { muted: !voice.muted, ..voice }),
        signal_event("push-to-talk"@, true) matches Some(event) && (!voice.sending
            ==> after_hotkey(false, voice, event) == (Voice { sending: true, ..voice })),
        signal_event("push-to-talk"@, false) matches Some(event) && after_hotkey(
            true,
            voice,
            event,
        ) == (Voice { sending: false, ..voice }),
        signal_event("toggle-deafen"@, false) is None,
        signal_event("toggle-mute"@, false) is None,
{
    crate::portal_hotkeys::shortcuts_act_like_hotkeys(true);
    crate::portal_hotkeys::shortcuts_act_like_hotkeys(false);
    the_deafen_key_turns_deafness_over(active, voice);
    the_mute_key_turns_muteness_over(active, voice);
    lemma_one(voice, CommandData::StartTransmit);
    lemma_one(voice, CommandData::StopTransmit);
}

// ---------------------------------------------------------------------------
// The window
// ---------------------------------------------------------------------------

/// Whether keys strike a binding: its key is among them, and so are its modifiers, if it
/// has any.
pub open spec fn strikes(
    binding: Option<HotkeyBinding>,
    modifiers: HotkeyModifiers,
    keys: Seq<crate::keys::Key>,
) -> bool {
    binding matches Some(bound) && {
        &&& named_key(lowercase(bound.key@)) matches Some(key) && keys.contains(key)
        &&& bound.modifiers.ctrl || bound.modifiers.shift || bound.modifiers.alt
            || bound.modifiers.super_key ==> {
            &&& bound.modifiers.ctrl == modifiers.ctrl
            &&& bound.modifiers.shift == modifiers.shift
            &&& bound.modifiers.alt == modifiers.alt
            &&& bound.modifiers.super_key == modifiers.super_key
        }
    }
}

/// What a client hears and sends, as the connection reports it.
pub open spec fn reported(audio: AudioState) -> Voice {
    Voice {
        muted: audio.self_muted,
        deafened: audio.self_deafened,
        sending: audio.is_transmitting,
    }
}

proof fn lemma_concat(voice: Voice, a: Seq<CommandData>, b: Seq<CommandData>)
    ensures
        obeyed_all(voice, a + b) == obeyed_all(obeyed_all(voice, a), b),
    decreases b.len(),
{
    if b.len() == 0 {
        assert(a + b =~= a);
    } else {
        assert((a + b).drop_last() =~= a + b.drop_last());
        lemma_concat(voice, a, b.drop_last());
    }
}

/// In a window that is connected and in which the user is not typing, the mute key turns
/// muteness over and the deafen key deafness, each on its own; without a connection, or
/// while the user is typing, neither does anything.
pub proof fn keys_of_the_window_toggle(app: RumbleApp, keys: WindowKeys, state: BackendState)
    ensures
        ({
            let keyboard = app.persistent_settings.keyboard;
            let counts = state.connection@ is Connected && !keys.text_input_focused;
            let before = reported(state.audio);
            let after = obeyed_all(before, frame_keys(app, keys, state));
            let mutes = counts && strikes(
                keyboard.toggle_mute_hotkey,
                keys.modifiers,
                keys.pressed@,
            );
            let deafens = counts && strikes(
                keyboard.toggle_deafen_hotkey,
                keys.modifiers,
                keys.pressed@,
            );
            &&& after.muted == (before.muted != mutes)
            &&& after.deafened == (before.deafened != deafens)
        }),
{
    let keyboard = app.persistent_settings.keyboard;
    let connected = state.connection@ is Connected;
    let voice = reported(state.audio);
    let mute = CommandData::SetMuted { muted: !state.audio.self_muted };
    let deafen = CommandData::SetDeafened { deafened: !state.audio.self_deafened };
    let first = frame_ptt(app, keys, connected).1;
    let second = crate::talk::toggle_command(keyboard.toggle_mute_hotkey, keys, connected, mute);
    let third = crate::talk::toggle_command(keyboard.toggle_deafen_hotkey, keys, connected, deafen);
    lemma_concat(voice, first + second, third);
    lemma_concat(voice, first, second);
    lemma_one(voice, CommandData::StartTransmit);
    lemma_one(voice, CommandData::StopTransmit);
    lemma_one(obeyed_all(voice, first), mute);
    lemma_one(obeyed_all(voice, first + second), deafen);
}

/// The push-to-talk key of the window sends while it is held, and only with a connection;
/// typing does not begin it, and letting the key go always ends it.
pub proof fn the_talk_key_of_the_window(app: RumbleApp, keys: WindowKeys, connected: bool)
    ensures
        ({
            let binding = app.persistent_settings.keyboard.ptt_hotkey;
            let held = strikes(binding, keys.modifiers, keys.down@);
            let known = binding matches Some(bound) && named_key(lowercase(bound.key@)) is Some;
            let was = app.push_to_talk_active && connected;
            let (now, commands) = frame_ptt(app, keys, connected);
            &&& held && connected && !keys.text_input_focused ==> now
            &&& known && !held ==> !now
            &&& !connected ==> !now && commands.len() == 0
            &&& keys.text_input_focused && !was ==> !now
            &&& !was && now ==> commands == seq![CommandData::StartTransmit]
            &&& was && !now ==> commands == seq![CommandData::StopTransmit]
            &&& was == now ==> commands.len() == 0
        }),
{
}

/// The buttons do what the keys do.
pub proof fn buttons_do_what_keys_do(active: bool, audio: AudioState)
    ensures
        obeyed(reported(audio), deafen_click(audio)) == after_hotkey(
            active,
            reported(audio),
            HotkeyEvent::ToggleDeafen,
        ),
        obeyed(reported(audio), mute_click(audio)) == after_hotkey(
            active,
            reported(audio),
            HotkeyEvent::ToggleMute,
        ),
        obeyed(reported(audio), deafen_click(audio)) == (Voice {
            deafened: !audio.self_deafened,
            ..reported(audio)
        }),
        obeyed(reported(audio), mute_click(audio)) == (Voice {
            muted: !audio.self_muted,
            ..reported(audio)
        }),
{
    the_deafen_key_turns_deafness_over(active, reported(audio));
    the_mute_key_turns_muteness_over(active, reported(audio));
}

} // verus!

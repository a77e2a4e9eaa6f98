//! Toast notifications: messages that go away by themselves, newest at the bottom,
//! and that fade out in their last second.
//!
//! Times are nanoseconds of a clock that never runs backwards.

use vstd::prelude::*;

verus! {

/// The milliseconds between frames while something fades or is metered.
pub const REPAINT_MS: u64 = 50;

/// The nanoseconds of a second.
pub const SECOND: u64 = 1_000_000_000;

/// Severity level of a toast notification.
#[derive(Debug, Clone, Copy, PartialEq, Eq, Structural)]
pub enum ToastLevel {
    Success,
    Error,
    Info,
    Warning,
}

impl ToastLevel {
    /// How many nanoseconds a toast of this level is shown.
    pub open spec fn spec_default_duration(self) -> u64 {
        match self {
            ToastLevel::Success => 4_000_000_000u64,
            ToastLevel::Info => 4_000_000_000u64,
            ToastLevel::Error => 6_000_000_000u64,
            ToastLevel::Warning => 6_000_000_000u64,
        }
    }

    /// The red, green and blue of a toast of this level.
    pub fn color(&self) -> (rgb: (u8, u8, u8))
        ensures
            rgb == match *self {
                ToastLevel::Success => (0x4Cu8, 0xAFu8, 0x50u8),
                ToastLevel::Error => (0xF4u8, 0x43u8, 0x36u8),
                ToastLevel::Info => (0x21u8, 0x96u8, 0xF3u8),
                ToastLevel::Warning => (0xFFu8, 0x98u8, 0x00u8),
            },
    {
        match self {
            ToastLevel::Success => (0x4C, 0xAF, 0x50),
            ToastLevel::Error => (0xF4, 0x43, 0x36),
            ToastLevel::Info => (0x21, 0x96, 0xF3),
            ToastLevel::Warning => (0xFF, 0x98, 0x00),
        }
    }

    /// How many nanoseconds a toast of this level is shown.
    pub fn default_duration(&self) -> (duration: u64)
        ensures
            duration == self.spec_default_duration(),
    {
        match self {
            ToastLevel::Success | ToastLevel::Info => 4 * SECOND,
            ToastLevel::Error | ToastLevel::Warning => 6 * SECOND,
        }
    }
}

/// A single toast notification.
#[derive(Debug)]
pub struct Toast {
    pub message: String,
    pub level: ToastLevel,
    pub created_at: u64,
    pub duration: u64,
}

/// What a toast is: its text, its level and when it was made.
pub ghost struct ToastData {
    pub message: Seq<char>,
    pub level: ToastLevel,
    pub created_at: u64,
    pub duration: u64,
}

impl View for Toast {
    type V = ToastData;

    open spec fn view(&self) -> ToastData {
        ToastData {
            message: self.message@,
            level: self.level,
            created_at: self.created_at,
            duration: self.duration,
        }
    }
}

/// A toast as it is made at a given time.
pub open spec fn fresh_toast(message: Seq<char>, level: ToastLevel, now: u64) -> ToastData {
    ToastData { message, level, created_at: now, duration: level.spec_default_duration() }
}

impl ToastData {
    /// How long the toast has been shown.
    pub open spec fn age(self, now: u64) -> int {
        if now >= self.created_at {
            now - self.created_at
        } else {
            0
        }
    }

    /// Whether the time of the toast is over.
    pub open spec fn expired(self, now: u64) -> bool {
        self.age(now) >= self.duration
    }

    /// How visible the toast is, in billionths: wholly, until its last second.
    pub open spec fn visibility(self, now: u64) -> int {
        let left = self.duration - self.age(now);
        if left < 0 {
            0
        } else if left < SECOND {
            left
        } else {
            SECOND as int
        }
    }
}

impl Toast {
    /// A toast that is made now.
    pub fn new(message: String, level: ToastLevel, now: u64) -> (toast: Self)
        ensures
            toast@ == fresh_toast(message@, level, now),
    {
        Toast { message, duration: level.default_duration(), level, created_at: now }
    }

    /// How long the toast has been shown.
    pub fn elapsed(&self, now: u64) -> (age: u64)
        ensures
            age == self@.age(now),
    {
        if now >= self.created_at {
            now - self.created_at
        } else {
            0
        }
    }

    /// Whether the time of the toast is over.
    pub fn is_expired(&self, now: u64) -> (over: bool)
        ensures
            over == self@.expired(now),
    {
        self.elapsed(now) >= self.duration
    }

    /// How visible the toast is, in billionths, fading out during the last second.
    pub fn opacity(&self, now: u64) -> (billionths: u64)
        ensures
            billionths == self@.visibility(now),
            billionths <= SECOND,
    {
        let age: u64 = self.elapsed(now);
        if age >= self.duration {
            0
        } else if self.duration - age < SECOND {
            self.duration - age
        } else {
            SECOND
        }
    }
}

/// The toasts that are still to be shown, in their order.
pub open spec fn live(toasts: Seq<ToastData>, now: u64) -> Seq<ToastData>
    decreases toasts.len(),
{
    if toasts.len() == 0 {
        toasts
    } else if toasts.last().expired(now) {
        live(toasts.drop_last(), now)
    } else {
        live(toasts.drop_last(), now).push(toasts.last())
    }
}

/// Manages active toast notifications.
#[derive(Debug)]
pub struct ToastManager {
    toasts: Vec<Toast>,
}

impl View for ToastManager {
    type V = Seq<ToastData>;

    closed spec fn view(&self) -> Seq<ToastData> {
        self.toasts@.map_values(|toast: Toast| toast@)
    }
}

impl ToastManager {
    /// No toasts.
    pub fn new() -> (manager: Self)
        ensures
            manager@ == Seq::<ToastData>::empty(),
    {
        let manager = ToastManager { toasts: Vec::new() };
        assert(manager@ =~= Seq::<ToastData>::empty());
        manager
    }

    /// Adds a toast.
    pub fn show(&mut self, msg: String, level: ToastLevel, now: u64)
        ensures
            final(self)@ == old(self)@.push(fresh_toast(msg@, level, now)),
    {
        self.toasts.push(Toast::new(msg, level, now));
        assert(self@ =~= old(self)@.push(fresh_toast(msg@, level, now)));
    }

    /// Adds a toast of good news.
    pub fn success(&mut self, msg: String, now: u64)
        ensures
            final(self)@ == old(self)@.push(fresh_toast(msg@, ToastLevel::Success, now)),
    {
        self.show(msg, ToastLevel::Success, now);
    }

    /// Adds a toast of something that failed.
    pub fn error(&mut self, msg: String, now: u64)
        ensures
            final(self)@ == old(self)@.push(fresh_toast(msg@, ToastLevel::Error, now)),
    {
        self.show(msg, ToastLevel::Error, now);
    }

    /// Adds a toast of something worth knowing.
    pub fn info(&mut self, msg: String, now: u64)
        ensures
            final(self)@ == old(self)@.push(fresh_toast(msg@, ToastLevel::Info, now)),
    {
        self.show(msg, ToastLevel::Info, now);
    }

    /// Adds a toast of something to look out for.
    pub fn warning(&mut self, msg: String, now: u64)
        ensures
            final(self)@ == old(self)@.push(fresh_toast(msg@, ToastLevel::Warning, now)),
    {
        self.show(msg, ToastLevel::Warning, now);
    }

    /// The toasts to be drawn now, from top to bottom: those whose time is over are
    /// removed first.
    pub fn render(&mut self, now: u64) -> (shown: &Vec<Toast>)
        ensures
            final(self)@ == live(old(self)@, now),
            shown@.map_values(|toast: Toast| toast@) == final(self)@,
    {
        let ghost start = self@;
        let mut i: usize = 0;
        let ghost mut done: int = 0;
        assert(start.take(0) =~= Seq::<ToastData>::empty());
        assert(self@.take(0) =~= live(start.take(0), now));
        assert(self@.skip(0) =~= start.skip(0));
        while i < self.toasts.len()
            invariant
                i <= self.toasts@.len(),
                0 <= done <= start.len(),
                self@.len() == self.toasts@.len(),
                self@.take(i as int) == live(start.take(done), now),
                self@.skip(i as int) == start.skip(done),
            decreases self.toasts@.len() - i,
        {
            let ghost before = self@;
            proof {
                assert(before.skip(i as int).len() == before.len() - i);
                assert(start.skip(done).len() == start.len() - done);
                assert(before.skip(i as int)[0] == start.skip(done)[0]);
                assert(start.take(done + 1).drop_last() =~= start.take(done));
                assert(before[i as int] == start[done]);
                assert(start.take(done + 1).last() == start[done]);
            }
            if self.toasts[i].is_expired(now) {
                let _ = self.toasts.remove(i);
                proof {
                    assert(self@ =~= before.remove(i as int));
                    assert(self@.take(i as int) =~= before.take(i as int));
                    assert(self@.skip(i as int) =~= before.skip(i as int).skip(1));
                    assert(start.skip(done + 1) =~= start.skip(done).skip(1));
                }
            } else {
                proof {
                    assert(self@.take(i + 1) =~= before.take(i as int).push(before[i as int]));
                    assert(self@.skip(i + 1) =~= before.skip(i as int).skip(1));
                    assert(start.skip(done + 1) =~= start.skip(done).skip(1));
                }
                i += 1;
            }
            proof {
                done = done + 1;
            }
        }
        proof {
            assert(self@.skip(i as int).len() == 0);
            assert(done == start.len());
            assert(start.take(done) =~= start);
            assert(self@.take(i as int) =~= self@);
        }
        &self.toasts
    }

    /// In how many milliseconds another frame is to be drawn, so that toasts fade: only
    /// while one is left.
    pub fn repaint_after(&self) -> (delay: Option<u64>)
        ensures
            delay == if self@.len() > 0 {
                Some(REPAINT_MS)
            } else {
                None
            },
    {
        if self.toasts.len() > 0 {
            Some(REPAINT_MS)
        } else {
            None
        }
    }
}

/// What is shown at one time and then at a later one is what is shown at the later
/// one, however often the list was cleared in between.
pub proof fn expiry_is_final(toasts: Seq<ToastData>, now: u64, later: u64)
    requires
        now <= later,
    ensures
        live(live(toasts, now), later) == live(toasts, later),
    decreases toasts.len(),
{
    if toasts.len() > 0 {
        expiry_is_final(toasts.drop_last(), now, later);
        let kept = live(toasts.drop_last(), now).push(toasts.last());
        assert(kept.drop_last() =~= live(toasts.drop_last(), now));
    }
}

} // verus!

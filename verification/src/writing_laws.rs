//! How things are written down: blanks, numbers, times and voice numbers, each stated by
//! what a reader finds in what was written.

use vstd::prelude::*;

use crate::bytes::{be_bytes, lemma_be_bytes_len};
use crate::mumble_voice::varint_bytes;
use crate::text::{decimal, trimmed, trimmed_end, trimmed_start, white_space, zero_padded};
use crate::timestamps::{age_text, clock_12h, clock_24h, two_digits};
use crate::toasts::{fresh_toast, live, ToastData, ToastLevel};
use crate::welcome_laws::{lemma_be_four, lemma_be_two};

verus! {

// ---------------------------------------------------------------------------
// Blanks
// ---------------------------------------------------------------------------

/// Whether a text is nothing but white space.
pub open spec fn is_blank(text: Seq<char>) -> bool {
    forall|i: int| 0 <= i < text.len() ==> white_space(#[trigger] text[i])
}

proof fn lemma_start(text: Seq<char>) -> (n: int)
    ensures
        0 <= n <= text.len(),
        trimmed_start(text) == text.skip(n),
        is_blank(text.take(n)),
        n < text.len() ==> !white_space(text[n]),
    decreases text.len(),
{
    if text.len() > 0 && white_space(text[0]) {
        let rest = text.drop_first();
        let m = lemma_start(rest);
        assert(rest.skip(m) =~= text.skip(m + 1));
        assert forall|i: int| 0 <= i < m + 1 implies white_space(
            #[trigger] text.take(m + 1)[i],
        ) by {
            if i > 0 {
                assert(rest.take(m)[i - 1] == text[i]);
            }
        }
        m + 1
    } else {
        assert(text.skip(0) =~= text);
        0
    }
}

proof fn lemma_end(text: Seq<char>) -> (n: int)
    ensures
        0 <= n <= text.len(),
        trimmed_end(text) == text.take(n),
        is_blank(text.skip(n)),
        n > 0 ==> !white_space(text[n - 1]),
    decreases text.len(),
{
    if text.len() > 0 && white_space(text.last()) {
        let rest = text.drop_last();
        let n = lemma_end(rest);
        assert(rest.take(n) =~= text.take(n));
        assert forall|i: int| 0 <= i < text.skip(n).len() implies white_space(
            #[trigger] text.skip(n)[i],
        ) by {
            if n + i < rest.len() {
                assert(rest.skip(n)[i] == text[n + i]);
            }
        }
        n
    } else {
        assert(text.take(text.len() as int) =~= text);
        text.len() as int
    }
}

/// To trim a text is to take away white space at its ends and nothing else: what is left
/// neither begins nor ends with white space.
pub proof fn trimming_takes_blanks_away(text: Seq<char>)
    ensures
        exists|front: int, back: int|
            #![trigger text.subrange(front, back)]
            0 <= front <= back <= text.len() && trimmed(text) == text.subrange(front, back)
                && is_blank(text.take(front)) && is_blank(text.skip(back)),
        trimmed(text).len() > 0 ==> !white_space(trimmed(text)[0]) && !white_space(
            trimmed(text).last(),
        ),
{
    let front = lemma_start(text);
    let rest = text.skip(front);
    let n = lemma_end(rest);
    let back = front + n;
    assert(rest.take(n) =~= text.subrange(front, back));
    assert(rest.skip(n) =~= text.skip(back));
    assert(trimmed(text) == text.subrange(front, back));
}

// ---------------------------------------------------------------------------
// Numbers
// ---------------------------------------------------------------------------

/// What decimal digits count.
pub open spec fn counted(digits: Seq<char>) -> int
    decreases digits.len(),
{
    if digits.len() == 0 {
        0
    } else {
        10 * counted(digits.drop_last()) + (digits.last() as int - '0' as int)
    }
}

/// The decimal form of a number holds nothing but digits, which count the number, and does
/// not begin with a zero unless it is zero.
pub proof fn decimals_count_the_number(n: nat)
    ensures
        counted(decimal(n)) == n,
        decimal(n).len() > 0,
        forall|i: int| 0 <= i < decimal(n).len() ==> '0' <= #[trigger] decimal(n)[i] <= '9',
        n > 0 ==> decimal(n)[0] != '0',
    decreases n,
{
    let text = decimal(n);
    if n < 10 {
        reveal_with_fuel(counted, 2);
        assert(text.drop_last() =~= Seq::empty());
        assert(text.last() as int == 48 + n);
    } else {
        decimals_count_the_number(n / 10);
        assert(text.drop_last() =~= decimal(n / 10));
        assert(text.last() as int == 48 + n % 10);
        assert forall|i: int| 0 <= i < text.len() implies '0' <= #[trigger] text[i] <= '9' by {
            if i < text.len() - 1 {
                assert(text[i] == decimal(n / 10)[i]);
            }
        }
        assert(text[0] == decimal(n / 10)[0]);
    }
}

proof fn lemma_two(n: int)
    requires
        0 <= n < 100,
    ensures
        two_digits(n).len() == 2,
        two_digits(n)[0] as int - '0' as int == n / 10,
        two_digits(n)[1] as int - '0' as int == n % 10,
{
    reveal_with_fuel(decimal, 3);
    if n < 10 {
        assert(decimal(n as nat).len() == 1);
        assert(two_digits(n) =~= seq!['0', decimal(n as nat)[0]]);
    } else {
        assert(decimal((n / 10) as nat).len() == 1);
        assert(zero_padded(decimal(n as nat), 2) == decimal(n as nat));
    }
}

// ---------------------------------------------------------------------------
// Times
// ---------------------------------------------------------------------------

/// Two digits of a text, as a number.
pub open spec fn pair_at(text: Seq<char>, at: int) -> int {
    10 * (text[at] as int - '0' as int) + (text[at + 1] as int - '0' as int)
}

/// A clock of 24 hours shows the hour, the minute and the second of a time of day, in two
/// digits each, with colons between them.
pub proof fn clocks_show_the_time(time_of_day: int)
    requires
        0 <= time_of_day < 86400,
    ensures
        ({
            let text = clock_24h(time_of_day);
            &&& text.len() == 8
            &&& text[2] == ':' && text[5] == ':'
            &&& 0 <= pair_at(text, 0) < 24
            &&& 0 <= pair_at(text, 3) < 60
            &&& 0 <= pair_at(text, 6) < 60
            &&& pair_at(text, 0) * 3600 + pair_at(text, 3) * 60 + pair_at(text, 6) == time_of_day
        }),
{
    reveal_strlit(":");
    lemma_two(time_of_day / 3600);
    lemma_two(time_of_day % 3600 / 60);
    lemma_two(time_of_day % 60);
    let text = clock_24h(time_of_day);
    assert(text[0] == two_digits(time_of_day / 3600)[0]);
    assert(text[1] == two_digits(time_of_day / 3600)[1]);
    assert(text[3] == two_digits(time_of_day % 3600 / 60)[0]);
    assert(text[4] == two_digits(time_of_day % 3600 / 60)[1]);
    assert(text[6] == two_digits(time_of_day % 60)[0]);
    assert(text[7] == two_digits(time_of_day % 60)[1]);
}

/// A clock of twelve hours says in its last two letters which half of the day it is, and
/// shows the same hour in both halves: from twelve over one to eleven.
pub proof fn half_days_are_told_apart(time_of_day: int)
    requires
        0 <= time_of_day < 43200,
    ensures
        ({
            let morning = clock_12h(time_of_day);
            let evening = clock_12h(time_of_day + 43200);
            let n = morning.len() as int;
            &&& n == evening.len()
            &&& morning.take(n - 2) == evening.take(n - 2)
            &&& morning[n - 2] == 'A' && morning[n - 1] == 'M'
            &&& evening[n - 2] == 'P' && evening[n - 1] == 'M'
        }),
{
    reveal_strlit("AM");
    reveal_strlit("PM");
    let morning = clock_12h(time_of_day);
    let evening = clock_12h(time_of_day + 43200);
    let n = morning.len() as int;
    assert((time_of_day + 43200) / 3600 == time_of_day / 3600 + 12);
    assert((time_of_day + 43200) % 3600 == time_of_day % 3600);
    assert((time_of_day + 43200) % 60 == time_of_day % 60);
    assert(morning.take(n - 2) =~= evening.take(n - 2));
}

/// How long ago something was is told in minutes within the hour, in hours within the day
/// and in days after that, each unit by its letter.
pub proof fn ages_are_told_in_units(elapsed: int)
    requires
        elapsed >= 60,
    ensures
        ({
            let text = age_text(elapsed);
            let n = text.len() - 5;
            let unit: int = if elapsed < 3600 {
                60
            } else if elapsed < 86400 {
                3600
            } else {
                86400
            };
            &&& n > 0
            &&& counted(text.take(n)) == elapsed / unit
            &&& text[n] == (if unit == 60 {
                'm'
            } else if unit == 3600 {
                'h'
            } else {
                'd'
            })
            &&& text.skip(n + 1) == seq![' ', 'a', 'g', 'o']
        }),
{
    reveal_strlit("m ago");
    reveal_strlit("h ago");
    reveal_strlit("d ago");
    let text = age_text(elapsed);
    let n = text.len() - 5;
    let count: nat = if elapsed < 3600 {
        (elapsed / 60) as nat
    } else if elapsed < 86400 {
        (elapsed / 3600) as nat
    } else {
        (elapsed / 86400) as nat
    };
    decimals_count_the_number(count);
    assert(text.take(n) =~= decimal(count));
    assert(text.skip(n + 1) =~= seq![' ', 'a', 'g', 'o']);
}

// ---------------------------------------------------------------------------
// Voice numbers
// ---------------------------------------------------------------------------

/// A number in a voice packet takes the fewest bytes that hold it: the first byte says how
/// many by its leading ones, and the bits after that spell the number, the high ones first.
pub proof fn voice_numbers_are_as_mumble_writes_them(value: u64)
    ensures
        ({
            let code = varint_bytes(value);
            &&& value < 0x80 ==> code.len() == 1 && code[0] == value
            &&& 0x80 <= value < 0x4000 ==> code.len() == 2 && 0x80 <= code[0] < 0xC0 && (code[0]
                - 0x80) * 0x100 + code[1] == value
            &&& 0x4000 <= value < 0x20_0000 ==> code.len() == 3 && 0xC0 <= code[0] < 0xE0 && (
            code[0] - 0xC0) * 0x1_0000 + code[1] * 0x100 + code[2] == value
            &&& 0x20_0000 <= value < 0x1000_0000 ==> code.len() == 4 && 0xE0 <= code[0] < 0xF0 && (
            code[0] - 0xE0) * 0x100_0000 + code[1] * 0x1_0000 + code[2] * 0x100 + code[3] == value
            &&& 0x1000_0000 <= value <= 0xFFFF_FFFF ==> code.len() == 5 && code[0] == 0xF0 && code[1]
                * 0x100_0000 + code[2] * 0x1_0000 + code[3] * 0x100 + code[4] == value
            &&& value > 0xFFFF_FFFF ==> code.len() == 9 && code[0] == 0xF4
        }),
{
    if 0x80 <= value < 0x4000 {
        lemma_be_two((0x8000 + value) as nat);
    } else if 0x4000 <= value < 0x20_0000 {
        let n = (0xC0_0000 + value) as nat;
        reveal_with_fuel(be_bytes, 4);
        lemma_be_bytes_len(n, 3);
        let code = be_bytes(n, 3);
        assert(code[0] * 0x1_0000 + code[1] * 0x100 + code[2] == n);
    } else if 0x20_0000 <= value < 0x1000_0000 {
        lemma_be_four((0xE000_0000 + value) as nat);
    } else if 0x1000_0000 <= value <= 0xFFFF_FFFF {
        lemma_be_four(value as nat);
    } else if value > 0xFFFF_FFFF {
        lemma_be_bytes_len(value as nat, 8);
    }
}

// ---------------------------------------------------------------------------
// Toasts
// ---------------------------------------------------------------------------

/// A toast says what it was given, from when it is made until its time is over: six seconds
/// for what went wrong, and four for the rest. It is wholly visible until its last second.
pub proof fn toasts_last_their_time(message: Seq<char>, level: ToastLevel, now: u64, later: u64)
    requires
        now <= later,
    ensures
        ({
            let toast = fresh_toast(message, level, now);
            let seconds: int = if level == ToastLevel::Error || level == ToastLevel::Warning {
                6
            } else {
                4
            };
            &&& toast.message == message
            &&& toast.level == level
            &&& toast.expired(later) <==> later - now >= seconds * 1_000_000_000
            &&& later - now <= (seconds - 1) * 1_000_000_000 ==> toast.visibility(later)
                == 1_000_000_000
            &&& later - now >= seconds * 1_000_000_000 ==> toast.visibility(later) == 0
        }),
{
}

/// Of the toasts that there are, exactly those are shown whose time is not over.
pub proof fn toasts_are_shown_until_they_expire(toasts: Seq<ToastData>, now: u64, toast: ToastData)
    ensures
        live(toasts, now).contains(toast) <==> toasts.contains(toast) && !toast.expired(now),
    decreases toasts.len(),
{
    if toasts.len() > 0 {
        let rest = toasts.drop_last();
        toasts_are_shown_until_they_expire(rest, now, toast);
        assert(toasts =~= rest.push(toasts.last()));
        crate::sorting::lemma_push_contains(rest, toasts.last(), toast);
        crate::sorting::lemma_push_contains(live(rest, now), toasts.last(), toast);
    }
}

} // verus!

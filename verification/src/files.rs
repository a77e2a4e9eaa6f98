//! How files are shown: sizes in words, and an icon for each kind of contents.

use vstd::prelude::*;

use crate::text::{
    begins_with, contains, decimal, decimal_text, has_within, same_text, starts_with,
};

verus! {

pub const KB: u64 = 1024;

pub const MB: u64 = 1_048_576;

pub const GB: u64 = 1_073_741_824;

/// How many units `n` comes nearest to; halfway between two numbers, the even one.
pub open spec fn nearest(n: int, unit: int) -> int {
    let q = n / unit;
    let r = n % unit;
    if 2 * r > unit || (2 * r == unit && q % 2 == 1) {
        q + 1
    } else {
        q
    }
}

/// `n` rounded to at most 53 binary digits, in steps of `step` or of the smallest
/// doubling of it that is enough.
pub open spec fn to_53_bits(n: int, step: int) -> int
    decreases 4096 - step,
    when step > 0
{
    if n < 0x20_0000_0000_0000 * step || step >= 2048 {
        nearest(n, step) * step
    } else {
        to_53_bits(n, 2 * step)
    }
}

/// The value of `n` as a floating-point number of double precision.
pub open spec fn double_value(n: int) -> int {
    to_53_bits(n, 1)
}

/// A number of units to one decimal place.
pub open spec fn one_place(bytes: int, unit: int) -> Seq<char> {
    let tenths = nearest(10 * double_value(bytes), unit);
    decimal((tenths / 10) as nat) + "."@ + decimal((tenths % 10) as nat)
}

/// A number of bytes in the largest unit that it reaches.
pub open spec fn size_text(bytes: int) -> Seq<char> {
    if bytes >= GB {
        one_place(bytes, GB as int) + " GB"@
    } else if bytes >= MB {
        one_place(bytes, MB as int) + " MB"@
    } else if bytes >= KB {
        one_place(bytes, KB as int) + " KB"@
    } else {
        decimal(bytes as nat) + " B"@
    }
}

fn round_to_unit(n: u128, unit: u128) -> (count: u128)
    requires
        1 <= unit <= 0x1_0000_0000_0000,
    ensures
        count == nearest(n as int, unit as int),
{
    let q: u128 = n / unit;
    let r: u128 = n % unit;
    proof {
        assert(0 <= r < unit);
        vstd::arithmetic::div_mod::lemma_fundamental_div_mod(n as int, unit as int);
        if q as int == u128::MAX as int {
            assert(unit * q == n - r);
            assert(unit == 1) by (nonlinear_arith)
                requires
                    unit * q <= n,
                    n <= q,
                    1 <= unit,
                    q > 0,
            ;
        }
    }
    if 2 * r > unit || (2 * r == unit && q % 2 == 1) {
        q + 1
    } else {
        q
    }
}

fn round_to_double(n: u64) -> (value: u128)
    ensures
        value == double_value(n as int),
        value <= 0x2_0000_0000_0000_0000,
{
    let mut step: u64 = 1;
    let wide: u128 = n as u128;
    while step < 2048 && wide >= 0x20_0000_0000_0000u128 * (step as u128)
        invariant
            step == 1 || step == 2 || step == 4 || step == 8 || step == 16 || step == 32 || step
                == 64 || step == 128 || step == 256 || step == 512 || step == 1024 || step == 2048,
            wide == n,
            to_53_bits(n as int, step as int) == double_value(n as int),
        decreases 2048 - step,
    {
        step = 2 * step;
    }
    let count: u128 = round_to_unit(wide, step as u128);
    proof {
        let q = n as int / step as int;
        vstd::arithmetic::div_mod::lemma_fundamental_div_mod(n as int, step as int);
        assert(count <= q + 1);
        assert(q * step <= n);
        assert((q + 1) * step == q * step + step) by (nonlinear_arith);
        assert(count * step <= (q + 1) * step) by (nonlinear_arith)
            requires
                count <= q + 1,
                step >= 0,
        ;
    }
    count * (step as u128)
}

fn one_place_text(bytes: u64, unit: u64) -> (text: String)
    requires
        unit == KB || unit == MB || unit == GB,
    ensures
        text@ == one_place(bytes as int, unit as int),
{
    let tenths: u128 = round_to_unit(10 * round_to_double(bytes), unit as u128);
    proof {
        assert(tenths <= 10 * double_value(bytes as int) / (unit as int) + 1);
        assert(tenths <= 0xFFFF_FFFF_FFFF_FFFF);
    }
    let whole: u64 = (tenths / 10) as u64;
    let tenth: u64 = (tenths % 10) as u64;
    let mut text = decimal_text(whole);
    text.push_str(".");
    text.push_str(decimal_text(tenth).as_str());
    text
}

/// Format a byte size as a human-readable string (KB, MB, GB).
pub fn format_size(bytes: u64) -> (text: String)
    ensures
        text@ == size_text(bytes as int),
{
    let (mut text, unit): (String, &str) = if bytes >= GB {
        (one_place_text(bytes, GB), " GB")
    } else if bytes >= MB {
        (one_place_text(bytes, MB), " MB")
    } else if bytes >= KB {
        (one_place_text(bytes, KB), " KB")
    } else {
        (decimal_text(bytes), " B")
    };
    text.push_str(unit);
    text
}

/// Whether a MIME type is that of an archive.
pub open spec fn is_archive(mime: Seq<char>) -> bool {
    has_within(mime, "zip"@) || has_within(mime, "tar"@) || has_within(mime, "rar"@) || has_within(
        mime,
        "7z"@,
    )
}

/// The icon of a file, by its MIME type.
pub open spec fn file_icon(mime: Seq<char>) -> Seq<char> {
    if begins_with(mime, "image/"@) {
        "🖼"@
    } else if begins_with(mime, "audio/"@) {
        "🎵"@
    } else if begins_with(mime, "video/"@) {
        "🎬"@
    } else if begins_with(mime, "text/"@) {
        "📝"@
    } else if mime == "application/pdf"@ {
        "📕"@
    } else if is_archive(mime) {
        "📦"@
    } else if has_within(mime, "word"@) || has_within(mime, "document"@) {
        "📄"@
    } else if has_within(mime, "excel"@) || has_within(mime, "spreadsheet"@) {
        "📊"@
    } else if has_within(mime, "powerpoint"@) || has_within(mime, "presentation"@) {
        "📽"@
    } else {
        "📁"@
    }
}

/// Get an icon for a file based on its MIME type.
pub fn get_file_icon(mime: &str) -> (icon: &'static str)
    ensures
        icon@ == file_icon(mime@),
{
    if starts_with(mime, "image/") {
        "🖼"
    } else if starts_with(mime, "audio/") {
        "🎵"
    } else if starts_with(mime, "video/") {
        "🎬"
    } else if starts_with(mime, "text/") {
        "📝"
    } else if same_text(mime, "application/pdf") {
        "📕"
    } else if contains(mime, "zip") || contains(mime, "tar") || contains(mime, "rar") || contains(
        mime,
        "7z",
    ) {
        "📦"
    } else if contains(mime, "word") || contains(mime, "document") {
        "📄"
    } else if contains(mime, "excel") || contains(mime, "spreadsheet") {
        "📊"
    } else if contains(mime, "powerpoint") || contains(mime, "presentation") {
        "📽"
    } else {
        "📁"
    }
}

} // verus!

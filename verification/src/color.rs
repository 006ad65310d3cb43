use vstd::prelude::*;

verus! {

/// A display color for one status-line segment. The terminal codes are
/// produced by [`Color::code`]; the renderer itself only chooses variants.
#[derive(Clone, Copy, PartialEq, Eq, Structural, Debug)]
pub enum Color {
    Red,
    Yellow,
    Green,
    Dim,
}

/// The ANSI escape sequence that starts a color.
pub open spec fn color_code(c: Color) -> Seq<char> {
    match c {
        Color::Red => "\x1b[31m"@,
        Color::Yellow => "\x1b[33m"@,
        Color::Green => "\x1b[32m"@,
        Color::Dim => "\x1b[2m"@,
    }
}

impl Color {
    /// The ANSI escape sequence that starts this color.
    pub fn code(&self) -> (r: &'static str)
        ensures
            r@ == color_code(*self),
    {
        match self {
            Color::Red => "\x1b[31m",
            Color::Yellow => "\x1b[33m",
            Color::Green => "\x1b[32m",
            Color::Dim => "\x1b[2m",
        }
    }
}

/// The ANSI escape sequence that resets all attributes.
pub fn reset_code() -> (r: &'static str)
    ensures
        r@ == "\x1b[0m"@,
{
    "\x1b[0m"
}

/// The color of a used share, in hundredths of a percent: alarming from
/// 80% up, a warning from 60% up, nominal below.
pub open spec fn spec_context_color(h: int) -> Color {
    if h >= 8000 {
        Color::Red
    } else if h >= 6000 {
        Color::Yellow
    } else {
        Color::Green
    }
}

/// Color for a usage percentage, measured in hundredths of a percent:
/// 80% or more of the budget used is alarming, 60% or more is a warning,
/// anything below is nominal.
pub fn get_context_color(percentage_hundredths: u64) -> (c: Color)
    ensures
        c == spec_context_color(percentage_hundredths as int),
        c is Red <==> percentage_hundredths >= 8000,
        c is Yellow <==> 6000 <= percentage_hundredths < 8000,
        c is Green <==> percentage_hundredths < 6000,
{
    if percentage_hundredths >= 8000 {
        Color::Red
    } else if percentage_hundredths >= 6000 {
        Color::Yellow
    } else {
        Color::Green
    }
}

/// Color for a remaining share of a budget, in hundredths of a percent.
/// The thresholds run the other way round: 20% or less remaining is
/// alarming, 40% or less is a warning, more than that is nominal.
pub fn remaining_color(remaining_hundredths: u64) -> (c: Color)
    ensures
        c is Red <==> remaining_hundredths <= 2000,
        c is Yellow <==> 2000 < remaining_hundredths <= 4000,
        c is Green <==> remaining_hundredths > 4000,
{
    if remaining_hundredths <= 2000 {
        Color::Red
    } else if remaining_hundredths <= 4000 {
        Color::Yellow
    } else {
        Color::Green
    }
}

/// The color of what remains of a budget, as the exact fraction
/// `remaining / quota`: alarming at 20% or less remaining (or an empty
/// quota), a warning above 20% up to 40%, nominal above that.
pub open spec fn spec_remaining_color(remaining: int, quota: int) -> Color {
    if quota <= 0 {
        Color::Red
    } else if 100 * remaining <= 20 * quota {
        Color::Red
    } else if 100 * remaining <= 40 * quota {
        Color::Yellow
    } else {
        Color::Green
    }
}

/// Colors a remaining balance against its quota by the exact fraction,
/// with the inverted thresholds: at most 20% left is alarming, at most
/// 40% is a warning, more is nominal. An empty quota counts as nothing
/// left.
pub fn balance_color(remaining: u64, quota: u64) -> (c: Color)
    ensures
        c == spec_remaining_color(remaining as int, quota as int),
        quota > 0 ==> (c is Red <==> 100 * (remaining as int) <= 20 * (quota as int)),
        quota > 0 ==> (c is Yellow <==> 20 * (quota as int) < 100 * (remaining as int) <= 40 * (
        quota as int)),
        quota > 0 ==> (c is Green <==> 100 * (remaining as int) > 40 * (quota as int)),
        quota == 0 ==> c is Red,
{
    if quota == 0 {
        Color::Red
    } else {
        let r100: u128 = (remaining as u128) * 100;
        let q20: u128 = (quota as u128) * 20;
        let q40: u128 = (quota as u128) * 40;
        if r100 <= q20 {
            Color::Red
        } else if r100 <= q40 {
            Color::Yellow
        } else {
            Color::Green
        }
    }
}

} // verus!

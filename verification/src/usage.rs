//! Usage readings and the colour that a reading is painted in.

use vstd::prelude::*;

verus! {

/// The reading that stands for 100%, in hundredths of a percent.
pub const FULL: u32 = 10_000;

/// A usage reading between 0% and 100%, kept in hundredths of a percent.
#[derive(Clone, Copy, Debug, PartialEq, Eq)]
pub struct Usage {
    hundredths: u32,
}

/// A colour of the terminal: one byte for each of red, green and blue.
#[derive(Clone, Copy, Debug, PartialEq, Eq, Structural)]
pub struct Rgb {
    pub red: u8,
    pub green: u8,
    pub blue: u8,
}

impl View for Usage {
    type V = int;

    /// The reading in hundredths of a percent.
    closed spec fn view(&self) -> int {
        self.hundredths as int
    }
}

/// `h` held to the readings from 0% to 100%.
pub open spec fn clamped(h: int) -> int {
    if h < 0 {
        0
    } else if h > FULL {
        FULL as int
    } else {
        h
    }
}

/// The share that `part` is of `whole`, in hundredths of a percent and
/// rounded down; no more than 100%, and 0% of an empty whole.
pub open spec fn ratio_hundredths(part: int, whole: int) -> int {
    if whole <= 0 {
        0
    } else {
        clamped(part * 10_000 / whole)
    }
}

/// The whole percents in a reading of `h` hundredths.
pub open spec fn whole_percent(h: int) -> int {
    h / 100
}

/// A reading of `h` hundredths to the nearest whole percent; a reading
/// that lies halfway goes to the even one.
pub open spec fn rounded_percent(h: int) -> int {
    let q = h / 100;
    let r = h % 100;
    if r > 50 || (r == 50 && q % 2 == 1) {
        q + 1
    } else {
        q
    }
}

/// The red share of the colour of a reading: 255 at 100%, none at 0%, in
/// between the nearest whole number, the upper one of two equally near.
pub open spec fn red_of(h: int) -> int {
    (255 * h + 5_000) / 10_000
}

/// The green share of the colour of a reading: what red leaves of 255.
pub open spec fn green_of(h: int) -> int {
    255 - red_of(h)
}

/// The colour of a reading of `h` hundredths: from green at 0% to red at
/// 100%, without blue.
pub open spec fn color_of(h: int) -> Rgb {
    Rgb { red: red_of(h) as u8, green: green_of(h) as u8, blue: 0 }
}

impl Usage {
    #[verifier::type_invariant]
    spec fn in_range(self) -> bool {
        self.hundredths <= FULL
    }

    /// The reading of `hundredths` hundredths of a percent; one above 100%
    /// counts as 100%.
    pub fn from_hundredths(hundredths: u32) -> (u: Usage)
        ensures
            u@ == clamped(hundredths as int),
    {
        if hundredths > FULL {
            Usage { hundredths: FULL }
        } else {
            Usage { hundredths }
        }
    }

    /// The share that `part` is of `whole`.
    pub fn of_ratio(part: u64, whole: u64) -> (u: Usage)
        ensures
            u@ == ratio_hundredths(part as int, whole as int),
    {
        if whole == 0 {
            return Usage { hundredths: 0 };
        }
        let scaled: u128 = part as u128 * 10_000;
        let q: u128 = scaled / (whole as u128);
        if q > FULL as u128 {
            Usage { hundredths: FULL }
        } else {
            Usage { hundredths: q as u32 }
        }
    }

    /// The reading in hundredths of a percent.
    pub fn hundredths(&self) -> (h: u32)
        ensures
            h == self@,
            h <= FULL,
    {
        proof {
            use_type_invariant(self);
        }
        self.hundredths
    }

    /// The whole percents of the reading: what is drawn as the bar's length.
    pub fn whole(&self) -> (p: u64)
        ensures
            p == whole_percent(self@),
            p <= 100,
    {
        proof {
            use_type_invariant(self);
        }
        (self.hundredths / 100) as u64
    }

    /// The reading to the nearest whole percent: what is written on the bar.
    pub fn rounded(&self) -> (p: u64)
        ensures
            p == rounded_percent(self@),
            p <= 100,
    {
        proof {
            use_type_invariant(self);
        }
        let q: u32 = self.hundredths / 100;
        let r: u32 = self.hundredths % 100;
        if r > 50 || (r == 50 && q % 2 == 1) {
            (q + 1) as u64
        } else {
            q as u64
        }
    }
}

/// The colour in which a bar of the given reading is drawn.
pub fn bar_color(value: Usage) -> (c: Rgb)
    ensures
        c == color_of(value@),
{
    let h: u32 = value.hundredths();
    let red: u32 = (255 * h + 5_000) / 10_000;
    let green: u32 = 255 - red;
    Rgb { red: red as u8, green: green as u8, blue: 0 }
}

/// Red is the whole number nearest to 2.55 times the percentage, the upper
/// one where two are equally near; green is the whole number nearest to
/// 2.55 times what is left to 100%, the lower one where two are equally
/// near; the two add up to 255 and there is no blue.
pub proof fn lemma_color_is_rounded(h: int)
    requires
        0 <= h <= FULL,
    ensures
        -5_000 <= 255 * h - 10_000 * color_of(h).red < 5_000,
        -5_000 < 255 * (10_000 - h) - 10_000 * color_of(h).green <= 5_000,
        color_of(h).red + color_of(h).green == 255,
        color_of(h).blue == 0,
{
}

/// A higher reading is never less red and never more green.
pub proof fn lemma_color_is_monotonic(low: int, high: int)
    requires
        0 <= low <= high <= FULL,
    ensures
        color_of(low).red <= color_of(high).red,
        color_of(low).green >= color_of(high).green,
{
}

} // verus!

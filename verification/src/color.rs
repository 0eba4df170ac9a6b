//! Color classification of raw optical readings.
//!
//! A raw sample carries four channel magnitudes (red, green, blue, clear).
//! The blue channel is boosted by a factor of 3/2 to compensate for the
//! sensor's lower blue sensitivity; each channel is then normalized against
//! the dominant (largest) channel and squared, which attenuates strong
//! signals relative to weak ones.  The normalized values are exact
//! rationals: each one is stored as a squared-channel numerator over the
//! shared squared-dominant denominator, so every threshold comparison is
//! exact integer arithmetic.

use vstd::prelude::*;

verus! {

/// The discrete color labels the classifier can produce.
#[derive(Debug, Clone, Copy, PartialEq, Eq, Structural)]
pub enum Color {
    Black,
    Blue,
    Red,
    Magenta,
    Green,
    Cyan,
    Yellow,
    White,
    Orange,
    Unknown,
}

/// One raw reading of the four optical channels.
#[derive(Debug, Clone, Copy, PartialEq, Eq, Structural)]
pub struct RawChannelSample {
    pub red: u16,
    pub green: u16,
    pub blue: u16,
    pub clear: u16,
}

/// Samples whose clear channel is below this are too dark to classify.
pub const CLEAR_THRESHOLD: u16 = 110;
/// A normalized component at or below 30/100 counts as "low".
pub const CHANNEL_LOW_HUNDREDTHS: u64 = 30;
/// A normalized component at or above 70/100 counts as "high".
pub const CHANNEL_HIGH_HUNDREDTHS: u64 = 70;

/// The blue reading boosted by 3/2, compensating the sensor's lower blue
/// sensitivity (integer division, rounding down).
pub open spec fn corrected_blue(blue: int) -> int {
    blue * 3 / 2
}

/// The largest of red, green and the corrected blue channel: the
/// denominator of the normalization.
pub open spec fn dominant_channel(m: RawChannelSample) -> int {
    let r = m.red as int;
    let g = m.green as int;
    let b = corrected_blue(m.blue as int);
    if g > r {
        if b > g { b } else { g }
    } else {
        if b > r { b } else { r }
    }
}

/// Squared red channel: the numerator of the normalized red component.
pub open spec fn spec_red_sq(m: RawChannelSample) -> int {
    (m.red as int) * (m.red as int)
}

/// Squared green channel.
pub open spec fn spec_green_sq(m: RawChannelSample) -> int {
    (m.green as int) * (m.green as int)
}

/// Squared corrected blue channel.
pub open spec fn spec_blue_sq(m: RawChannelSample) -> int {
    corrected_blue(m.blue as int) * corrected_blue(m.blue as int)
}

/// Squared dominant channel: the shared denominator of all three
/// normalized components.
pub open spec fn spec_max_sq(m: RawChannelSample) -> int {
    dominant_channel(m) * dominant_channel(m)
}

/// A per-channel predicate of a classification rule, with inclusive range
/// bounds given in hundredths.
#[derive(Debug, Clone, Copy, PartialEq, Eq, Structural)]
pub enum ChannelBound {
    Low,
    High,
    Within(u8, u8),
}

/// Whether the normalized component `x_sq / max_sq` satisfies the bound:
/// `Low` means at most 30/100, `High` at least 70/100, and `Within(lo, hi)`
/// means between `lo/100` and `hi/100` inclusive.
pub open spec fn channel_matches(x_sq: int, max_sq: int, b: ChannelBound) -> bool {
    match b {
        ChannelBound::Low => 100 * x_sq <= CHANNEL_LOW_HUNDREDTHS * max_sq,
        ChannelBound::High => 100 * x_sq >= CHANNEL_HIGH_HUNDREDTHS * max_sq,
        ChannelBound::Within(lo, hi) => {
            &&& 100 * x_sq >= lo * max_sq
            &&& 100 * x_sq <= hi * max_sq
        },
    }
}

/// Whether the sample's normalized red, green and blue components satisfy
/// the rule's three bounds.
pub open spec fn rule_matches(
    m: RawChannelSample,
    b_red: ChannelBound,
    b_green: ChannelBound,
    b_blue: ChannelBound,
) -> bool {
    &&& channel_matches(spec_red_sq(m), spec_max_sq(m), b_red)
    &&& channel_matches(spec_green_sq(m), spec_max_sq(m), b_green)
    &&& channel_matches(spec_blue_sq(m), spec_max_sq(m), b_blue)
}

/// The classification of a raw sample.
///
/// A sample whose clear channel is under the threshold is Black (too dark
/// or out of sensing range), checked before normalization.  A sample whose
/// dominant channel is zero has no defined normalization and is resolved to
/// Unknown, the "take no action" label.  Otherwise the rules are evaluated
/// in this fixed priority order and the first match wins; a sample that
/// matches none of them is Unknown.
pub open spec fn classify_color(m: RawChannelSample) -> Color {
    if m.clear < CLEAR_THRESHOLD {
        Color::Black
    } else if dominant_channel(m) == 0 {
        Color::Unknown
    } else if rule_matches(m, ChannelBound::Low, ChannelBound::Low, ChannelBound::High) {
        Color::Blue
    } else if rule_matches(m, ChannelBound::High, ChannelBound::Low, ChannelBound::High) {
        Color::Magenta
    } else if rule_matches(m, ChannelBound::Low, ChannelBound::High, ChannelBound::Low) {
        Color::Green
    } else if rule_matches(m, ChannelBound::Low, ChannelBound::High, ChannelBound::High) {
        Color::Cyan
    } else if rule_matches(m, ChannelBound::High, ChannelBound::High, ChannelBound::Low) {
        Color::Yellow
    } else if rule_matches(m, ChannelBound::High, ChannelBound::High, ChannelBound::High) {
        Color::White
    } else if rule_matches(
        m,
        ChannelBound::Within(30, 50),
        ChannelBound::Within(30, 50),
        ChannelBound::High,
    ) {
        Color::Magenta
    } else if rule_matches(
        m,
        ChannelBound::High,
        ChannelBound::Within(45, 55),
        ChannelBound::Within(40, 50),
    ) {
        Color::Orange
    } else if rule_matches(
        m,
        ChannelBound::High,
        ChannelBound::Within(45, 55),
        ChannelBound::Within(55, 70),
    ) {
        Color::Red
    } else {
        Color::Unknown
    }
}

/// The normalized sample: three components, each the exact rational
/// `x_sq / max_sq`, the squared ratio of a channel against the dominant
/// channel.
#[derive(Debug, Clone, Copy, PartialEq, Eq, Structural)]
pub struct NormalizedSample {
    pub red_sq: u64,
    pub green_sq: u64,
    pub blue_sq: u64,
    pub max_sq: u64,
}

impl NormalizedSample {
    /// Each component is a well-defined rational in [0, 1], and the shared
    /// denominator is bounded by the largest possible squared channel.
    pub open spec fn wf(self) -> bool {
        &&& self.max_sq > 0
        &&& self.red_sq <= self.max_sq
        &&& self.green_sq <= self.max_sq
        &&& self.blue_sq <= self.max_sq
        &&& self.max_sq <= 98302 * 98302
    }
}

/// The dominant channel of a sample: the largest of red, green, and the
/// corrected blue reading.
pub fn dominant(m: &RawChannelSample) -> (d: u64)
    ensures
        d == dominant_channel(*m),
        d <= 98302,
{
    let red: u64 = m.red as u64;
    let green: u64 = m.green as u64;
    let blue_c: u64 = (m.blue as u64) * 3 / 2;
    let mut max: u64 = red;
    if green > max {
        max = green;
    }
    if blue_c > max {
        max = blue_c;
    }
    max
}

/// Normalizes a raw sample against its dominant channel: each component is
/// the squared ratio of the channel (blue corrected by 3/2) over the
/// dominant channel, held exactly as numerator and shared denominator.
/// Every component lies in [0, 1].
pub fn normalize_measurement(m: RawChannelSample) -> (n: NormalizedSample)
    requires
        dominant_channel(m) > 0,
    ensures
        n.red_sq == spec_red_sq(m),
        n.green_sq == spec_green_sq(m),
        n.blue_sq == spec_blue_sq(m),
        n.max_sq == spec_max_sq(m),
        n.wf(),
{
    let red: u64 = m.red as u64;
    let green: u64 = m.green as u64;
    let blue_c: u64 = (m.blue as u64) * 3 / 2;
    let max: u64 = dominant(&m);
    assert(red <= max && green <= max && blue_c <= max && max <= 98302);
    assert(red * red <= max * max && green * green <= max * max && blue_c * blue_c <= max * max
        && max * max <= 98302 * 98302 && 1 <= max * max) by (nonlinear_arith)
        requires
            red <= max,
            green <= max,
            blue_c <= max,
            1 <= max <= 98302,
    ;
    NormalizedSample {
        red_sq: red * red,
        green_sq: green * green,
        blue_sq: blue_c * blue_c,
        max_sq: max * max,
    }
}

/// Whether one normalized component satisfies one rule bound, by exact
/// cross-multiplied comparison.
fn channel_ok(x_sq: u64, max_sq: u64, b: ChannelBound) -> (r: bool)
    requires
        x_sq <= max_sq,
        max_sq <= 98302 * 98302,
    ensures
        r == channel_matches(x_sq as int, max_sq as int, b),
{
    match b {
        ChannelBound::Low => 100 * x_sq <= CHANNEL_LOW_HUNDREDTHS * max_sq,
        ChannelBound::High => 100 * x_sq >= CHANNEL_HIGH_HUNDREDTHS * max_sq,
        ChannelBound::Within(lo, hi) => {
            proof {
                assert((lo as int) * (max_sq as int) <= 255 * (98302 * 98302) && (hi as int) * (
                max_sq as int) <= 255 * (98302 * 98302)) by (nonlinear_arith)
                    requires
                        lo <= 255,
                        hi <= 255,
                        max_sq <= 98302 * 98302,
                ;
            }
            100 * x_sq >= (lo as u64) * max_sq && 100 * x_sq <= (hi as u64) * max_sq
        },
    }
}

/// Whether a normalized sample satisfies all three per-channel bounds of a
/// rule, in red, green, blue order.
pub fn compare(n: &NormalizedSample, c: [ChannelBound; 3]) -> (r: bool)
    requires
        n.wf(),
    ensures
        r == (channel_matches(n.red_sq as int, n.max_sq as int, c[0])
            && channel_matches(n.green_sq as int, n.max_sq as int, c[1])
            && channel_matches(n.blue_sq as int, n.max_sq as int, c[2])),
{
    if !channel_ok(n.red_sq, n.max_sq, c[0]) {
        return false;
    }
    if !channel_ok(n.green_sq, n.max_sq, c[1]) {
        return false;
    }
    channel_ok(n.blue_sq, n.max_sq, c[2])
}

/// An RGB triple for the status indicator.
#[derive(Debug, Clone, Copy, PartialEq, Eq, Structural)]
pub struct Rgb {
    pub red: u8,
    pub green: u8,
    pub blue: u8,
}

/// The indicator color rendered for each classification result.
pub open spec fn rgb_of(c: Color) -> Rgb {
    match c {
        Color::Black => Rgb { red: 0, green: 0, blue: 0 },
        Color::Blue => Rgb { red: 0, green: 0, blue: 128 },
        Color::Red => Rgb { red: 128, green: 0, blue: 0 },
        Color::Magenta => Rgb { red: 128, green: 0, blue: 128 },
        Color::Green => Rgb { red: 0, green: 128, blue: 0 },
        Color::Cyan => Rgb { red: 0, green: 128, blue: 128 },
        Color::Yellow => Rgb { red: 128, green: 128, blue: 0 },
        Color::White => Rgb { red: 128, green: 128, blue: 128 },
        Color::Orange => Rgb { red: 128, green: 82, blue: 0 },
        Color::Unknown => Rgb { red: 0, green: 0, blue: 0 },
    }
}

impl Color {
    /// Classifies one raw sample.  Total: every sample yields exactly one
    /// color.  A sample darker than the clear threshold is Black whatever
    /// its other channels hold; a sample whose dominant channel is zero is
    /// Unknown; otherwise the first matching rule, in priority order,
    /// decides, and a sample matching no rule is Unknown.
    pub fn from_measurement(m: RawChannelSample) -> (r: Color)
        ensures
            r == classify_color(m),
            m.clear < CLEAR_THRESHOLD ==> r == Color::Black,
    {
        if m.clear < CLEAR_THRESHOLD {
            return Color::Black;
        }
        if dominant(&m) == 0 {
            return Color::Unknown;
        }
        let n = normalize_measurement(m);
        if compare(&n, [ChannelBound::Low, ChannelBound::Low, ChannelBound::High]) {
            return Color::Blue;
        }
        if compare(&n, [ChannelBound::High, ChannelBound::Low, ChannelBound::High]) {
            return Color::Magenta;
        }
        if compare(&n, [ChannelBound::Low, ChannelBound::High, ChannelBound::Low]) {
            return Color::Green;
        }
        if compare(&n, [ChannelBound::Low, ChannelBound::High, ChannelBound::High]) {
            return Color::Cyan;
        }
        if compare(&n, [ChannelBound::High, ChannelBound::High, ChannelBound::Low]) {
            return Color::Yellow;
        }
        if compare(&n, [ChannelBound::High, ChannelBound::High, ChannelBound::High]) {
            return Color::White;
        }
        if compare(
            &n,
            [ChannelBound::Within(30, 50), ChannelBound::Within(30, 50), ChannelBound::High],
        ) {
            return Color::Magenta;
        }
        if compare(
            &n,
            [ChannelBound::High, ChannelBound::Within(45, 55), ChannelBound::Within(40, 50)],
        ) {
            return Color::Orange;
        }
        if compare(
            &n,
            [ChannelBound::High, ChannelBound::Within(45, 55), ChannelBound::Within(55, 70)],
        ) {
            return Color::Red;
        }
        Color::Unknown
    }

    /// The RGB value to render on the status indicator for this color.
    pub fn to_rgb(self) -> (r: Rgb)
        ensures
            r == rgb_of(self),
    {
        match self {
            Color::Black => Rgb { red: 0, green: 0, blue: 0 },
            Color::Blue => Rgb { red: 0, green: 0, blue: 128 },
            Color::Red => Rgb { red: 128, green: 0, blue: 0 },
            Color::Magenta => Rgb { red: 128, green: 0, blue: 128 },
            Color::Green => Rgb { red: 0, green: 128, blue: 0 },
            Color::Cyan => Rgb { red: 0, green: 128, blue: 128 },
            Color::Yellow => Rgb { red: 128, green: 128, blue: 0 },
            Color::White => Rgb { red: 128, green: 128, blue: 128 },
            Color::Orange => Rgb { red: 128, green: 82, blue: 0 },
            Color::Unknown => Rgb { red: 0, green: 0, blue: 0 },
        }
    }
}

} // verus!

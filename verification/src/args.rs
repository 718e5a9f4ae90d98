//! The finished configuration a timer is created from.

use vstd::prelude::*;

verus! {

/// Largest index of the colour palette.
pub const PALETTE_MAX: u8 = 8;

/// Preset that fixes how many character cells one digit of the counter takes.
#[derive(Copy, Clone, Debug, PartialEq, Eq, Structural)]
pub enum DigitSize {
    Small,
    Medium,
    Large,
}

impl DigitSize {
    /// Columns taken by one digit glyph.
    pub open spec fn spec_width(self) -> u16 {
        match self {
            DigitSize::Small => 1,
            DigitSize::Medium => 4,
            DigitSize::Large => 6,
        }
    }

    /// Rows taken by one digit glyph.
    pub open spec fn spec_height(self) -> u16 {
        match self {
            DigitSize::Small => 1,
            DigitSize::Medium => 3,
            DigitSize::Large => 5,
        }
    }

    /// Columns taken by one digit glyph.
    #[verifier::when_used_as_spec(spec_width)]
    pub fn width(self) -> (w: u16)
        ensures
            w == self.spec_width(),
    {
        match self {
            DigitSize::Small => 1,
            DigitSize::Medium => 4,
            DigitSize::Large => 6,
        }
    }

    /// Rows taken by one digit glyph.
    #[verifier::when_used_as_spec(spec_height)]
    pub fn height(self) -> (h: u16)
        ensures
            h == self.spec_height(),
    {
        match self {
            DigitSize::Small => 1,
            DigitSize::Medium => 3,
            DigitSize::Large => 5,
        }
    }
}

impl Default for DigitSize {
    fn default() -> (size: DigitSize)
        ensures
            size == DigitSize::Medium,
    {
        DigitSize::Medium
    }
}

/// Everything the timer is told at start-up.
pub struct SilicaArgs {
    /// Starting countdown time, in seconds.
    pub time: u64,
    /// Text shown above the timer.
    pub text: Option<String>,
    /// Size of the digits in the timer.
    pub digit_size: DigitSize,
    /// Colour of the digits in the timer.
    pub digit_color: u8,
    /// Colour of the text alongside the timer.
    pub text_color: u8,
    /// Colour of the ascii art alongside the timer.
    pub ascii_color: u8,
    /// Colour of the blinking digits in the timer.
    pub blink_color: u8,
    /// Turns blinking off.
    pub noblink: bool,
    /// Second text, shown once the timer has elapsed.
    pub post_text: Option<String>,
    /// Hides the ascii art.
    pub noascii: bool,
}

impl SilicaArgs {
    /// All four colours are indices into the palette.
    pub open spec fn colors_in_palette(self) -> bool {
        &&& self.digit_color <= PALETTE_MAX
        &&& self.text_color <= PALETTE_MAX
        &&& self.ascii_color <= PALETTE_MAX
        &&& self.blink_color <= PALETTE_MAX
    }

    /// A configuration for `time` seconds with every option at its default:
    /// no texts, medium digits, green digits, white text and art, red blink,
    /// blinking and art both on.
    pub fn new(time: u64) -> (args: SilicaArgs)
        ensures
            args.time == time,
            args.text is None,
            args.post_text is None,
            args.digit_size == DigitSize::Medium,
            args.digit_color == 2,
            args.text_color == 7,
            args.ascii_color == 7,
            args.blink_color == 1,
            !args.noblink,
            !args.noascii,
            args.colors_in_palette(),
    {
        SilicaArgs {
            time,
            text: None,
            digit_size: DigitSize::Medium,
            digit_color: 2,
            text_color: 7,
            ascii_color: 7,
            blink_color: 1,
            noblink: false,
            post_text: None,
            noascii: false,
        }
    }
}

} // verus!

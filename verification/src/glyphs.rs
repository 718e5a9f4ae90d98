//! The glyph tables: what each digit, the separator and the hourglass look
//! like at every digit size. The tables are data; nothing is computed from a
//! geometry.

use vstd::prelude::*;

use crate::app::App;
use crate::args::DigitSize;

verus! {

/// The decimal character of a digit.
pub open spec fn digit_char(digit: nat) -> char {
    if digit == 0 {
        '0'
    } else if digit == 1 {
        '1'
    } else if digit == 2 {
        '2'
    } else if digit == 3 {
        '3'
    } else if digit == 4 {
        '4'
    } else if digit == 5 {
        '5'
    } else if digit == 6 {
        '6'
    } else if digit == 7 {
        '7'
    } else if digit == 8 {
        '8'
    } else {
        '9'
    }
}

/// The small glyph of a digit: its decimal character, alone.
pub open spec fn small_glyph(digit: u32) -> Seq<Seq<char>> {
    if digit <= 9 {
        seq![seq![digit_char(digit as nat)]]
    } else {
        Seq::empty()
    }
}

/// The medium glyph of a digit: three rows of four box-drawing characters,
/// in the manner of a seven-segment display.
pub open spec fn medium_glyph(digit: u32) -> Seq<Seq<char>> {
    match digit {
        0 => seq![
            "┌──┐"@,
            "│  │"@,
            "└──┘"@,
        ],
        1 => seq![
            "  ┐ "@,
            "  │ "@,
            "  ╵ "@,
        ],
        2 => seq![
            "╶──┐"@,
            "┌──┘"@,
            "└──╴"@,
        ],
        3 => seq![
            "╶──┐"@,
            " ──┤"@,
            "╶──┘"@,
        ],
        4 => seq![
            "╷  ╷"@,
            "└──┤"@,
            "   ╵"@,
        ],
        5 => seq![
            "┌──╴"@,
            "└──┐"@,
            "╶──┘"@,
        ],
        6 => seq![
            "┌──╴"@,
            "├──┐"@,
            "└──┘"@,
        ],
        7 => seq![
            "╶──┐"@,
            "   │"@,
            "   ╵"@,
        ],
        8 => seq![
            "┌──┐"@,
            "├──┤"@,
            "└──┘"@,
        ],
        9 => seq![
            "┌──┐"@,
            "└──┤"@,
            "╶──┘"@,
        ],
        _ => Seq::empty(),
    }
}

/// The large glyph of a digit: five rows of six box-drawing characters,
/// in the manner of a seven-segment display.
pub open spec fn large_glyph(digit: u32) -> Seq<Seq<char>> {
    match digit {
        0 => seq![
            "┌────┐"@,
            "│    │"@,
            "│    │"@,
            "│    │"@,
            "└────┘"@,
        ],
        1 => seq![
            "   ╶┐ "@,
            "    │ "@,
            "    │ "@,
            "    │ "@,
            "    ╵ "@,
        ],
        2 => seq![
            "╶────┐"@,
            "     │"@,
            "┌────┘"@,
            "│     "@,
            "└────╴"@,
        ],
        3 => seq![
            "╶────┐"@,
            "     │"@,
            " ────┤"@,
            "     │"@,
            "╶────┘"@,
        ],
        4 => seq![
            "╷    ╷"@,
            "│    │"@,
            "└────┤"@,
            "     │"@,
            "     ╵"@,
        ],
        5 => seq![
            "┌────╴"@,
            "│     "@,
            "└────┐"@,
            "     │"@,
            "╶────┘"@,
        ],
        6 => seq![
            "┌────╴"@,
            "│     "@,
            "├────┐"@,
            "│    │"@,
            "└────┘"@,
        ],
        7 => seq![
            "╶────┐"@,
            "     │"@,
            "     │"@,
            "     │"@,
            "     ╵"@,
        ],
        8 => seq![
            "┌────┐"@,
            "│    │"@,
            "├────┤"@,
            "│    │"@,
            "└────┘"@,
        ],
        9 => seq![
            "┌────┐"@,
            "│    │"@,
            "└────┤"@,
            "     │"@,
            "╶────┘"@,
        ],
        _ => Seq::empty(),
    }
}

/// The glyph of a digit at a digit size. Only `0` to `9` have one.
pub open spec fn digit_glyph(size: DigitSize, digit: u32) -> Seq<Seq<char>> {
    match size {
        DigitSize::Small => small_glyph(digit),
        DigitSize::Medium => medium_glyph(digit),
        DigitSize::Large => large_glyph(digit),
    }
}

/// The glyph that stands between minutes and seconds: one column wide and as
/// high as a digit, a colon at the small and medium sizes and two dots at the
/// large one.
pub open spec fn separator_glyph(size: DigitSize) -> Seq<Seq<char>> {
    match size {
        DigitSize::Small => seq![":"@],
        DigitSize::Medium => seq![" "@, ":"@, " "@],
        DigitSize::Large => seq![" "@, "◦"@, " "@, "◦"@, " "@],
    }
}

/// The hourglass drawn beside the counter: five rows of six characters,
/// whatever the digit size.
pub open spec fn ascii_glyph() -> Seq<Seq<char>> {
    seq!["+====+"@, "|(::)|"@, "| )( |"@, "|(..)|"@, "+====+"@]
}

/// The digit that a character of the counter text stands for, if it is one.
pub open spec fn char_digit(c: char) -> Option<u32> {
    if '0' <= c && c <= '9' {
        Some((c as u32 - '0' as u32) as u32)
    } else {
        None
    }
}

/// The glyph drawn for one character of the counter text: the digit's glyph
/// for a digit, the separator for anything else.
pub open spec fn char_glyph(size: DigitSize, c: char) -> Seq<Seq<char>> {
    match char_digit(c) {
        Some(digit) => digit_glyph(size, digit),
        None => separator_glyph(size),
    }
}

/// The character of a digit stands for that digit, and the colon for none.
pub proof fn lemma_char_digit_of_digit_char(digit: nat)
    requires
        digit <= 9,
    ensures
        char_digit(digit_char(digit)) == Some(digit as u32),
        char_digit(':') is None,
{
}

/// Every row of `glyph` has `width` characters, and there are `height` rows.
pub open spec fn has_dimensions(glyph: Seq<Seq<char>>, width: int, height: int) -> bool {
    &&& glyph.len() == height
    &&& forall|row: int| 0 <= row < glyph.len() ==> (#[trigger] glyph[row]).len() == width
}

proof fn lemma_medium_dimensions(digit: u32)
    requires
        digit <= 9,
    ensures
        has_dimensions(medium_glyph(digit), 4, 3),
{
    reveal_strlit("┌──┐");
    reveal_strlit("│  │");
    reveal_strlit("└──┘");
    reveal_strlit("  ┐ ");
    reveal_strlit("  │ ");
    reveal_strlit("  ╵ ");
    reveal_strlit("╶──┐");
    reveal_strlit("┌──┘");
    reveal_strlit("└──╴");
    reveal_strlit(" ──┤");
    reveal_strlit("╶──┘");
    reveal_strlit("╷  ╷");
    reveal_strlit("└──┤");
    reveal_strlit("   ╵");
    reveal_strlit("┌──╴");
    reveal_strlit("└──┐");
    reveal_strlit("├──┐");
    reveal_strlit("   │");
    reveal_strlit("├──┤");
}

proof fn lemma_large_dimensions(digit: u32)
    requires
        digit <= 9,
    ensures
        has_dimensions(large_glyph(digit), 6, 5),
{
    reveal_strlit("┌────┐");
    reveal_strlit("│    │");
    reveal_strlit("└────┘");
    reveal_strlit("   ╶┐ ");
    reveal_strlit("    │ ");
    reveal_strlit("    ╵ ");
    reveal_strlit("╶────┐");
    reveal_strlit("     │");
    reveal_strlit("┌────┘");
    reveal_strlit("│     ");
    reveal_strlit("└────╴");
    reveal_strlit(" ────┤");
    reveal_strlit("╶────┘");
    reveal_strlit("╷    ╷");
    reveal_strlit("└────┤");
    reveal_strlit("     ╵");
    reveal_strlit("┌────╴");
    reveal_strlit("└────┐");
    reveal_strlit("├────┐");
    reveal_strlit("├────┤");
}

/// The glyph tables are complete and uniform: every digit from 0 to 9 has a
/// glyph at every digit size, and that glyph has exactly the rows and columns
/// that the size declares.
pub proof fn lemma_digit_glyph_dimensions(size: DigitSize, digit: u32)
    requires
        digit <= 9,
    ensures
        has_dimensions(digit_glyph(size, digit), size.spec_width() as int, size.spec_height() as int),
{
    match size {
        DigitSize::Small => {},
        DigitSize::Medium => lemma_medium_dimensions(digit),
        DigitSize::Large => lemma_large_dimensions(digit),
    }
}

/// The separator is one column wide and as high as the digits beside it.
pub proof fn lemma_separator_glyph_dimensions(size: DigitSize)
    ensures
        has_dimensions(separator_glyph(size), 1, size.spec_height() as int),
{
    reveal_strlit(":");
    reveal_strlit(" ");
    reveal_strlit("◦");
}

/// The hourglass is six columns wide and five rows high.
pub proof fn lemma_ascii_glyph_dimensions()
    ensures
        has_dimensions(ascii_glyph(), 6, 5),
{
    reveal_strlit("+====+");
    reveal_strlit("|(::)|");
    reveal_strlit("| )( |");
    reveal_strlit("|(..)|");
}

/// The glyph of `digit` at the digit size of `app`.
pub fn segments_from_digit(digit: u32, app: &App) -> (segments: Vec<String>)
    requires
        digit <= 9,
    ensures
        segments.deep_view() == digit_glyph(app.digit_size, digit),
{
    match app.digit_size {
        DigitSize::Small => small_segments_from_digit(digit),
        DigitSize::Medium => medium_segments_from_digit(digit),
        DigitSize::Large => large_segments_from_digit(digit),
    }
}

/// The small glyph of `digit`: one row that holds its decimal character.
pub fn small_segments_from_digit(digit: u32) -> (segments: Vec<String>)
    requires
        digit <= 9,
    ensures
        segments.deep_view() == small_glyph(digit),
{
    proof {
        reveal_strlit("0");
        reveal_strlit("1");
        reveal_strlit("2");
        reveal_strlit("3");
        reveal_strlit("4");
        reveal_strlit("5");
        reveal_strlit("6");
        reveal_strlit("7");
        reveal_strlit("8");
        reveal_strlit("9");
    }
    let row = match digit {
        0 => "0",
        1 => "1",
        2 => "2",
        3 => "3",
        4 => "4",
        5 => "5",
        6 => "6",
        7 => "7",
        8 => "8",
        _ => "9",
    };
    let segments = vec![row.to_owned()];
    assert(segments.deep_view()[0] =~= seq![digit_char(digit as nat)]);
    segments
}

/// The medium glyph of `digit`, one string per row.
pub fn medium_segments_from_digit(digit: u32) -> (segments: Vec<String>)
    requires
        digit <= 9,
    ensures
        segments.deep_view() == medium_glyph(digit),
{
    match digit {
        0 => vec![
            "┌──┐".to_owned(),
            "│  │".to_owned(),
            "└──┘".to_owned(),
        ],
        1 => vec![
            "  ┐ ".to_owned(),
            "  │ ".to_owned(),
            "  ╵ ".to_owned(),
        ],
        2 => vec![
            "╶──┐".to_owned(),
            "┌──┘".to_owned(),
            "└──╴".to_owned(),
        ],
        3 => vec![
            "╶──┐".to_owned(),
            " ──┤".to_owned(),
            "╶──┘".to_owned(),
        ],
        4 => vec![
            "╷  ╷".to_owned(),
            "└──┤".to_owned(),
            "   ╵".to_owned(),
        ],
        5 => vec![
            "┌──╴".to_owned(),
            "└──┐".to_owned(),
            "╶──┘".to_owned(),
        ],
        6 => vec![
            "┌──╴".to_owned(),
            "├──┐".to_owned(),
            "└──┘".to_owned(),
        ],
        7 => vec![
            "╶──┐".to_owned(),
            "   │".to_owned(),
            "   ╵".to_owned(),
        ],
        8 => vec![
            "┌──┐".to_owned(),
            "├──┤".to_owned(),
            "└──┘".to_owned(),
        ],
        _ => vec![
            "┌──┐".to_owned(),
            "└──┤".to_owned(),
            "╶──┘".to_owned(),
        ],
    }
}

/// The large glyph of `digit`, one string per row.
pub fn large_segments_from_digit(digit: u32) -> (segments: Vec<String>)
    requires
        digit <= 9,
    ensures
        segments.deep_view() == large_glyph(digit),
{
    match digit {
        0 => vec![
            "┌────┐".to_owned(),
            "│    │".to_owned(),
            "│    │".to_owned(),
            "│    │".to_owned(),
            "└────┘".to_owned(),
        ],
        1 => vec![
            "   ╶┐ ".to_owned(),
            "    │ ".to_owned(),
            "    │ ".to_owned(),
            "    │ ".to_owned(),
            "    ╵ ".to_owned(),
        ],
        2 => vec![
            "╶────┐".to_owned(),
            "     │".to_owned(),
            "┌────┘".to_owned(),
            "│     ".to_owned(),
            "└────╴".to_owned(),
        ],
        3 => vec![
            "╶────┐".to_owned(),
            "     │".to_owned(),
            " ────┤".to_owned(),
            "     │".to_owned(),
            "╶────┘".to_owned(),
        ],
        4 => vec![
            "╷    ╷".to_owned(),
            "│    │".to_owned(),
            "└────┤".to_owned(),
            "     │".to_owned(),
            "     ╵".to_owned(),
        ],
        5 => vec![
            "┌────╴".to_owned(),
            "│     ".to_owned(),
            "└────┐".to_owned(),
            "     │".to_owned(),
            "╶────┘".to_owned(),
        ],
        6 => vec![
            "┌────╴".to_owned(),
            "│     ".to_owned(),
            "├────┐".to_owned(),
            "│    │".to_owned(),
            "└────┘".to_owned(),
        ],
        7 => vec![
            "╶────┐".to_owned(),
            "     │".to_owned(),
            "     │".to_owned(),
            "     │".to_owned(),
            "     ╵".to_owned(),
        ],
        8 => vec![
            "┌────┐".to_owned(),
            "│    │".to_owned(),
            "├────┤".to_owned(),
            "│    │".to_owned(),
            "└────┘".to_owned(),
        ],
        _ => vec![
            "┌────┐".to_owned(),
            "│    │".to_owned(),
            "└────┤".to_owned(),
            "     │".to_owned(),
            "╶────┘".to_owned(),
        ],
    }
}

/// The separator glyph at the digit size of `app`.
pub fn separator_segments(app: &App) -> (segments: Vec<String>)
    ensures
        segments.deep_view() == separator_glyph(app.digit_size),
{
    match app.digit_size {
        DigitSize::Small => vec![":".to_owned()],
        DigitSize::Medium => vec![" ".to_owned(), ":".to_owned(), " ".to_owned()],
        DigitSize::Large => vec![
            " ".to_owned(),
            "◦".to_owned(),
            " ".to_owned(),
            "◦".to_owned(),
            " ".to_owned(),
        ],
    }
}

/// The hourglass, one string per row.
pub fn ascii_segments() -> (segments: Vec<String>)
    ensures
        segments.deep_view() == ascii_glyph(),
{
    vec![
        "+====+".to_owned(),
        "|(::)|".to_owned(),
        "| )( |".to_owned(),
        "|(..)|".to_owned(),
        "+====+".to_owned(),
    ]
}

} // verus!

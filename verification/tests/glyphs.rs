use silica::app::App;
use silica::args::{DigitSize, SilicaArgs};
use silica::glyphs::{
    ascii_segments, large_segments_from_digit, medium_segments_from_digit, segments_from_digit,
    separator_segments, small_segments_from_digit,
};

fn sized(size: DigitSize) -> App {
    let mut args = SilicaArgs::new(0);
    args.digit_size = size;
    App::new(args)
}

fn columns(row: &str) -> usize {
    row.chars().count()
}

#[test]
fn medium_zero() {
    assert_eq!(
        medium_segments_from_digit(0),
        vec!["┌──┐", "│  │", "└──┘"],
    );
}

#[test]
fn medium_one() {
    assert_eq!(
        medium_segments_from_digit(1),
        vec!["  ┐ ", "  │ ", "  ╵ "],
    );
}

#[test]
fn medium_two() {
    assert_eq!(
        medium_segments_from_digit(2),
        vec!["╶──┐", "┌──┘", "└──╴"],
    );
}

#[test]
fn medium_three() {
    assert_eq!(
        medium_segments_from_digit(3),
        vec!["╶──┐", " ──┤", "╶──┘"],
    );
}

#[test]
fn medium_four() {
    assert_eq!(
        medium_segments_from_digit(4),
        vec!["╷  ╷", "└──┤", "   ╵"],
    );
}

#[test]
fn medium_five() {
    assert_eq!(
        medium_segments_from_digit(5),
        vec!["┌──╴", "└──┐", "╶──┘"],
    );
}

#[test]
fn medium_six() {
    assert_eq!(
        medium_segments_from_digit(6),
        vec!["┌──╴", "├──┐", "└──┘"],
    );
}

#[test]
fn medium_seven() {
    assert_eq!(
        medium_segments_from_digit(7),
        vec!["╶──┐", "   │", "   ╵"],
    );
}

#[test]
fn medium_eight() {
    assert_eq!(
        medium_segments_from_digit(8),
        vec!["┌──┐", "├──┤", "└──┘"],
    );
}

#[test]
fn medium_nine() {
    assert_eq!(
        medium_segments_from_digit(9),
        vec!["┌──┐", "└──┤", "╶──┘"],
    );
}

#[test]
fn large_zero() {
    assert_eq!(
        large_segments_from_digit(0),
        vec!["┌────┐", "│    │", "│    │", "│    │", "└────┘"],
    );
}

#[test]
fn large_one() {
    assert_eq!(
        large_segments_from_digit(1),
        vec!["   ╶┐ ", "    │ ", "    │ ", "    │ ", "    ╵ "],
    );
}

#[test]
fn large_two() {
    assert_eq!(
        large_segments_from_digit(2),
        vec!["╶────┐", "     │", "┌────┘", "│     ", "└────╴"],
    );
}

#[test]
fn large_three() {
    assert_eq!(
        large_segments_from_digit(3),
        vec!["╶────┐", "     │", " ────┤", "     │", "╶────┘"],
    );
}

#[test]
fn large_four() {
    assert_eq!(
        large_segments_from_digit(4),
        vec!["╷    ╷", "│    │", "└────┤", "     │", "     ╵"],
    );
}

#[test]
fn large_five() {
    assert_eq!(
        large_segments_from_digit(5),
        vec!["┌────╴", "│     ", "└────┐", "     │", "╶────┘"],
    );
}

#[test]
fn large_six() {
    assert_eq!(
        large_segments_from_digit(6),
        vec!["┌────╴", "│     ", "├────┐", "│    │", "└────┘"],
    );
}

#[test]
fn large_seven() {
    assert_eq!(
        large_segments_from_digit(7),
        vec!["╶────┐", "     │", "     │", "     │", "     ╵"],
    );
}

#[test]
fn large_eight() {
    assert_eq!(
        large_segments_from_digit(8),
        vec!["┌────┐", "│    │", "├────┤", "│    │", "└────┘"],
    );
}

#[test]
fn large_nine() {
    assert_eq!(
        large_segments_from_digit(9),
        vec!["┌────┐", "│    │", "└────┤", "     │", "╶────┘"],
    );
}

#[test]
fn small_digits_are_their_characters() {
    let expected = ["0", "1", "2", "3", "4", "5", "6", "7", "8", "9"];
    for digit in 0..10u32 {
        assert_eq!(small_segments_from_digit(digit), vec![expected[digit as usize]]);
    }
}

#[test]
fn every_small_glyph_is_one_by_one() {
    for digit in 0..10u32 {
        let glyph = small_segments_from_digit(digit);
        assert_eq!(glyph.len(), 1);
        assert_eq!(columns(&glyph[0]), 1);
    }
}

#[test]
fn every_medium_glyph_is_four_by_three() {
    for digit in 0..10u32 {
        let glyph = medium_segments_from_digit(digit);
        assert_eq!(glyph.len(), 3);
        for row in &glyph {
            assert_eq!(columns(row), 4);
        }
    }
}

#[test]
fn every_large_glyph_is_six_by_five() {
    for digit in 0..10u32 {
        let glyph = large_segments_from_digit(digit);
        assert_eq!(glyph.len(), 5);
        for row in &glyph {
            assert_eq!(columns(row), 6);
        }
    }
}

#[test]
fn glyphs_of_a_size_differ_from_digit_to_digit() {
    for a in 0..10u32 {
        for b in 0..a {
            assert_ne!(small_segments_from_digit(a), small_segments_from_digit(b));
            assert_ne!(medium_segments_from_digit(a), medium_segments_from_digit(b));
            assert_ne!(large_segments_from_digit(a), large_segments_from_digit(b));
        }
    }
}

#[test]
fn lookup_goes_by_the_digit_size_of_the_timer() {
    for digit in 0..10u32 {
        assert_eq!(
            segments_from_digit(digit, &sized(DigitSize::Small)),
            small_segments_from_digit(digit)
        );
        assert_eq!(
            segments_from_digit(digit, &sized(DigitSize::Medium)),
            medium_segments_from_digit(digit)
        );
        assert_eq!(
            segments_from_digit(digit, &sized(DigitSize::Large)),
            large_segments_from_digit(digit)
        );
    }
}

#[test]
fn small_separator() {
    assert_eq!(separator_segments(&sized(DigitSize::Small)), vec![":"]);
}

#[test]
fn medium_separator() {
    assert_eq!(separator_segments(&sized(DigitSize::Medium)), vec![" ", ":", " "]);
}

#[test]
fn large_separator() {
    assert_eq!(
        separator_segments(&sized(DigitSize::Large)),
        vec![" ", "\u{25e6}", " ", "\u{25e6}", " "]
    );
}

#[test]
fn separator_is_as_high_as_the_digits() {
    for size in [DigitSize::Small, DigitSize::Medium, DigitSize::Large] {
        let glyph = separator_segments(&sized(size));
        assert_eq!(glyph.len(), size.height() as usize);
        for row in &glyph {
            assert_eq!(columns(row), 1);
        }
    }
}

#[test]
fn hourglass() {
    assert_eq!(ascii_segments(), vec!["+====+", "|(::)|", "| )( |", "|(..)|", "+====+"]);
}

//! From a timer and the size of the drawing surface to what is drawn: a
//! caption, an hourglass and the counter's cells, each a block of text
//! with a place and a colour.

use vstd::prelude::*;

use crate::app::{App, AppView};
use crate::args::DigitSize;
use crate::clock::{lemma_mmss_below_100_minutes, lemma_mmss_shape, mmss, mmss_from_duration};
use crate::glyphs::{
    ascii_glyph, ascii_segments, char_digit, char_glyph, digit_glyph, has_dimensions,
    lemma_char_digit_of_digit_char, lemma_digit_glyph_dimensions,
    lemma_separator_glyph_dimensions, segments_from_digit, separator_glyph, separator_segments,
};
use crate::layout::{
    clipped, cut_of, in_range, inside, rect_new, spans, split_lengths, Axis, Region,
};

verus! {

/// Columns taken by the hourglass.
pub const ASCII_WIDTH: u16 = 6;

/// Rows of the band that the counter is drawn in.
pub const COUNTER_HEIGHT: u16 = 5;

/// Rows taken by caption, blank row and counter band together.
pub const TOTAL_HEIGHT: u16 = COUNTER_HEIGHT + 2;

/// Longest time, in seconds, that is written with two digits of minutes.
pub const COUNTER_MAX: u64 = 5999;

/// Lines of text to draw in one colour, and where.
#[derive(Debug, PartialEq, Eq)]
pub struct TextBlock {
    pub area: Region,
    pub lines: Vec<String>,
    /// Index of the foreground colour in the palette.
    pub color: u8,
    /// Whether each line is centred in the area, rather than set to its left.
    pub centered: bool,
}

/// A `TextBlock` with its lines as sequences of characters.
pub ghost struct TextBlockView {
    pub area: Region,
    pub lines: Seq<Seq<char>>,
    pub color: u8,
    pub centered: bool,
}

impl View for TextBlock {
    type V = TextBlockView;

    open spec fn view(&self) -> TextBlockView {
        TextBlockView {
            area: self.area,
            lines: self.lines.deep_view(),
            color: self.color,
            centered: self.centered,
        }
    }
}

/// The counter band: the hourglass, where it is shown, and the cells of the
/// counter from left to right, one for each character of the time written as
/// `MM:SS`: the digits of the minutes, the separator, two digits of seconds.
#[derive(Debug, PartialEq, Eq)]
pub struct Counter {
    pub decoration: Option<TextBlock>,
    pub cells: Vec<TextBlock>,
}

/// A `Counter` with its blocks as mathematical values.
pub ghost struct CounterView {
    pub decoration: Option<TextBlockView>,
    pub cells: Seq<TextBlockView>,
}

impl View for Counter {
    type V = CounterView;

    open spec fn view(&self) -> CounterView {
        CounterView {
            decoration: match self.decoration {
                Some(block) => Some(block@),
                None => None,
            },
            cells: Seq::new(self.cells@.len(), |i: int| self.cells@[i]@),
        }
    }
}

/// Everything that is drawn in one frame.
#[derive(Debug, PartialEq, Eq)]
pub struct Scene {
    pub caption: TextBlock,
    pub counter: Counter,
}

/// A `Scene` with its blocks as mathematical values.
pub ghost struct SceneView {
    pub caption: TextBlockView,
    pub counter: CounterView,
}

impl View for Scene {
    type V = SceneView;

    open spec fn view(&self) -> SceneView {
        SceneView { caption: self.caption@, counter: self.counter@ }
    }
}

/// One frame: the surface it was made for, the smallest surface the timer
/// can be drawn on, and the scene. Without a scene the surface is to be
/// cleared and nothing drawn.
#[derive(Debug, PartialEq, Eq)]
pub struct RenderModel {
    pub width: u16,
    pub height: u16,
    pub min_width: usize,
    pub min_height: u16,
    pub scene: Option<Scene>,
}

/// The scene of a frame as a mathematical value, if it has one.
pub open spec fn scene_view(scene: Option<Scene>) -> Option<SceneView> {
    match scene {
        Some(s) => Some(s@),
        None => None,
    }
}

/// The counter of a frame as a mathematical value, if it has one.
pub open spec fn counter_view(counter: Option<Counter>) -> Option<CounterView> {
    match counter {
        Some(c) => Some(c@),
        None => None,
    }
}

/// Columns that the hourglass takes with the gap behind it: none when it is
/// hidden.
pub open spec fn ascii_span(a: AppView) -> nat {
    if a.noascii {
        0
    } else {
        (ASCII_WIDTH + 1) as nat
    }
}

/// Cells of the counter: one for each character of the time written as
/// `MM:SS`, five up to 99:59 and one more for every further digit of minutes.
pub open spec fn cell_count(a: AppView) -> nat {
    mmss(a.time).len()
}

/// Columns asked for cell `i`: one for the separator, which stands third from
/// the end, and the width of a digit for every other.
pub open spec fn cell_width(a: AppView, i: int) -> u16 {
    if i == cell_count(a) - 3 {
        1
    } else {
        a.digit_size.spec_width()
    }
}

/// Columns of the counter: the hourglass and its gap, the digits, and the
/// separator. Up to 99:59 there are four digits.
pub open spec fn counter_width(a: AppView) -> nat {
    (ascii_span(a) + (cell_count(a) - 1) * a.digit_size.spec_width() + 1) as nat
}

/// Columns that a text takes: the number of bytes it has in UTF-8.
pub open spec fn text_width(text: Seq<char>) -> nat {
    vstd::utf8::encode_utf8(text).len()
}

/// The narrowest surface that the timer can be drawn on: as wide as the
/// counter, and as wide as the caption shown now.
pub open spec fn spec_min_width(a: AppView) -> nat {
    if counter_width(a) >= text_width(a.caption()) {
        counter_width(a)
    } else {
        text_width(a.caption())
    }
}

/// The surface is large enough to draw the timer on.
pub open spec fn spec_fits(a: AppView, width: u16, height: u16) -> bool {
    height >= TOTAL_HEIGHT + 1 && width >= spec_min_width(a)
}

/// The heights asked of the four rows that the surface is cut into: a gap
/// that centres the rest, the caption, a blank row, the counter band.
pub open spec fn row_lengths(height: u16) -> Seq<u16> {
    seq![(height / 2 - TOTAL_HEIGHT / 2) as u16, 1, 1, COUNTER_HEIGHT]
}

/// The widths asked of the columns that the counter band is cut into: a gap
/// that centres the rest, the hourglass, a gap, and the cells.
pub open spec fn column_lengths(a: AppView, band_width: u16) -> Seq<u16> {
    seq![
        (band_width / 2 - counter_width(a) / 2) as u16,
        if a.noascii { 0 } else { ASCII_WIDTH },
        if a.noascii { 0 } else { 1 },
    ] + Seq::new(cell_count(a), |i: int| cell_width(a, i))
}

/// The caption in the row it is given: one line, centred, in the text
/// colour.
pub open spec fn caption_block(a: AppView, chunk: Region) -> TextBlockView {
    TextBlockView { area: chunk, lines: seq![a.caption()], color: a.text_color, centered: true }
}

/// The hourglass in the column it is given, in its own colour.
pub open spec fn ascii_block(a: AppView, chunk: Region) -> TextBlockView {
    TextBlockView { area: chunk, lines: ascii_glyph(), color: a.ascii_color, centered: false }
}

/// The colour of the counter's cells: the blink colour while the blink flag
/// is up, the digit colour otherwise.
pub open spec fn cell_color(a: AppView) -> u8 {
    if a.blink {
        a.blink_color
    } else {
        a.digit_color
    }
}

/// Where a glyph of a digit size goes in a column of the counter band:
/// centred between top and bottom of the band, as high as the glyph. There is
/// no such place for a column so far down that its middle row has no number.
pub open spec fn digit_area(chunk: Region, size: DigitSize) -> Option<Region> {
    if chunk.y + COUNTER_HEIGHT / 2 > u16::MAX {
        None
    } else {
        Some(
            clipped(
                chunk.x,
                (chunk.y + COUNTER_HEIGHT / 2 - size.spec_height() / 2) as u16,
                chunk.width,
                size.spec_height(),
            ),
        )
    }
}

/// Cell `i` of the counter in the area it is given: the glyph of character
/// `i` of the time written as `MM:SS`.
pub open spec fn cell_block(a: AppView, area: Region, i: int) -> TextBlockView {
    TextBlockView {
        area,
        lines: char_glyph(a.digit_size, mmss(a.time)[i]),
        color: cell_color(a),
        centered: false,
    }
}

/// Every cell has a place in its column.
pub open spec fn cells_placeable(a: AppView, cols: Seq<Region>) -> bool {
    forall|i: int|
        0 <= i < cell_count(a) ==> (#[trigger] digit_area(cols[i + 3], a.digit_size)) is Some
}

/// The counter that the columns give: nothing if a cell has no place, else
/// the hourglass in the second column, unless hidden, and the cells in the
/// columns from the fourth on.
pub open spec fn counter_from(a: AppView, cols: Seq<Region>) -> Option<CounterView> {
    if cells_placeable(a, cols) {
        Some(
            CounterView {
                decoration: if a.noascii {
                    None
                } else {
                    Some(ascii_block(a, cols[1]))
                },
                cells: Seq::new(
                    cell_count(a),
                    |i: int| cell_block(a, digit_area(cols[i + 3], a.digit_size)->0, i),
                ),
            },
        )
    } else {
        None
    }
}

/// The counter that a band and the columns cut from it give: nothing
/// if the band is too narrow to centre the counter in, else what the columns
/// give.
pub open spec fn counter_in(a: AppView, band: Region, cols: Seq<Region>) -> Option<CounterView> {
    if band.width / 2 < counter_width(a) / 2 {
        None
    } else {
        counter_from(a, cols)
    }
}

/// The scene that four rows and the columns of the fourth give: the caption
/// in the second row, the counter in the fourth.
pub open spec fn scene_in(a: AppView, rows: Seq<Region>, cols: Seq<Region>) -> Option<SceneView> {
    match counter_in(a, rows[3], cols) {
        Some(counter) => Some(SceneView { caption: caption_block(a, rows[1]), counter }),
        None => None,
    }
}

/// A counter shows the timer: the hourglass is there unless hidden, in its
/// colour; there is one cell for each character of `MM:SS`, with the glyph of
/// that character, all in the cell colour.
pub open spec fn counter_shows(counter: CounterView, a: AppView) -> bool {
    &&& counter.decoration is Some <==> !a.noascii
    &&& counter.decoration matches Some(block) ==> {
        &&& block.lines == ascii_glyph()
        &&& block.color == a.ascii_color
        &&& !block.centered
    }
    &&& counter.cells.len() == cell_count(a)
    &&& forall|i: int|
        0 <= i < cell_count(a) ==> {
            &&& (#[trigger] counter.cells[i]).lines == char_glyph(a.digit_size, mmss(a.time)[i])
            &&& counter.cells[i].color == cell_color(a)
            &&& !counter.cells[i].centered
        }
}

/// A scene shows the timer: the caption is the one line due now, centred, in
/// the text colour, and the counter shows the timer.
pub open spec fn scene_shows(scene: SceneView, a: AppView) -> bool {
    &&& scene.caption.lines == seq![a.caption()]
    &&& scene.caption.color == a.text_color
    &&& scene.caption.centered
    &&& counter_shows(scene.counter, a)
}

/// Below one hundred minutes the five cells read, from left to right: tens
/// and units of the minutes, the separator, tens and units of the seconds.
pub proof fn lemma_cells_read_minutes_and_seconds(a: AppView)
    requires
        a.time <= COUNTER_MAX,
    ensures
        ({
            let minutes = a.time / 60;
            let seconds = a.time % 60;
            let size = a.digit_size;
            &&& mmss(a.time).len() == 5
            &&& char_glyph(size, mmss(a.time)[0]) == digit_glyph(size, (minutes / 10) as u32)
            &&& char_glyph(size, mmss(a.time)[1]) == digit_glyph(size, (minutes % 10) as u32)
            &&& char_glyph(size, mmss(a.time)[2]) == separator_glyph(size)
            &&& char_glyph(size, mmss(a.time)[3]) == digit_glyph(size, (seconds / 10) as u32)
            &&& char_glyph(size, mmss(a.time)[4]) == digit_glyph(size, (seconds % 10) as u32)
        }),
{
    let minutes = a.time / 60;
    let seconds = a.time % 60;
    lemma_mmss_below_100_minutes(a.time);
    lemma_char_digit_of_digit_char(minutes / 10);
    lemma_char_digit_of_digit_char(minutes % 10);
    lemma_char_digit_of_digit_char(seconds / 10);
    lemma_char_digit_of_digit_char(seconds % 10);
}

/// Whatever the time, the glyph of every cell is as wide as the column asked
/// for that cell, and as high as the digit size says.
pub proof fn lemma_cell_glyph_fits_its_column(a: AppView, i: int)
    requires
        0 <= i < cell_count(a),
    ensures
        has_dimensions(
            char_glyph(a.digit_size, mmss(a.time)[i]),
            cell_width(a, i) as int,
            a.digit_size.spec_height() as int,
        ),
{
    lemma_mmss_shape(a.time);
    if i == cell_count(a) - 3 {
        lemma_separator_glyph_dimensions(a.digit_size);
    } else {
        lemma_digit_glyph_dimensions(a.digit_size, char_digit(mmss(a.time)[i])->0);
    }
}

/// Whatever the columns, a counter made from them shows the timer.
pub proof fn lemma_counter_from_shows(a: AppView, cols: Seq<Region>)
    requires
        counter_from(a, cols) is Some,
    ensures
        counter_shows(counter_from(a, cols)->0, a),
{
}

/// Whatever the rows and columns, a scene made from them shows the timer.
pub proof fn lemma_scene_in_shows(a: AppView, rows: Seq<Region>, cols: Seq<Region>)
    requires
        scene_in(a, rows, cols) is Some,
    ensures
        scene_shows(scene_in(a, rows, cols)->0, a),
{
    lemma_counter_from_shows(a, cols);
}

/// The time written as `MM:SS`, and how many characters that takes.
fn counter_text(app: &App) -> (r: (String, usize))
    ensures
        r.0@ == mmss(app@.time),
        r.1 == cell_count(app@),
        5 <= r.1 <= 21,
{
    let text = mmss_from_duration(app.time);
    let count = text.as_str().unicode_len();
    proof {
        lemma_mmss_shape(app.time as nat);
    }
    (text, count)
}

/// Columns of the counter.
pub fn counter_columns(app: &App) -> (width: u16)
    ensures
        width == counter_width(app@),
{
    let ascii: u16 = if app.noascii {
        0
    } else {
        ASCII_WIDTH + 1
    };
    let digits = (counter_text(app).1 - 1) as u16;
    let digit = app.digit_size.width();
    assert(digits * digit <= 120) by (nonlinear_arith)
        requires
            digits <= 20,
            digit <= 6,
    ;
    ascii + digits * digit + 1
}

/// The narrowest surface that the timer can be drawn on.
pub fn min_width(app: &App) -> (width: usize)
    ensures
        width == spec_min_width(app@),
{
    let counter = counter_columns(app) as usize;
    let caption = app.caption().as_str().as_bytes().len();
    if counter >= caption {
        counter
    } else {
        caption
    }
}

/// Whether a surface is large enough to draw the timer on.
pub fn fits(app: &App, width: u16, height: u16) -> (ok: bool)
    ensures
        ok == spec_fits(app@, width, height),
{
    height >= TOTAL_HEIGHT + 1 && width as usize >= min_width(app)
}

/// The heights to ask for the rows of a surface, where the surface is high
/// enough to centre them.
pub fn row_constraints(height: u16) -> (lengths: Option<Vec<u16>>)
    ensures
        lengths is Some <==> height / 2 >= TOTAL_HEIGHT / 2,
        lengths matches Some(l) ==> l@ == row_lengths(height),
{
    if height / 2 < TOTAL_HEIGHT / 2 {
        None
    } else {
        let gap: u16 = height / 2 - TOTAL_HEIGHT / 2;
        let lengths = vec![gap, 1, 1, COUNTER_HEIGHT];
        assert(lengths@ =~= row_lengths(height));
        Some(lengths)
    }
}

/// The widths to ask for the columns of the counter band, where the band is
/// wide enough to centre them.
pub fn column_constraints(app: &App, band_width: u16) -> (lengths: Option<Vec<u16>>)
    ensures
        lengths is Some <==> band_width / 2 >= counter_width(app@) / 2,
        lengths matches Some(l) ==> l@ == column_lengths(app@, band_width),
{
    let counter = counter_columns(app);
    if band_width / 2 < counter / 2 {
        return None;
    }
    let digit = app.digit_size.width();
    let count = counter_text(app).1;
    let gap: u16 = band_width / 2 - counter / 2;
    let ascii: u16 = if app.noascii {
        0
    } else {
        ASCII_WIDTH
    };
    let ascii_gap: u16 = if app.noascii {
        0
    } else {
        1
    };
    let mut lengths = vec![gap, ascii, ascii_gap];
    let ghost head = lengths@;
    let mut i: usize = 0;
    while i < count
        invariant
            i <= count,
            count == cell_count(app@),
            5 <= count <= 21,
            digit == app.digit_size.spec_width(),
            head.len() == 3,
            lengths@ == head + Seq::new(i as nat, |j: int| cell_width(app@, j)),
        decreases count - i,
    {
        let width: u16 = if i + 3 == count {
            1
        } else {
            digit
        };
        lengths.push(width);
        i += 1;
        assert(lengths@ =~= head + Seq::new(i as nat, |j: int| cell_width(app@, j)));
    }
    assert(head =~= column_lengths(app@, band_width).subrange(0, 3));
    assert(lengths@ =~= column_lengths(app@, band_width));
    Some(lengths)
}

/// The caption, to be drawn in `chunk`.
pub fn render_text(app: &App, chunk: Region) -> (block: TextBlock)
    ensures
        block@ == caption_block(app@, chunk),
{
    let lines = vec![app.caption().clone()];
    assert(lines.deep_view() =~= seq![app@.caption()]);
    TextBlock { area: chunk, lines, color: app.text_color, centered: true }
}

/// The hourglass, to be drawn in `chunk`.
pub fn render_ascii(app: &App, chunk: Region) -> (block: TextBlock)
    ensures
        block@ == ascii_block(app@, chunk),
{
    TextBlock { area: chunk, lines: ascii_segments(), color: app.ascii_color, centered: false }
}

/// Where a glyph of a digit size goes in a column of the counter band.
pub fn digit_chunk(chunk: Region, size: DigitSize) -> (area: Option<Region>)
    ensures
        area == digit_area(chunk, size),
{
    let height = size.height();
    if chunk.y > u16::MAX - COUNTER_HEIGHT / 2 {
        None
    } else {
        Some(rect_new(chunk.x, chunk.y + COUNTER_HEIGHT / 2 - height / 2, chunk.width, height))
    }
}

/// The glyph for one character of the counter text, at the digit size of
/// `app`.
pub fn char_segments(c: char, app: &App) -> (segments: Vec<String>)
    ensures
        segments.deep_view() == char_glyph(app.digit_size, c),
{
    if '0' <= c && c <= '9' {
        segments_from_digit(c as u32 - '0' as u32, app)
    } else {
        separator_segments(app)
    }
}

/// The counter in the columns that its band was cut into: three columns
/// ahead of the cells, and one for each cell.
pub fn counter_on(app: &App, cols: &Vec<Region>) -> (counter: Option<Counter>)
    requires
        cols@.len() == 3 + cell_count(app@),
    ensures
        counter_view(counter) == counter_from(app@, cols@),
{
    let decoration = if app.noascii {
        None
    } else {
        Some(render_ascii(app, cols[1]))
    };
    let (text, count) = counter_text(app);
    let color = if app.blink {
        app.blink_color
    } else {
        app.digit_color
    };
    let mut cells: Vec<TextBlock> = Vec::new();
    let mut i: usize = 0;
    while i < count
        invariant
            i <= count,
            count == cell_count(app@),
            count <= 21,
            cols@.len() == 3 + count,
            text@ == mmss(app@.time),
            color == cell_color(app@),
            cells@.len() == i,
            forall|j: int|
                0 <= j < i ==> {
                    &&& (#[trigger] digit_area(cols@[j + 3], app.digit_size)) is Some
                    &&& cells@[j]@ == cell_block(
                        app@,
                        digit_area(cols@[j + 3], app.digit_size)->0,
                        j,
                    )
                },
        decreases count - i,
    {
        let segments = char_segments(text.as_str().get_char(i), app);
        let area = match digit_chunk(cols[i + 3], app.digit_size) {
            Some(area) => area,
            None => {
                assert(digit_area(cols@[i + 3], app.digit_size) is None);
                return None;
            },
        };
        cells.push(TextBlock { area, lines: segments, color, centered: false });
        i += 1;
    }
    let counter = Counter { decoration, cells };
    assert(counter@.cells =~= counter_from(app@, cols@)->0.cells);
    Some(counter)
}

/// The counter, to be drawn in `chunk`: the band is cut into columns and the
/// hourglass and the cells are set into them.
///
/// There is a counter unless the band is too narrow to centre it in, or lies
/// so far down that its middle row has no number. How wide each column is and
/// where it begins is for the toolkit to say, so the counter is stated for
/// whichever columns came back; they lie inside the band and are as high as
/// the band, and what the blocks hold does not depend on them.
pub fn render_counter(app: &App, chunk: Region) -> (counter: Option<Counter>)
    requires
        in_range(chunk),
    ensures
        counter is Some <==> chunk.width / 2 >= counter_width(app@) / 2 && chunk.y + COUNTER_HEIGHT
            / 2 <= u16::MAX,
        exists|cols: Seq<Region>|
            {
                &&& cols.len() == 3 + cell_count(app@)
                &&& cut_of(cols, chunk, Axis::Horizontal)
                &&& counter_view(counter) == #[trigger] counter_in(app@, chunk, cols)
            },
        counter matches Some(c) ==> counter_shows(c@, app@),
{
    proof {
        lemma_mmss_shape(app.time as nat);
    }
    let lengths = match column_constraints(app, chunk.width) {
        Some(lengths) => lengths,
        None => {
            let ghost none = Seq::new(3 + cell_count(app@), |i: int| chunk);
            assert(cut_of(none, chunk, Axis::Horizontal));
            assert(counter_in(app@, chunk, none) is None);
            return None;
        },
    };
    let cols = split_lengths(Axis::Horizontal, &lengths, chunk);
    let counter = counter_on(app, &cols);
    proof {
        assert(counter_view(counter) == counter_in(app@, chunk, cols@));
        assert(forall|i: int|
            0 <= i < cell_count(app@) ==> (#[trigger] cols@[i + 3]).y == chunk.y);
        if chunk.y + COUNTER_HEIGHT / 2 <= u16::MAX {
            assert(cells_placeable(app@, cols@));
        } else {
            assert(digit_area(cols@[0int + 3], app.digit_size) is None);
        }
        if counter is Some {
            lemma_counter_from_shows(app@, cols@);
        }
    }
    counter
}

/// One frame of the timer on a surface of `width` by `height` cells.
///
/// On a surface that is too small there is no scene. On any other the
/// surface is cut into rows, the counter band into columns, and caption,
/// hourglass and cells are set into them, so that there is a scene. How high
/// each row and how wide each column is, is for the toolkit to say, so the
/// scene is stated for whichever came back; the rows lie inside the surface
/// and are as wide as it, the columns lie inside the counter band and are as
/// high as it, and what the blocks hold does not depend on them.
///
/// Only on a surface of more than 65533 rows may a scene be missing though
/// the surface is large enough: there the toolkit may hand back a counter
/// band whose middle row has no number.
pub fn ui(app: &App, width: u16, height: u16) -> (model: RenderModel)
    ensures
        model.width == width,
        model.height == height,
        model.min_width == spec_min_width(app@),
        model.min_height == TOTAL_HEIGHT + 1,
        !spec_fits(app@, width, height) ==> model.scene is None,
        height <= u16::MAX - COUNTER_HEIGHT / 2 ==> (model.scene is Some <==> spec_fits(
            app@,
            width,
            height,
        )),
        spec_fits(app@, width, height) ==> exists|rows: Seq<Region>, cols: Seq<Region>|
            {
                &&& rows.len() == 4
                &&& cut_of(rows, Region { x: 0, y: 0, width, height }, Axis::Vertical)
                &&& cols.len() == 3 + cell_count(app@)
                &&& cut_of(cols, rows[3], Axis::Horizontal)
                &&& scene_view(model.scene) == #[trigger] scene_in(app@, rows, cols)
            },
        model.scene matches Some(scene) ==> scene_shows(scene@, app@),
{
    let min_width = min_width(app);
    let min_height = TOTAL_HEIGHT + 1;
    if height < min_height || (width as usize) < min_width {
        return RenderModel { width, height, min_width, min_height, scene: None };
    }
    let lengths = match row_constraints(height) {
        Some(lengths) => lengths,
        None => {
            return RenderModel { width, height, min_width, min_height, scene: None };
        },
    };
    let surface = Region { x: 0, y: 0, width, height };
    let rows = split_lengths(Axis::Vertical, &lengths, surface);
    let caption = render_text(app, rows[1]);
    let band = rows[3];
    assert(inside(band, surface) && spans(band, surface, Axis::Vertical));
    let scene = match render_counter(app, band) {
        Some(counter) => Some(Scene { caption, counter }),
        None => None,
    };
    proof {
        let cols = choose|cols: Seq<Region>|
            {
                &&& cols.len() == 3 + cell_count(app@)
                &&& cut_of(cols, band, Axis::Horizontal)
                &&& counter_view(
                    match scene {
                        Some(s) => Some(s.counter),
                        None => None,
                    },
                ) == #[trigger] counter_in(app@, band, cols)
            };
        assert(scene_view(scene) == scene_in(app@, rows@, cols));
    }
    RenderModel { width, height, min_width, min_height, scene }
}

/// The four rows of a surface when the toolkit grants every wished-for height
/// and lets the last row take what is left.
pub open spec fn granted_rows(width: u16, height: u16) -> Seq<Region> {
    let gap = (height / 2 - TOTAL_HEIGHT / 2) as u16;
    seq![
        Region { x: 0, y: 0, width, height: gap },
        Region { x: 0, y: gap, width, height: 1 },
        Region { x: 0, y: (gap + 1) as u16, width, height: 1 },
        Region { x: 0, y: (gap + 2) as u16, width, height: (height - gap - 2) as u16 },
    ]
}

/// The eight columns of the counter band of a time up to 99:59 when the
/// toolkit grants every wished-for width and lets the last column take what
/// is left.
pub open spec fn granted_columns(a: AppView, band: Region) -> Seq<Region> {
    let wish = column_lengths(a, band.width);
    let x1 = band.x + wish[0];
    let x2 = x1 + wish[1];
    let x3 = x2 + wish[2];
    let x4 = x3 + wish[3];
    let x5 = x4 + wish[4];
    let x6 = x5 + wish[5];
    let x7 = x6 + wish[6];
    seq![
        Region { x: band.x, y: band.y, width: wish[0], height: band.height },
        Region { x: x1 as u16, y: band.y, width: wish[1], height: band.height },
        Region { x: x2 as u16, y: band.y, width: wish[2], height: band.height },
        Region { x: x3 as u16, y: band.y, width: wish[3], height: band.height },
        Region { x: x4 as u16, y: band.y, width: wish[4], height: band.height },
        Region { x: x5 as u16, y: band.y, width: wish[5], height: band.height },
        Region { x: x6 as u16, y: band.y, width: wish[6], height: band.height },
        Region {
            x: x7 as u16,
            y: band.y,
            width: (band.x + band.width - x7) as u16,
            height: band.height,
        },
    ]
}

/// On a surface that is large enough, a toolkit that grants every wish sets a
/// time up to 99:59 like this: the caption lies in the row below the centring
/// gap, the hourglass at the left of the counter, and the five cells side by
/// side in the band two rows further down, each centred between the band's
/// top and bottom, the last one ending at the right edge of the surface.
pub proof fn lemma_scene_on_granted_chunks(a: AppView, width: u16, height: u16)
    requires
        spec_fits(a, width, height),
        a.time <= COUNTER_MAX,
    ensures
        ({
            let rows = granted_rows(width, height);
            let cols = granted_columns(a, rows[3]);
            let gap = height / 2 - TOTAL_HEIGHT / 2;
            let left = width / 2 - counter_width(a) / 2 + ascii_span(a);
            let digit = a.digit_size.spec_width();
            let top = gap + 2 + COUNTER_HEIGHT / 2 - a.digit_size.spec_height() / 2;
            &&& cut_of(rows, Region { x: 0, y: 0, width, height }, Axis::Vertical)
            &&& cut_of(cols, rows[3], Axis::Horizontal)
            &&& scene_in(a, rows, cols) matches Some(scene)
            &&& scene.caption.area == (Region { x: 0, y: gap as u16, width, height: 1 })
            &&& !a.noascii ==> scene.counter.decoration->0.area == (Region {
                x: (left - ASCII_WIDTH - 1) as u16,
                y: (gap + 2) as u16,
                width: ASCII_WIDTH,
                height: (height - gap - 2) as u16,
            })
            &&& scene.counter.cells[0].area == clipped(
                left as u16,
                top as u16,
                digit,
                a.digit_size.spec_height(),
            )
            &&& scene.counter.cells[1].area == clipped(
                (left + digit) as u16,
                top as u16,
                digit,
                a.digit_size.spec_height(),
            )
            &&& scene.counter.cells[2].area == clipped(
                (left + 2 * digit) as u16,
                top as u16,
                1,
                a.digit_size.spec_height(),
            )
            &&& scene.counter.cells[3].area == clipped(
                (left + 2 * digit + 1) as u16,
                top as u16,
                digit,
                a.digit_size.spec_height(),
            )
            &&& scene.counter.cells[4].area == clipped(
                (left + 3 * digit + 1) as u16,
                top as u16,
                (width - (left + 3 * digit + 1)) as u16,
                a.digit_size.spec_height(),
            )
            &&& left + 4 * digit + 1 <= width
            &&& top + a.digit_size.spec_height() <= height
        }),
{
    lemma_mmss_below_100_minutes(a.time);
    let rows = granted_rows(width, height);
    let cols = granted_columns(a, rows[3]);
    let wish = column_lengths(a, width);
    assert(cell_count(a) == 5);
    assert(counter_width(a) == ascii_span(a) + 4 * a.digit_size.spec_width() + 1);
    assert(counter_width(a) <= width);
    assert(rows[3].width == width);
    assert(wish.len() == 8);
    assert(wish[3] == cell_width(a, 0));
    assert(wish[4] == cell_width(a, 1));
    assert(wish[5] == cell_width(a, 2));
    assert(wish[6] == cell_width(a, 3));
    assert(wish[7] == cell_width(a, 4));
    assert(cells_placeable(a, cols));
}

} // verus!

//! Screen layout: the split of the screen into its three bands, and how
//! text is drawn large in the block font, scaled to fill an area.

use vstd::prelude::*;

use ratatui::layout::{Constraint, Direction, Layout};

use crate::color::chars_of;
use crate::font::{
    blank_row, glyph_of, lemma_glyphs_are_blocks, LargeFont, GLYPH_HEIGHT, GLYPH_WIDTH,
};

verus! {

/// A rectangle of terminal cells.
#[derive(Clone, Copy, Debug, PartialEq, Eq, Structural)]
pub struct Rect {
    pub x: u16,
    pub y: u16,
    pub width: u16,
    pub height: u16,
}

/// The percentages of the screen's three bands: the main display, the line
/// beneath it, the key help.
pub open spec fn main_layout_percents() -> Seq<u16> {
    seq![70, 20, 10]
}

/// The bands into which ratatui's layout solver splits `area` from top to
/// bottom at 70%, 20% and 10% of its height.
pub uninterp spec fn main_layout_bands(area: Rect) -> Seq<Rect>;

/// Whether `bands` stack from the top of `area` without gaps and fill its
/// height, each at its left edge and as wide as it.
pub open spec fn stacked_in(bands: Seq<Rect>, area: Rect) -> bool {
    &&& forall|i: int|
        0 <= i < bands.len() ==> #[trigger] bands[i].x == area.x && bands[i].width == area.width
    &&& area.y + area.height <= u16::MAX ==> {
        &&& bands.len() > 0 ==> bands[0].y == area.y
        &&& forall|i: int|
            0 <= i < bands.len() - 1 ==> #[trigger] bands[i + 1].y == bands[i].y + bands[i].height
        &&& bands.len() > 0 ==> bands.last().y + bands.last().height == area.y + area.height
    }
}

/// Whether a band of height `h` is within one cell of `percent`% of
/// `total`.
pub open spec fn near_share(h: int, total: int, percent: int) -> bool {
    -100 <= 100 * h - percent * total <= 100
}

/// Whether each band's height is within one cell of its percentage of the
/// area's height, where the area's bottom lies within the 16-bit range.
pub open spec fn near_percents(bands: Seq<Rect>, area: Rect, percents: Seq<u16>) -> bool {
    area.y + area.height <= u16::MAX ==> forall|i: int|
        0 <= i < bands.len() && i < percents.len() ==> near_share(
            #[trigger] bands[i].height as int,
            area.height as int,
            percents[i] as int,
        )
}

/// Splits `area` from top to bottom into three bands of 70%, 20% and 10%
/// of its height.
///
/// Calls `ratatui::layout::Layout::split` with the vertical direction, no
/// margin and one `Constraint::Percentage` per entry. On these percentages
/// the solver's optimum is unique, so the result is named as a function of
/// the area. What the source shows of its shape is stated: one band per
/// percentage, each at the area's left edge and as wide as it; the first
/// band starts at the top of the area (its first spacer is empty), the
/// spacers between bands are empty, and the bands fill the height (the
/// percentages take it all), where the area's bottom lies within the
/// 16-bit range. Each band's height is within one cell of its share: the
/// percentage constraints are strong, the spacers between bands are
/// required to be empty, and the constraints that would pull the other
/// way (the last spacer's growth, equal segments) are weaker, so the
/// solver meets the percentages and only the rounding of each boundary to
/// a whole cell remains. Which way a boundary is rounded is left unsaid.
#[verifier::external_body]
fn split_vertical_percent(area: Rect, percents: &Vec<u16>) -> (bands: Vec<Rect>)
    requires
        percents@ == main_layout_percents(),
    ensures
        bands@ == main_layout_bands(area),
        bands@.len() == percents@.len(),
        stacked_in(bands@, area),
        near_percents(bands@, area, percents@),
{
    let constraints: Vec<Constraint> = percents.iter().map(|p| Constraint::Percentage(*p)).collect();
    let whole = ratatui::layout::Rect { x: area.x, y: area.y, width: area.width, height: area.height };
    let split = Layout::default().direction(Direction::Vertical).constraints(constraints).split(whole);
    split.iter().map(|r| Rect { x: r.x, y: r.y, width: r.width, height: r.height }).collect()
}

/// Splits the screen into its three bands, from top to bottom: 70% of the
/// height for the main display, 20% for the line beneath it, 10% for the
/// key help. The bands are as wide as the screen, stacked without gaps
/// from its top, and fill its height; each is within one cell of its share.
pub fn create_main_layout(area: Rect) -> (bands: Vec<Rect>)
    ensures
        bands@ == main_layout_bands(area),
        bands@.len() == 3,
        stacked_in(bands@, area),
        near_percents(bands@, area, main_layout_percents()),
{
    let mut percents: Vec<u16> = Vec::new();
    percents.push(70);
    percents.push(20);
    percents.push(10);
    assert(percents@ =~= main_layout_percents());
    split_vertical_percent(area, &percents)
}

/// Appends one character to a string.
///
/// Calls `String::push`, which appends the character; the contract says
/// just that of the string's characters.
#[verifier::external_body]
pub(crate) fn push_char(s: &mut String, c: char)
    ensures
        final(s)@ == old(s)@.push(c),
{
    s.push(c);
}

/// The cells that a character shows in one row of the font: that row of
/// its glyph, or blanks where it has none.
pub open spec fn cell(row: int, c: char) -> Seq<char> {
    match glyph_of(c) {
        Some(g) => g[row],
        None => blank_row(),
    }
}

/// One row of a text in the font: the cells of each character, one blank
/// cell between neighbours.
pub open spec fn row_line(row: int, cs: Seq<char>) -> Seq<char>
    decreases cs.len(),
{
    if cs.len() == 0 {
        Seq::empty()
    } else if cs.len() == 1 {
        cell(row, cs[0])
    } else {
        row_line(row, cs.drop_last()) + seq![' '] + cell(row, cs.last())
    }
}

/// Whether `row` can be read for every character of `cs`: it is a row of
/// the font, or no character of `cs` has a glyph.
pub open spec fn row_readable(row: int, cs: Seq<char>) -> bool {
    ||| 0 <= row < GLYPH_HEIGHT
    ||| forall|i: int| 0 <= i < cs.len() ==> #[trigger] glyph_of(cs[i]) is None
}

/// One row of a text in the font: the cells of each character, one blank
/// cell between neighbours.
pub fn get_row_string(row: usize, text_chars: &[char], font: &LargeFont) -> (line: String)
    requires
        row_readable(row as int, text_chars@),
    ensures
        line@ == row_line(row as int, text_chars@),
{
    let mut line = String::new();
    let n = text_chars.len();
    let mut i: usize = 0;
    while i < n
        invariant
            n == text_chars@.len(),
            i <= n,
            row_readable(row as int, text_chars@),
            line@ == row_line(row as int, text_chars@.take(i as int)),
        decreases n - i,
    {
        let c = text_chars[i];
        if i > 0 {
            push_char(&mut line, ' ');
        }
        match font.get_glyph(c) {
            Some(glyph) => {
                proof {
                    lemma_glyphs_are_blocks(c);
                    assert(glyph_of(text_chars@[i as int]) is Some);
                }
                line.append(glyph[row].as_str());
            },
            None => {
                line.append("     ");
            },
        }
        proof {
            let prev = text_chars@.take(i as int);
            let next = text_chars@.take(i + 1);
            assert(next.drop_last() =~= prev);
            assert(next.last() == c);
            reveal_strlit("     ");
            assert("     "@ =~= blank_row());
        }
        i = i + 1;
    }
    assert(text_chars@.take(n as int) =~= text_chars@);
    line
}

/// The width of a text of `n` characters at the font's own size: the
/// glyphs, one blank column between neighbours.
pub open spec fn text_width(n: int) -> int {
    n * GLYPH_WIDTH + (n - 1)
}

/// How many times the font is scaled to fill `area` with a text of `n`
/// characters: the largest factor at which it fits both ways, but at
/// least one.
pub open spec fn large_scale(area: Rect, n: int) -> int {
    let by_width = (area.width as int) / text_width(n);
    let by_height = (area.height as int) / (GLYPH_HEIGHT as int);
    let m = if by_width < by_height {
        by_width
    } else {
        by_height
    };
    if m < 1 {
        1
    } else {
        m
    }
}

/// Whether a text of `n` characters fits in `area` in the font at
/// [`large_scale`]; where it does not, it is drawn as plain text.
pub open spec fn fits_large(area: Rect, n: int) -> bool {
    &&& text_width(n) * large_scale(area, n) <= area.width
    &&& GLYPH_HEIGHT * large_scale(area, n) <= area.height
}

/// The left column of the text drawn large: centered in `area`.
pub open spec fn large_left(area: Rect, n: int) -> int {
    area.x + (area.width - text_width(n) * large_scale(area, n)) / 2
}

/// The top line of the text drawn large: centered in `area`.
pub open spec fn large_top(area: Rect, n: int) -> int {
    area.y + (area.height - GLYPH_HEIGHT * large_scale(area, n)) / 2
}

/// Whether the lines of a text of `n` characters drawn large in `area`
/// have screen coordinates, which are 16-bit.
pub open spec fn large_lines_addressable(area: Rect, n: int) -> bool {
    fits_large(area, n) ==> {
        &&& large_left(area, n) <= u16::MAX
        &&& large_top(area, n) + GLYPH_HEIGHT * large_scale(area, n) - 1 <= u16::MAX
    }
}

/// Each character of `s` repeated `k` times in place.
pub open spec fn stretch(s: Seq<char>, k: nat) -> Seq<char>
    decreases s.len(),
{
    if s.len() == 0 {
        Seq::empty()
    } else {
        stretch(s.drop_last(), k) + Seq::new(k, |j: int| s.last())
    }
}

/// One line of screen text: where it stands and what it shows.
#[derive(Clone, Debug, PartialEq, Eq)]
pub struct TextLine {
    pub area: Rect,
    pub text: String,
}

/// How a text is drawn in an area.
#[derive(Clone, Debug, PartialEq, Eq)]
pub enum LargeTextPlan {
    /// As plain text, centered in the area: the font does not fit.
    Plain,
    /// In the font, line by line from the top.
    Lines(Vec<TextLine>),
}

/// Whether `line` is the `i`-th line, from the top, of the text `cs`
/// drawn large in `area`: a one-cell-high line, centered, holding row
/// `i / scale` of the text in the font with each cell repeated `scale`
/// times.
pub open spec fn is_large_line(area: Rect, cs: Seq<char>, i: int, line: TextLine) -> bool {
    let n = cs.len() as int;
    let scale = large_scale(area, n);
    &&& line.area == Rect {
        x: large_left(area, n) as u16,
        y: (large_top(area, n) + i) as u16,
        width: (text_width(n) * scale) as u16,
        height: 1,
    }
    &&& line.text@ == stretch(row_line(i / scale, cs), scale as nat)
}

/// Repeats each character of `row` `k` times in place.
fn stretch_row(row: &Vec<char>, k: usize) -> (s: String)
    ensures
        s@ == stretch(row@, k as nat),
{
    let mut s = String::new();
    let mut i: usize = 0;
    while i < row.len()
        invariant
            i <= row.len(),
            s@ == stretch(row@.take(i as int), k as nat),
        decreases row.len() - i,
    {
        let c = row[i];
        let ghost before = s@;
        let mut j: usize = 0;
        while j < k
            invariant
                j <= k,
                s@ == before + Seq::new(j as nat, |m: int| c),
            decreases k - j,
        {
            push_char(&mut s, c);
            j = j + 1;
            assert(s@ =~= before + Seq::new(j as nat, |m: int| c));
        }
        proof {
            let next = row@.take(i + 1);
            assert(next.drop_last() =~= row@.take(i as int));
            assert(next.last() == c);
            assert(s@ =~= stretch(next, k as nat));
        }
        i = i + 1;
    }
    assert(row@.take(row.len() as int) =~= row@);
    s
}

proof fn lemma_line_row(b: int, s: int, k: int)
    requires
        0 <= b,
        0 <= s < k,
    ensures
        (b * k + s) / k == b,
{
    vstd::arithmetic::div_mod::lemma_fundamental_div_mod_converse(b * k + s, k, b, s);
}

/// The scale at which a text of `n` characters is drawn large in `area`,
/// with its width and height at that scale, where it fits; `None` where it
/// is drawn as plain text.
fn large_fit(area: Rect, n: usize) -> (r: Option<(usize, usize, usize)>)
    requires
        n >= 1,
        text_width(n as int) <= usize::MAX,
    ensures
        r is Some <==> fits_large(area, n as int),
        r matches Some((scale, w, h)) ==> {
            &&& scale == large_scale(area, n as int)
            &&& w == text_width(n as int) * scale
            &&& h == GLYPH_HEIGHT * scale
            &&& w <= area.width
            &&& h <= area.height
            &&& scale >= 1
        },
{
    let total_w = n * GLYPH_WIDTH + (n - 1);
    let total_h = GLYPH_HEIGHT;
    let scale_w = (area.width as usize) / total_w;
    let scale_h = (area.height as usize) / total_h;
    let smaller = if scale_w < scale_h {
        scale_w
    } else {
        scale_h
    };
    let scale = if smaller < 1 {
        1
    } else {
        smaller
    };
    if scale > 1 {
        assert(total_w * scale <= area.width) by (nonlinear_arith)
            requires
                scale <= scale_w,
                scale_w == (area.width as usize) / total_w,
                total_w > 0,
        ;
        assert(total_h * scale <= area.height) by (nonlinear_arith)
            requires
                scale <= scale_h,
                scale_h == (area.height as usize) / total_h,
                total_h > 0,
        ;
    } else {
        assert(total_w * scale == total_w && total_h * scale == total_h) by (nonlinear_arith)
            requires
                scale == 1,
        ;
    }
    let scaled_w = total_w * scale;
    let scaled_h = total_h * scale;
    if scaled_w > area.width as usize || scaled_h > area.height as usize {
        None
    } else {
        Some((scale, scaled_w, scaled_h))
    }
}

/// Whether `text` can be planned large in `area` (see
/// [`plan_large_text`]): it has a character, its width at the font's own
/// size is a machine size, and its lines, where it is drawn large, have
/// screen coordinates.
pub fn large_text_plannable(area: Rect, text: &str) -> (b: bool)
    ensures
        b == (text@.len() >= 1 && text_width(text@.len() as int) <= usize::MAX
            && large_lines_addressable(area, text@.len() as int)),
{
    let n = chars_of(text).len();
    if n == 0 {
        return false;
    }
    let total_w = match n.checked_mul(GLYPH_WIDTH) {
        Some(w) => w.checked_add(n - 1),
        None => None,
    };
    if total_w.is_none() {
        return false;
    }
    match large_fit(area, n) {
        None => true,
        Some((_scale, scaled_w, scaled_h)) => {
            let x_offset = (area.width as usize - scaled_w) / 2;
            let offset_y = (area.height as usize - scaled_h) / 2;
            area.x as usize + x_offset <= u16::MAX as usize && area.y as usize + offset_y + scaled_h
                - 1 <= u16::MAX as usize
        },
    }
}

/// How `text` is drawn large in `area`: in the font scaled up as far as it
/// fits both ways, centered, line by line; as plain text where even the
/// font's own size does not fit.
pub fn plan_large_text(area: Rect, text: &str, font: &LargeFont) -> (plan: LargeTextPlan)
    requires
        text@.len() >= 1,
        text_width(text@.len() as int) <= usize::MAX,
        large_lines_addressable(area, text@.len() as int),
    ensures
        !fits_large(area, text@.len() as int) ==> plan is Plain,
        fits_large(area, text@.len() as int) ==> (plan matches LargeTextPlan::Lines(lines) && {
            &&& lines@.len() == GLYPH_HEIGHT * large_scale(area, text@.len() as int)
            &&& forall|i: int|
                0 <= i < lines@.len() ==> is_large_line(area, text@, i, #[trigger] lines@[i])
        }),
{
    let base_h = font.glyph_height();
    let text_chars = chars_of(text);
    let n = text_chars.len();
    let ghost sn = text@.len() as int;
    let (scale, scaled_w, scaled_h) = match large_fit(area, n) {
        None => {
            return LargeTextPlan::Plain;
        },
        Some(fit) => fit,
    };
    assert(fits_large(area, sn));
    let offset_y = (area.height as usize - scaled_h) / 2;
    let x_offset = (area.width as usize - scaled_w) / 2;
    let mut lines: Vec<TextLine> = Vec::new();
    let mut base_row: usize = 0;
    while base_row < base_h
        invariant
            base_h == GLYPH_HEIGHT,
            base_row <= base_h,
            text_chars@ == text@,
            sn == text@.len(),
            scale == large_scale(area, sn),
            scaled_w == text_width(sn) * scale,
            scaled_h == GLYPH_HEIGHT * scale,
            scaled_w <= area.width,
            scaled_h <= area.height,
            area.x + x_offset == large_left(area, sn),
            area.y + offset_y == large_top(area, sn),
            large_lines_addressable(area, sn),
            fits_large(area, sn),
            scale >= 1,
            lines@.len() == base_row * scale,
            forall|i: int|
                0 <= i < lines@.len() ==> is_large_line(area, text@, i, #[trigger] lines@[i]),
        decreases base_h - base_row,
    {
        let row_str = get_row_string(base_row, text_chars.as_slice(), font);
        let row_chars = chars_of(row_str.as_str());
        let mut s_row: usize = 0;
        while s_row < scale
            invariant
                base_h == GLYPH_HEIGHT,
                base_row < base_h,
                s_row <= scale,
                text_chars@ == text@,
                sn == text@.len(),
                scale == large_scale(area, sn),
                scaled_w == text_width(sn) * scale,
                scaled_h == GLYPH_HEIGHT * scale,
                scaled_w <= area.width,
                scaled_h <= area.height,
                area.x + x_offset == large_left(area, sn),
                area.y + offset_y == large_top(area, sn),
                large_lines_addressable(area, sn),
                fits_large(area, sn),
                scale >= 1,
                row_chars@ == row_line(base_row as int, text@),
                lines@.len() == base_row * scale + s_row,
                forall|i: int|
                    0 <= i < lines@.len() ==> is_large_line(area, text@, i, #[trigger] lines@[i]),
            decreases scale - s_row,
        {
            assert(base_row * scale + s_row < scaled_h) by (nonlinear_arith)
                requires
                    base_row < 5,
                    s_row < scale,
                    scaled_h == 5 * scale,
            ;
            let idx = base_row * scale + s_row;
            let y_pos = area.y + (offset_y + idx) as u16;
            let scaled_row = stretch_row(&row_chars, scale);
            let line_area = Rect {
                x: area.x + (x_offset as u16),
                y: y_pos,
                width: scaled_w as u16,
                height: 1,
            };
            let ghost before = lines@;
            lines.push(TextLine { area: line_area, text: scaled_row });
            proof {
                lemma_line_row(base_row as int, s_row as int, scale as int);
                assert(is_large_line(area, text@, idx as int, lines@[idx as int]));
                assert forall|i: int| 0 <= i < lines@.len() implies is_large_line(
                    area,
                    text@,
                    i,
                    #[trigger] lines@[i],
                ) by {
                    if i < idx {
                        assert(lines@[i] == before[i]);
                    }
                }
            }
            s_row = s_row + 1;
        }
        assert((base_row + 1) * scale == base_row * scale + scale) by (nonlinear_arith);
        base_row = base_row + 1;
    }
    LargeTextPlan::Lines(lines)
}

} // verus!

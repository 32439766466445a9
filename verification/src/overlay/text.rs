use crate::config::types::TextFontFamily;
use crate::geometry::{spec_clamp, spec_max};
use crate::overlay::pixels::{blue_channel, blue_of, green_channel, green_of, pack_rgb, red_channel, red_of, rgb_spec};
use crate::overlay::types::{
    fits_i32, in_range, CursorPoint, NormalizedRect, ShapeStyle, TextMetrics, WrappedTextLayout,
    COORD_LIMIT, MAX_NUMBER_SIZE, MAX_TEXT_SIZE, MIN_NUMBER_SIZE, MIN_TEXT_SIZE,
    TEXT_BOX_PADDING_X, TEXT_BOX_PADDING_Y, TEXT_LAYOUT_BOTTOM_PADDING,
};
use crate::text::{chars_of, string_from_chars};
use vstd::prelude::*;

verus! {

/// The longest text, in characters, that the layout functions take; below it
/// every width and height they compute fits in an `i32`.
pub const TEXT_CHAR_LIMIT: usize = 0x0100_0000;

/// The text area inside a text box, at least one pixel each way.
pub open spec fn text_content_rect_spec(b: NormalizedRect) -> NormalizedRect {
    NormalizedRect {
        left: (b.left + TEXT_BOX_PADDING_X) as i32,
        top: (b.top + TEXT_BOX_PADDING_Y) as i32,
        right: spec_max(b.right - TEXT_BOX_PADDING_X, b.left + TEXT_BOX_PADDING_X + 1) as i32,
        bottom: spec_max(b.bottom - TEXT_BOX_PADDING_Y, b.top + TEXT_BOX_PADDING_Y + 1) as i32,
    }
}

pub fn text_content_rect(box_rect: NormalizedRect) -> (r: NormalizedRect)
    requires
        box_rect.text_ok(),
    ensures
        r == text_content_rect_spec(box_rect),
        r.left < r.right,
        r.top < r.bottom,
        r.sized(),
{
    let right_min = box_rect.left + TEXT_BOX_PADDING_X + 1;
    let bottom_min = box_rect.top + TEXT_BOX_PADDING_Y + 1;
    let right = box_rect.right - TEXT_BOX_PADDING_X;
    let bottom = box_rect.bottom - TEXT_BOX_PADDING_Y;
    NormalizedRect {
        left: box_rect.left + TEXT_BOX_PADDING_X,
        top: box_rect.top + TEXT_BOX_PADDING_Y,
        right: if right >= right_min { right } else { right_min },
        bottom: if bottom >= bottom_min { bottom } else { bottom_min },
    }
}

/// Text size in pixels: the style's size clamped into the supported range.
pub open spec fn font_height_spec(style: ShapeStyle) -> int {
    spec_clamp(style.stroke as int, MIN_TEXT_SIZE as int, MAX_TEXT_SIZE as int)
}

/// The gap between lines: a fifth of the text size, at least four pixels.
pub open spec fn line_gap_spec(style: ShapeStyle) -> int {
    spec_max(font_height_spec(style) / 5, 4)
}

pub fn text_font_height(style: ShapeStyle) -> (r: i32)
    ensures
        r == font_height_spec(style),
        MIN_TEXT_SIZE <= r <= MAX_TEXT_SIZE,
{
    if style.stroke < MIN_TEXT_SIZE {
        MIN_TEXT_SIZE as i32
    } else if style.stroke > MAX_TEXT_SIZE {
        MAX_TEXT_SIZE as i32
    } else {
        style.stroke as i32
    }
}

pub fn text_line_gap(style: ShapeStyle) -> (r: i32)
    ensures
        r == line_gap_spec(style),
        4 <= r <= 10,
{
    let h = text_font_height(style) / 5;
    if h >= 4 { h } else { 4 }
}

/// The estimated width factor of a style, in ten-thousandths: italic text is
/// six percent wider, bold text eight percent, both compound.
pub open spec fn width_scale_spec(bold: bool, italic: bool) -> int {
    if italic && bold {
        11448
    } else if italic {
        10600
    } else if bold {
        10800
    } else {
        10000
    }
}

/// The estimated width of a line of `chars` characters: half the text size
/// per character, scaled by the style and rounded to the nearest pixel.
pub open spec fn estimated_width_spec(chars: int, style: ShapeStyle, bold: bool, italic: bool) -> int {
    let raw = chars * spec_max(font_height_spec(style) / 2, 1);
    (raw * width_scale_spec(bold, italic) + 5000) / 10000
}

pub fn estimated_line_width(chars: usize, style: ShapeStyle, bold: bool, italic: bool) -> (r: i32)
    requires
        chars <= TEXT_CHAR_LIMIT,
    ensures
        r == estimated_width_spec(chars as int, style, bold, italic),
        0 <= r <= 0x2000_0000,
{
    let half = text_font_height(style) / 2;
    let unit: i64 = if half >= 1 { half as i64 } else { 1 };
    let scale: i64 = if italic && bold {
        11448
    } else if italic {
        10600
    } else if bold {
        10800
    } else {
        10000
    };
    let c = chars as i64;
    assert(0 <= c * unit <= 0x0100_0000 * 27) by (nonlinear_arith)
        requires
            0 <= c <= 0x0100_0000,
            1 <= unit <= 27,
    ;
    let raw = c * unit;
    assert(0 <= raw * scale <= 0x0100_0000 * 27 * 11448) by (nonlinear_arith)
        requires
            0 <= raw <= 0x0100_0000 * 27,
            10000 <= scale <= 11448,
    ;
    let r = (raw * scale + 5000) / 10000;
    assert(r <= 0x2000_0000) by (nonlinear_arith)
        requires
            r == (raw * scale + 5000) / 10000,
            0 <= raw * scale <= 0x0100_0000 * 27 * 11448,
    ;
    r as i32
}

/// The number of characters on each line of `s`, lines split at `'\n'`; an
/// empty text is one empty line.
pub open spec fn line_lengths(s: Seq<char>) -> Seq<int>
    decreases s.len(),
{
    if s.len() == 0 {
        seq![0int]
    } else {
        let init = line_lengths(s.drop_last());
        if s.last() == '\n' {
            init.push(0)
        } else {
            init.update(init.len() - 1, init.last() + 1)
        }
    }
}

proof fn lemma_line_lengths_bounds(s: Seq<char>)
    ensures
        1 <= line_lengths(s).len() <= s.len() + 1,
        forall|i: int| 0 <= i < line_lengths(s).len() ==> 0 <= #[trigger] line_lengths(s)[i] <= s.len(),
    decreases s.len(),
{
    if s.len() > 0 {
        lemma_line_lengths_bounds(s.drop_last());
    }
}

/// The character count of every line of `text`.
pub fn line_char_counts(text: &str) -> (r: Vec<usize>)
    ensures
        r@.len() == line_lengths(text@).len(),
        forall|i: int| 0 <= i < r@.len() ==> r@[i] == #[trigger] line_lengths(text@)[i],
{
    let chars = chars_of(text);
    let mut counts: Vec<usize> = Vec::new();
    counts.push(0);
    let mut i: usize = 0;
    while i < chars.len()
        invariant
            chars@ == text@,
            i <= chars@.len(),
            counts@.len() == line_lengths(chars@.take(i as int)).len(),
            forall|k: int| 0 <= k < counts@.len() ==> counts@[k] == #[trigger] line_lengths(chars@.take(i as int))[k],
        decreases chars@.len() - i,
    {
        let ghost prev = chars@.take(i as int);
        proof {
            assert(chars@.take(i + 1).drop_last() =~= prev);
            lemma_line_lengths_bounds(prev);
        }
        if chars[i] == '\n' {
            counts.push(0);
        } else {
            let last = counts.len() - 1;
            let v = counts[last];
            assert(v == line_lengths(prev)[last as int]);
            counts.set(last, v + 1);
        }
        i = i + 1;
    }
    proof {
        assert(chars@.take(chars@.len() as int) =~= chars@);
    }
    counts
}

/// The largest of the estimated line widths, or zero for no lines.
pub open spec fn max_estimated_width(lens: Seq<int>, style: ShapeStyle, bold: bool, italic: bool) -> int
    decreases lens.len(),
{
    if lens.len() == 0 {
        0
    } else {
        spec_max(max_estimated_width(lens.drop_last(), style, bold, italic),
            estimated_width_spec(lens.last(), style, bold, italic))
    }
}

/// The height of `line_count` lines with the style's gaps and the bottom padding.
pub open spec fn total_height_spec(line_count: int, style: ShapeStyle) -> int {
    spec_max(line_count * font_height_spec(style) + spec_max(line_count - 1, 0) * line_gap_spec(style)
        + TEXT_LAYOUT_BOTTOM_PADDING, 1)
}

/// The estimated size of `text` when no font measurement is at hand.
pub open spec fn fallback_metrics_spec(text: Seq<char>, style: ShapeStyle, bold: bool, italic: bool) -> TextMetrics {
    let lens = line_lengths(text);
    TextMetrics {
        max_width: spec_max(max_estimated_width(lens, style, bold, italic), 1) as i32,
        total_height: total_height_spec(lens.len() as int, style) as i32,
        line_height: font_height_spec(style) as i32,
        line_gap: line_gap_spec(style) as i32,
        last_line_width: estimated_width_spec(lens.last(), style, bold, italic) as i32,
        line_count: lens.len() as i32,
    }
}

fn total_height(line_count: usize, style: ShapeStyle) -> (r: i32)
    requires
        1 <= line_count <= TEXT_CHAR_LIMIT + 1,
    ensures
        r == total_height_spec(line_count as int, style),
        1 <= r <= 0x4100_0000,
{
    let lh = text_font_height(style) as i64;
    let gap = text_line_gap(style) as i64;
    let n = line_count as i64;
    assert(0 <= n * lh <= (0x0100_0000 + 1) * 54) by (nonlinear_arith)
        requires
            1 <= n <= 0x0100_0000 + 1,
            14 <= lh <= 54,
    ;
    assert(0 <= (n - 1) * gap <= 0x0100_0000 * 10) by (nonlinear_arith)
        requires
            1 <= n <= 0x0100_0000 + 1,
            4 <= gap <= 10,
    ;
    let t = n * lh + (n - 1) * gap + TEXT_LAYOUT_BOTTOM_PADDING as i64;
    (if t >= 1 { t } else { 1 }) as i32
}

pub fn fallback_text_metrics_styled(
    text: &str,
    style: ShapeStyle,
    bold: bool,
    italic: bool,
    font_family: TextFontFamily,
) -> (r: TextMetrics)
    requires
        text@.len() <= TEXT_CHAR_LIMIT,
    ensures
        r == fallback_metrics_spec(text@, style, bold, italic),
        1 <= r.max_width <= 0x2000_0000,
        0 <= r.last_line_width <= 0x2000_0000,
        1 <= r.total_height <= 0x4100_0000,
        1 <= r.line_count <= TEXT_CHAR_LIMIT + 1,
{
    let counts = line_char_counts(text);
    proof {
        lemma_line_lengths_bounds(text@);
    }
    let ghost lens = line_lengths(text@);
    let mut max_width: i32 = 0;
    let mut i: usize = 0;
    while i < counts.len()
        invariant
            counts@.len() == lens.len(),
            forall|k: int| 0 <= k < counts@.len() ==> counts@[k] == #[trigger] lens[k],
            forall|k: int| 0 <= k < lens.len() ==> 0 <= #[trigger] lens[k] <= text@.len(),
            text@.len() <= TEXT_CHAR_LIMIT,
            i <= counts@.len(),
            max_width == max_estimated_width(lens.take(i as int), style, bold, italic),
            0 <= max_width <= 0x2000_0000,
        decreases counts@.len() - i,
    {
        assert(lens.take(i + 1).drop_last() =~= lens.take(i as int));
        assert(lens[i as int] <= text@.len());
        let w = estimated_line_width(counts[i], style, bold, italic);
        if w > max_width {
            max_width = w;
        }
        i = i + 1;
    }
    assert(lens.take(lens.len() as int) =~= lens);
    let last = estimated_line_width(counts[counts.len() - 1], style, bold, italic);
    TextMetrics {
        max_width: if max_width >= 1 { max_width } else { 1 },
        total_height: total_height(counts.len(), style),
        line_height: text_font_height(style),
        line_gap: text_line_gap(style),
        last_line_width: last,
        line_count: counts.len() as i32,
    }
}

/// The estimated size of `text` in the default font.
pub fn fallback_text_metrics(text: &str, style: ShapeStyle, bold: bool) -> (r: TextMetrics)
    requires
        text@.len() <= TEXT_CHAR_LIMIT,
    ensures
        r == fallback_metrics_spec(text@, style, bold, false),
        1 <= r.max_width <= 0x2000_0000,
        0 <= r.last_line_width <= 0x2000_0000,
        1 <= r.total_height <= 0x4100_0000,
        1 <= r.line_count <= TEXT_CHAR_LIMIT + 1,
{
    fallback_text_metrics_styled(text, style, bold, false, TextFontFamily::YaHei)
}

/// The box taken by `text` drawn from `anchor`, at least one pixel each way.
pub fn text_bounds(anchor: CursorPoint, text: &str, style: ShapeStyle) -> (r: NormalizedRect)
    requires
        anchor.wf(),
        text@.len() <= TEXT_CHAR_LIMIT,
    ensures
        ({
            let m = fallback_metrics_spec(text@, style, false, false);
            &&& r.left == anchor.x
            &&& r.top == anchor.y
            &&& r.right == anchor.x + spec_max(m.max_width as int, 1)
            &&& r.bottom == anchor.y + spec_max(m.total_height as int, 1)
        }),
{
    let metrics = fallback_text_metrics(text, style, false);
    NormalizedRect {
        left: anchor.x,
        top: anchor.y,
        right: anchor.x + if metrics.max_width >= 1 { metrics.max_width } else { 1 },
        bottom: anchor.y + if metrics.total_height >= 1 { metrics.total_height } else { 1 },
    }
}

/// The width a line of `len` characters is measured at: nothing for an
/// empty line, else its estimated width and at least one pixel.
pub open spec fn line_width_spec(len: int, style: ShapeStyle, bold: bool, italic: bool) -> int {
    if len == 0 {
        0
    } else {
        spec_max(estimated_width_spec(len, style, bold, italic), 1)
    }
}

/// Lines of `s` wrapped to `max_width`, continuing the line `cur`: a line
/// breaks at each `'\n'` and before any character that would make a non-empty
/// line wider than `max_width`.
pub open spec fn wrap_spec(
    s: Seq<char>,
    cur: Seq<char>,
    max_width: int,
    style: ShapeStyle,
    bold: bool,
    italic: bool,
) -> Seq<Seq<char>>
    decreases s.len(),
{
    if s.len() == 0 {
        seq![cur]
    } else if s[0] == '\n' {
        seq![cur] + wrap_spec(s.drop_first(), Seq::empty(), max_width, style, bold, italic)
    } else if cur.len() > 0 && line_width_spec(cur.len() + 1int, style, bold, italic) > max_width {
        seq![cur] + wrap_spec(s.drop_first(), seq![s[0]], max_width, style, bold, italic)
    } else {
        wrap_spec(s.drop_first(), cur.push(s[0]), max_width, style, bold, italic)
    }
}

/// The lines of `text` wrapped to `max_width` (at least one pixel).
pub open spec fn wrapped_lines_spec(text: Seq<char>, max_width: int, style: ShapeStyle, bold: bool, italic: bool) -> Seq<Seq<char>> {
    wrap_spec(text, Seq::empty(), spec_max(max_width, 1), style, bold, italic)
}

/// The characters of `lines`, one line after another.
pub open spec fn joined_chars(lines: Seq<Seq<char>>) -> Seq<char>
    decreases lines.len(),
{
    if lines.len() == 0 {
        Seq::empty()
    } else {
        lines[0] + joined_chars(lines.drop_first())
    }
}

/// `s` without its line breaks.
pub open spec fn without_breaks(s: Seq<char>) -> Seq<char>
    decreases s.len(),
{
    if s.len() == 0 {
        Seq::empty()
    } else if s[0] == '\n' {
        without_breaks(s.drop_first())
    } else {
        seq![s[0]] + without_breaks(s.drop_first())
    }
}

proof fn lemma_joined_cons(line: Seq<char>, rest: Seq<Seq<char>>)
    ensures
        joined_chars(seq![line] + rest) == line + joined_chars(rest),
{
    assert((seq![line] + rest).drop_first() =~= rest);
}

proof fn lemma_wrap_keeps(s: Seq<char>, cur: Seq<char>, max_width: int, style: ShapeStyle, bold: bool, italic: bool)
    ensures
        joined_chars(wrap_spec(s, cur, max_width, style, bold, italic)) == cur + without_breaks(s),
    decreases s.len(),
{
    if s.len() == 0 {
        assert(seq![cur].drop_first() =~= Seq::<Seq<char>>::empty());
        assert(joined_chars(seq![cur]) == cur + joined_chars(Seq::<Seq<char>>::empty()));
        assert(cur + Seq::<char>::empty() =~= cur);
    } else if s[0] == '\n' {
        lemma_wrap_keeps(s.drop_first(), Seq::empty(), max_width, style, bold, italic);
        lemma_joined_cons(cur, wrap_spec(s.drop_first(), Seq::empty(), max_width, style, bold, italic));
        assert(Seq::<char>::empty() + without_breaks(s.drop_first()) =~= without_breaks(s.drop_first()));
    } else if cur.len() > 0 && line_width_spec(cur.len() + 1int, style, bold, italic) > max_width {
        lemma_wrap_keeps(s.drop_first(), seq![s[0]], max_width, style, bold, italic);
        lemma_joined_cons(cur, wrap_spec(s.drop_first(), seq![s[0]], max_width, style, bold, italic));
        assert(cur + (seq![s[0]] + without_breaks(s.drop_first())) =~= cur + without_breaks(s));
    } else {
        lemma_wrap_keeps(s.drop_first(), cur.push(s[0]), max_width, style, bold, italic);
        assert(cur.push(s[0]) + without_breaks(s.drop_first()) =~= cur + without_breaks(s));
    }
}

/// Wrapping loses and adds no character: the wrapped lines, read one
/// after another, are the text without its line breaks.
pub proof fn lemma_wrap_keeps_characters(text: Seq<char>, max_width: int, style: ShapeStyle, bold: bool, italic: bool)
    ensures
        joined_chars(wrapped_lines_spec(text, max_width, style, bold, italic)) == without_breaks(text),
{
    lemma_wrap_keeps(text, Seq::empty(), spec_max(max_width, 1), style, bold, italic);
    assert(Seq::<char>::empty() + without_breaks(text) =~= without_breaks(text));
}


proof fn lemma_wrap_bounds(
    s: Seq<char>,
    cur: Seq<char>,
    max_width: int,
    style: ShapeStyle,
    bold: bool,
    italic: bool,
)
    ensures
        1 <= wrap_spec(s, cur, max_width, style, bold, italic).len() <= s.len() + 1,
        forall|k: int| 0 <= k < wrap_spec(s, cur, max_width, style, bold, italic).len()
            ==> #[trigger] wrap_spec(s, cur, max_width, style, bold, italic)[k].len() <= s.len() + cur.len(),
    decreases s.len(),
{
    if s.len() > 0 {
        if s[0] == '\n' {
            lemma_wrap_bounds(s.drop_first(), Seq::empty(), max_width, style, bold, italic);
        } else if cur.len() > 0 && line_width_spec(cur.len() + 1int, style, bold, italic) > max_width {
            lemma_wrap_bounds(s.drop_first(), seq![s[0]], max_width, style, bold, italic);
        } else {
            lemma_wrap_bounds(s.drop_first(), cur.push(s[0]), max_width, style, bold, italic);
        }
    }
}

/// The widest of the measured line widths, or zero.
pub open spec fn max_line_width(lines: Seq<Seq<char>>, style: ShapeStyle, bold: bool, italic: bool) -> int
    decreases lines.len(),
{
    if lines.len() == 0 {
        0
    } else {
        spec_max(max_line_width(lines.drop_last(), style, bold, italic),
            line_width_spec(lines.last().len() as int, style, bold, italic))
    }
}

/// The size of already wrapped lines.
pub open spec fn lines_metrics_spec(lines: Seq<Seq<char>>, style: ShapeStyle, bold: bool, italic: bool) -> TextMetrics {
    TextMetrics {
        max_width: spec_max(max_line_width(lines, style, bold, italic), 1) as i32,
        total_height: total_height_spec(lines.len() as int, style) as i32,
        line_height: font_height_spec(style) as i32,
        line_gap: line_gap_spec(style) as i32,
        last_line_width: line_width_spec(lines.last().len() as int, style, bold, italic) as i32,
        line_count: lines.len() as i32,
    }
}

/// The width of a line of `len` characters as the layout measures it.
pub fn measured_line_width(len: usize, style: ShapeStyle, bold: bool, italic: bool) -> (r: i32)
    requires
        len <= TEXT_CHAR_LIMIT,
    ensures
        r == line_width_spec(len as int, style, bold, italic),
        0 <= r <= 0x2000_0000,
{
    if len == 0 {
        0
    } else {
        let w = estimated_line_width(len, style, bold, italic);
        if w >= 1 { w } else { 1 }
    }
}

/// `text` broken into lines no wider than `max_width` (at least one pixel),
/// breaking at each `'\n'` and between characters, with the size of the result.
pub fn measure_wrapped_text_styled(
    text: &str,
    style: ShapeStyle,
    max_width: i32,
    bold: bool,
    italic: bool,
    font_family: TextFontFamily,
) -> (r: WrappedTextLayout)
    requires
        text@.len() <= TEXT_CHAR_LIMIT,
    ensures
        r.lines@.len() == wrapped_lines_spec(text@, max_width as int, style, bold, italic).len(),
        forall|k: int| 0 <= k < r.lines@.len()
            ==> #[trigger] r.lines@[k]@ == wrapped_lines_spec(text@, max_width as int, style, bold, italic)[k],
        r.metrics == lines_metrics_spec(wrapped_lines_spec(text@, max_width as int, style, bold, italic), style, bold, italic),
        1 <= r.metrics.max_width <= 0x2000_0000,
        1 <= r.metrics.total_height <= 0x4100_0000,
{
    let limit: i32 = if max_width >= 1 { max_width } else { 1 };
    let chars = chars_of(text);
    let ghost s = chars@;
    let ghost target = wrap_spec(s, Seq::empty(), limit as int, style, bold, italic);
    let mut done: Vec<String> = Vec::new();
    let mut cur: Vec<char> = Vec::new();
    let mut i: usize = 0;
    proof {
        assert(s.skip(0) =~= s);
        lemma_wrap_bounds(s, Seq::empty(), limit as int, style, bold, italic);
    }
    while i < chars.len()
        invariant
            s == chars@,
            s == text@,
            s.len() <= TEXT_CHAR_LIMIT,
            i <= s.len(),
            cur@.len() <= i,
            done@.len() <= i,
            target == wrap_spec(s, Seq::empty(), limit as int, style, bold, italic),
            done@.len() + wrap_spec(s.skip(i as int), cur@, limit as int, style, bold, italic).len() == target.len(),
            forall|k: int| 0 <= k < done@.len() ==> #[trigger] done@[k]@ == target[k],
            forall|k: int| 0 <= k < wrap_spec(s.skip(i as int), cur@, limit as int, style, bold, italic).len()
                ==> #[trigger] wrap_spec(s.skip(i as int), cur@, limit as int, style, bold, italic)[k] == target[done@.len() + k],
        decreases s.len() - i,
    {
        let ghost rest = s.skip(i as int);
        let ghost old_done = done@;
        let ghost old_cur = cur@;
        assert(rest.drop_first() =~= s.skip(i + 1));
        assert(rest[0] == chars@[i as int]);
        let c = chars[i];
        if c == '\n' {
            let line = string_from_chars(cur.as_slice());
            done.push(line);
            cur = Vec::new();
            proof {
                let tail = wrap_spec(s.skip(i + 1), Seq::empty(), limit as int, style, bold, italic);
                assert(wrap_spec(rest, old_cur, limit as int, style, bold, italic) == seq![old_cur] + tail);
                assert forall|k: int| 0 <= k < tail.len() implies #[trigger] tail[k] == target[done@.len() + k] by {
                    assert((seq![old_cur] + tail)[k + 1] == tail[k]);
                }
                assert(done@[old_done.len() as int]@ == target[old_done.len() as int]) by {
                    assert((seq![old_cur] + tail)[0] == old_cur);
                }
            }
        } else if cur.len() > 0 && measured_line_width(cur.len() + 1, style, bold, italic) > limit {
            let line = string_from_chars(cur.as_slice());
            done.push(line);
            cur = Vec::new();
            cur.push(c);
            proof {
                assert(cur@ =~= seq![c]);
                let tail = wrap_spec(s.skip(i + 1), seq![c], limit as int, style, bold, italic);
                assert(wrap_spec(rest, old_cur, limit as int, style, bold, italic) == seq![old_cur] + tail);
                assert forall|k: int| 0 <= k < tail.len() implies #[trigger] tail[k] == target[done@.len() + k] by {
                    assert((seq![old_cur] + tail)[k + 1] == tail[k]);
                }
                assert(done@[old_done.len() as int]@ == target[old_done.len() as int]) by {
                    assert((seq![old_cur] + tail)[0] == old_cur);
                }
            }
        } else {
            cur.push(c);
        }
        i = i + 1;
    }
    proof {
        assert(s.skip(i as int) =~= Seq::<char>::empty());
        let tail = wrap_spec(s.skip(i as int), cur@, limit as int, style, bold, italic);
        assert(tail == seq![cur@]);
        assert(tail[0] == target[done@.len() as int]);
    }
    let line = string_from_chars(cur.as_slice());
    done.push(line);
    proof {
        assert(done@.len() == target.len());
        assert forall|k: int| 0 <= k < done@.len() implies #[trigger] done@[k]@ == target[k] by {}
        assert(done@.map_values(|l: String| l@) =~= target);
        assert(target == wrapped_lines_spec(text@, max_width as int, style, bold, italic));
        assert forall|k: int| 0 <= k < done@.len() implies #[trigger] done@[k]@.len() <= TEXT_CHAR_LIMIT by {
            assert(target[k].len() <= s.len());
        }
    }
    let metrics = lines_metrics(&done, style, bold, italic);
    WrappedTextLayout { lines: done, metrics }
}

/// The size of already wrapped lines, measured line by line.
fn lines_metrics(lines: &Vec<String>, style: ShapeStyle, bold: bool, italic: bool) -> (r: TextMetrics)
    requires
        1 <= lines@.len() <= TEXT_CHAR_LIMIT + 1,
        forall|k: int| 0 <= k < lines@.len() ==> #[trigger] lines@[k]@.len() <= TEXT_CHAR_LIMIT,
    ensures
        r == lines_metrics_spec(lines@.map_values(|l: String| l@), style, bold, italic),
        1 <= r.max_width <= 0x2000_0000,
        1 <= r.total_height <= 0x4100_0000,
{
    let ghost views = lines@.map_values(|l: String| l@);
    let mut max_width: i32 = 0;
    let mut i: usize = 0;
    while i < lines.len()
        invariant
            views == lines@.map_values(|l: String| l@),
            forall|k: int| 0 <= k < lines@.len() ==> #[trigger] lines@[k]@.len() <= TEXT_CHAR_LIMIT,
            i <= lines@.len(),
            max_width == max_line_width(views.take(i as int), style, bold, italic),
            0 <= max_width <= 0x2000_0000,
        decreases lines@.len() - i,
    {
        assert(views.take(i + 1).drop_last() =~= views.take(i as int));
        assert(views[i as int] == lines@[i as int]@);
        let len = lines[i].unicode_len();
        let w = measured_line_width(len, style, bold, italic);
        if w > max_width {
            max_width = w;
        }
        i = i + 1;
    }
    assert(views.take(views.len() as int) =~= views);
    let last_len = lines[lines.len() - 1].unicode_len();
    assert(views.last() == lines@[lines@.len() - 1]@);
    TextMetrics {
        max_width: if max_width >= 1 { max_width } else { 1 },
        total_height: total_height(lines.len(), style),
        line_height: text_font_height(style),
        line_gap: text_line_gap(style),
        last_line_width: measured_line_width(last_len, style, bold, italic),
        line_count: lines.len() as i32,
    }
}

/// The width `text` is measured at when drawn on one line: its widest line,
/// at least one pixel.
pub fn measure_text_width_styled(
    text: &str,
    style: ShapeStyle,
    bold: bool,
    italic: bool,
    font_family: TextFontFamily,
) -> (r: i32)
    requires
        text@.len() <= TEXT_CHAR_LIMIT,
    ensures
        r == spec_max(fallback_metrics_spec(text@, style, bold, italic).max_width as int, 1),
        1 <= r <= 0x2000_0000,
{
    let m = fallback_text_metrics_styled(text, style, bold, italic, font_family);
    if m.max_width >= 1 { m.max_width } else { 1 }
}

/// The box a text annotation takes: its own box, grown downwards to hold the
/// wrapped text with its padding.
pub open spec fn text_box_bounds_spec(b: NormalizedRect, text: Seq<char>, style: ShapeStyle, bold: bool, italic: bool) -> NormalizedRect {
    let content = text_content_rect_spec(b);
    let lines = wrapped_lines_spec(text, content.width_spec(), style, bold, italic);
    let content_height = spec_max(total_height_spec(lines.len() as int, style), 1);
    let target = spec_max(content_height + TEXT_BOX_PADDING_Y * 2, b.height_spec());
    NormalizedRect { left: b.left, top: b.top, right: b.right, bottom: (b.top + target) as i32 }
}

proof fn lemma_total_height_bound(n: int, style: ShapeStyle)
    requires
        1 <= n <= TEXT_CHAR_LIMIT + 1,
    ensures
        1 <= total_height_spec(n, style) <= 0x4100_0000,
{
    let lh = font_height_spec(style);
    let gap = line_gap_spec(style);
    assert(n * lh <= (0x0100_0000 + 1) * 54) by (nonlinear_arith)
        requires 1 <= n <= 0x0100_0000 + 1, 14 <= lh <= 54;
    assert((n - 1) * gap <= 0x0100_0000 * 10) by (nonlinear_arith)
        requires 1 <= n <= 0x0100_0000 + 1, 4 <= gap <= 10;
    assert(n * lh >= 0) by (nonlinear_arith) requires 1 <= n, 14 <= lh;
    assert((n - 1) * gap >= 0) by (nonlinear_arith) requires 1 <= n, 4 <= gap;
}

/// The bounds of a text box keep its left, top and right edges and reach at
/// least as low as the box.
pub proof fn lemma_text_box_bounds(b: NormalizedRect, text: Seq<char>, style: ShapeStyle, bold: bool, italic: bool)
    requires
        b.text_ok(),
        text.len() <= TEXT_CHAR_LIMIT,
    ensures
        ({
            let r = text_box_bounds_spec(b, text, style, bold, italic);
            &&& r.left == b.left
            &&& r.top == b.top
            &&& r.right == b.right
            &&& b.bottom <= r.bottom <= b.top + 0x4200_0000
            &&& r.top < r.bottom
        }),
{
    let content = text_content_rect_spec(b);
    let lines = wrapped_lines_spec(text, content.width_spec(), style, bold, italic);
    lemma_wrap_bounds(text, Seq::empty(), spec_max(content.width_spec(), 1), style, bold, italic);
    lemma_total_height_bound(lines.len() as int, style);
}

pub fn text_box_bounds_styled(
    box_rect: NormalizedRect,
    text: &str,
    style: ShapeStyle,
    bold: bool,
    italic: bool,
    font_family: TextFontFamily,
) -> (r: NormalizedRect)
    requires
        box_rect.text_ok(),
        text@.len() <= TEXT_CHAR_LIMIT,
    ensures
        r == text_box_bounds_spec(box_rect, text@, style, bold, italic),
        r.left == box_rect.left,
        r.top == box_rect.top,
        r.right == box_rect.right,
        box_rect.bottom <= r.bottom <= box_rect.top + 0x4200_0000,
        r.top < r.bottom,
{
    let content = text_content_rect(box_rect);
    let layout = measure_wrapped_text_styled(text, style, content.width(), bold, italic, font_family);
    proof {
        let lines = wrapped_lines_spec(text@, content.width_spec(), style, bold, italic);
        lemma_wrap_bounds(text@, Seq::empty(), spec_max(content.width_spec(), 1), style, bold, italic);
        lemma_total_height_bound(lines.len() as int, style);
    }
    let content_height = if layout.metrics.total_height >= 1 { layout.metrics.total_height } else { 1 };
    let padded = content_height + TEXT_BOX_PADDING_Y * 2;
    let h = box_rect.height();
    let target_height = if padded >= h { padded } else { h };
    NormalizedRect { left: box_rect.left, top: box_rect.top, right: box_rect.right, bottom: box_rect.top + target_height }
}

/// The shift that brings `actual` back inside `bounds` along one axis: to the
/// low edge when it sticks out there, else to the high edge, else none.
pub open spec fn shift_into(lo: int, hi: int, bound_lo: int, bound_hi: int) -> int {
    if lo < bound_lo {
        bound_lo - lo
    } else if hi > bound_hi {
        bound_hi - hi
    } else {
        0
    }
}

/// A text box moved so that its drawn bounds lie inside `bounds` where they fit.
pub open spec fn clamp_text_box_spec(b: NormalizedRect, text: Seq<char>, style: ShapeStyle, bold: bool, italic: bool, bounds: NormalizedRect) -> NormalizedRect {
    let actual = text_box_bounds_spec(b, text, style, bold, italic);
    let dx = shift_into(actual.left as int, actual.right as int, bounds.left as int, bounds.right as int);
    let dy = shift_into(actual.top as int, actual.bottom as int, bounds.top as int, bounds.bottom as int);
    NormalizedRect {
        left: (b.left + dx) as i32,
        top: (b.top + dy) as i32,
        right: (b.right + dx) as i32,
        bottom: (b.bottom + dy) as i32,
    }
}

pub fn clamp_text_box_to_bounds_styled(
    box_rect: NormalizedRect,
    text: &str,
    style: ShapeStyle,
    bold: bool,
    italic: bool,
    font_family: TextFontFamily,
    bounds: NormalizedRect,
) -> (r: NormalizedRect)
    requires
        box_rect.text_ok(),
        bounds.wf(),
        0 <= bounds.left < bounds.right,
        0 <= bounds.top < bounds.bottom,
        text@.len() <= TEXT_CHAR_LIMIT,
    ensures
        r == clamp_text_box_spec(box_rect, text@, style, bold, italic, bounds),
        r.text_ok(),
{
    let actual = text_box_bounds_styled(box_rect, text, style, bold, italic, font_family);
    proof {
        lemma_text_box_bounds(box_rect, text@, style, bold, italic);
    }
    let dx = if actual.left < bounds.left {
        bounds.left - actual.left
    } else if actual.right > bounds.right {
        bounds.right - actual.right
    } else {
        0
    };
    let dy = if actual.top < bounds.top {
        bounds.top - actual.top
    } else if actual.bottom > bounds.bottom {
        bounds.bottom - actual.bottom
    } else {
        0
    };
    NormalizedRect {
        left: box_rect.left + dx,
        top: box_rect.top + dy,
        right: box_rect.right + dx,
        bottom: box_rect.bottom + dy,
    }
}

/// The radius of a number badge: half its size, clamped into range, at least nine.
pub open spec fn badge_radius_spec(style: ShapeStyle) -> int {
    spec_max(spec_clamp(style.stroke as int, MIN_NUMBER_SIZE as int, MAX_NUMBER_SIZE as int) / 2, 9)
}

pub fn number_badge_radius(style: ShapeStyle) -> (r: i32)
    ensures
        r == badge_radius_spec(style),
        9 <= r <= 26,
{
    let size: u32 = if style.stroke < MIN_NUMBER_SIZE {
        MIN_NUMBER_SIZE
    } else if style.stroke > MAX_NUMBER_SIZE {
        MAX_NUMBER_SIZE
    } else {
        style.stroke
    };
    let half = (size / 2) as i32;
    if half >= 9 { half } else { 9 }
}

/// The square a number badge is drawn in, with two pixels to spare.
pub open spec fn badge_bounds_spec(center: CursorPoint, style: ShapeStyle) -> NormalizedRect {
    let radius = badge_radius_spec(style) + 2;
    NormalizedRect {
        left: (center.x - radius) as i32,
        top: (center.y - radius) as i32,
        right: (center.x + radius + 1) as i32,
        bottom: (center.y + radius + 1) as i32,
    }
}

pub fn number_badge_bounds(center: CursorPoint, style: ShapeStyle) -> (r: NormalizedRect)
    requires
        center.wf(),
    ensures
        r == badge_bounds_spec(center, style),
{
    let radius = number_badge_radius(style) + 2;
    NormalizedRect {
        left: center.x - radius,
        top: center.y - radius,
        right: center.x + radius + 1,
        bottom: center.y + radius + 1,
    }
}

/// The number of decimal digits of `v`.
pub open spec fn digit_count_spec(v: nat) -> nat
    decreases v,
{
    if v < 10 { 1 } else { 1 + digit_count_spec(v / 10) }
}

proof fn lemma_digit_count_small(v: nat)
    ensures
        1 <= digit_count_spec(v) <= v + 1,
    decreases v,
{
    if v >= 10 {
        lemma_digit_count_small(v / 10);
    }
}

fn digit_count(value: u32) -> (r: u64)
    ensures
        r == digit_count_spec(value as nat),
{
    let mut v = value;
    let mut n: u64 = 1;
    proof {
        lemma_digit_count_small(value as nat);
    }
    while v >= 10
        invariant
            1 <= n,
            n + digit_count_spec(v as nat) == 1 + digit_count_spec(value as nat),
            digit_count_spec(value as nat) <= value + 1,
            v <= value,
        decreases v,
    {
        proof {
            lemma_digit_count_small(v as nat);
        }
        v = v / 10;
        n = n + 1;
    }
    n
}

/// The font size of the number on a badge: larger for one digit, smaller for three or more.
pub open spec fn badge_font_height_spec(value: u32, style: ShapeStyle) -> int {
    let radius = badge_radius_spec(style);
    let digits = digit_count_spec(value as nat);
    if digits == 1 {
        spec_max(radius + 8, 14)
    } else if digits == 2 {
        spec_max(radius + 3, 13)
    } else {
        spec_max(radius, 12)
    }
}

pub fn number_badge_font_height(value: u32, style: ShapeStyle) -> (r: i32)
    ensures
        r == badge_font_height_spec(value, style),
{
    let digits = digit_count(value);
    let radius = number_badge_radius(style);
    if digits == 1 {
        if radius + 8 >= 14 { radius + 8 } else { 14 }
    } else if digits == 2 {
        if radius + 3 >= 13 { radius + 3 } else { 13 }
    } else {
        if radius >= 12 { radius } else { 12 }
    }
}

/// The ink drawn on a colour: dark on light colours (luma 150 or more), white otherwise.
pub open spec fn contrast_ink_spec(color: u32) -> u32 {
    let luminance = (red_of(color) * 299 + green_of(color) * 587 + blue_of(color) * 114) / 1000;
    if luminance >= 150 { 0x1B2230 } else { 0xFFFFFF }
}

pub fn contrast_ink(color: u32) -> (r: u32)
    ensures
        r == contrast_ink_spec(color),
{
    let red = red_channel(color);
    let green = green_channel(color);
    let blue = blue_channel(color);
    let luminance = (red * 299 + green * 587 + blue * 114) / 1000;
    if luminance >= 150 { 0x1B2230 } else { 0xFFFFFF }
}

/// `channel` mixed towards white: `keep` percent of it, the rest white.
pub open spec fn tint_spec(channel: int, keep: int) -> int {
    (channel * keep + 255 * (100 - keep)) / 100
}

fn tint(channel: u32, keep: u32) -> (r: u8)
    requires
        channel <= 255,
        keep <= 100,
    ensures
        r == tint_spec(channel as int, keep as int),
{
    assert(channel * keep + 255 * (100 - keep) <= 25500) by (nonlinear_arith)
        requires channel <= 255, keep <= 100;
    ((channel * keep + 255 * (100 - keep)) / 100) as u8
}

/// The fill behind highlighted text: its colour, a quarter strength on white.
pub fn text_background_fill(color: u32) -> (r: u32)
    ensures
        r == rgb_spec(tint_spec(red_of(color), 25), tint_spec(green_of(color), 25), tint_spec(blue_of(color), 25)),
{
    pack_rgb(tint(red_channel(color), 25), tint(green_channel(color), 25), tint(blue_channel(color), 25))
}

/// The border around highlighted text: its colour, a little over half strength on white.
pub fn text_background_border(color: u32) -> (r: u32)
    ensures
        r == rgb_spec(tint_spec(red_of(color), 55), tint_spec(green_of(color), 55), tint_spec(blue_of(color), 55)),
{
    pack_rgb(tint(red_channel(color), 55), tint(green_channel(color), 55), tint(blue_channel(color), 55))
}

/// How much of a glyph covers a pixel rendered white on black: its brightest channel.
pub fn text_bitmap_coverage(pixel: u32) -> (r: u8)
    ensures
        r == spec_max(spec_max(red_of(pixel), green_of(pixel)), blue_of(pixel)),
{
    let red = red_channel(pixel);
    let green = green_channel(pixel);
    let blue = blue_channel(pixel);
    let m = if red >= green { red } else { green };
    (if m >= blue { m } else { blue }) as u8
}

/// The short font name shown in the text toolbar.
pub fn font_face_label(font_family: TextFontFamily) -> (r: &'static str)
    ensures
        r@ == match font_family {
            TextFontFamily::YaHei => "雅黑"@,
            TextFontFamily::DengXian => "等线"@,
            TextFontFamily::KaiTi => "楷体"@,
        },
{
    match font_family {
        TextFontFamily::YaHei => "雅黑",
        TextFontFamily::DengXian => "等线",
        TextFontFamily::KaiTi => "楷体",
    }
}

/// The font weight for bold (700) or regular (400) text.
pub fn font_weight(bold: bool) -> (r: i32)
    ensures
        r == if bold { 700int } else { 400int },
{
    if bold { 700 } else { 400 }
}

} // verus!

//! The clock face: an "HH:MM" text drawn as seven-segment digits in a
//! 72x72 SVG document, over a background picture or a flat fill.
use crate::text::{
    decimal_text, digit_char, eq_ignore_ascii_case, eq_ignore_ascii_case_spec, int_text, nat_text,
};
use vstd::prelude::*;

verus! {

/// Icon name that asks for a clock face.
pub const CLOCK_ICON_ALIAS: &'static str = "clock.svg";

/// Alternative icon name that asks for a clock face.
pub const CLOCK_ICON_PREFIX: &'static str = "clock://hh:mm";

/// Background picture used when a clock key names none.
pub const CLOCK_BACKGROUND_ICON: &'static str = "blank.png";

/// Fill of the clock face when its background picture is missing.
pub const CLOCK_FALLBACK_BACKGROUND_COLOR: &'static str = "#1f1f1f";

pub const CLOCK_VIEWBOX_SIZE: i32 = 72;

pub const CLOCK_DIGIT_WIDTH: i32 = 12;

pub const CLOCK_DIGIT_HEIGHT: i32 = 24;

pub const CLOCK_COLON_WIDTH: i32 = 4;

pub const CLOCK_CHAR_GAP: i32 = 2;

/// Relies on chrono's `Local::now` and its `%H:%M` format: two zero-padded
/// digits of the local hour, a colon, two zero-padded digits of the minute.
#[verifier::external_body]
pub fn current_clock_text() -> (r: String)
    ensures
        r@.len() == 5,
        r@[2] == ':',
        '0' <= r@[0] <= '9',
        '0' <= r@[1] <= '9',
        '0' <= r@[3] <= '9',
        '0' <= r@[4] <= '9',
{
    chrono::Local::now().format("%H:%M").to_string()
}

/// Whether an icon name asks for a clock face (ASCII case ignored).
pub open spec fn clock_icon_spec(icon: Seq<char>) -> bool {
    eq_ignore_ascii_case_spec(icon, CLOCK_ICON_ALIAS@) || eq_ignore_ascii_case_spec(
        icon,
        CLOCK_ICON_PREFIX@,
    )
}

pub fn is_clock_icon(icon: &str) -> (r: bool)
    ensures
        r == clock_icon_spec(icon@),
{
    eq_ignore_ascii_case(icon, CLOCK_ICON_ALIAS) || eq_ignore_ascii_case(icon, CLOCK_ICON_PREFIX)
}

/// Lit segments of a digit, in the order top, upper right, lower right,
/// bottom, lower left, upper left, middle; none for other characters.
pub open spec fn segments(ch: char) -> Seq<bool> {
    if ch == '0' {
        seq![true, true, true, true, true, true, false]
    } else if ch == '1' {
        seq![false, true, true, false, false, false, false]
    } else if ch == '2' {
        seq![true, true, false, true, true, false, true]
    } else if ch == '3' {
        seq![true, true, true, true, false, false, true]
    } else if ch == '4' {
        seq![false, true, true, false, false, true, true]
    } else if ch == '5' {
        seq![true, false, true, true, false, true, true]
    } else if ch == '6' {
        seq![true, false, true, true, true, true, true]
    } else if ch == '7' {
        seq![true, true, true, false, false, false, false]
    } else if ch == '8' {
        seq![true, true, true, true, true, true, true]
    } else if ch == '9' {
        seq![true, true, true, true, false, true, true]
    } else {
        seq![false, false, false, false, false, false, false]
    }
}

pub fn seven_segment_pattern(ch: char) -> (r: [bool; 7])
    ensures
        r@ == segments(ch),
{
    let r = match ch {
        '0' => [true, true, true, true, true, true, false],
        '1' => [false, true, true, false, false, false, false],
        '2' => [true, true, false, true, true, false, true],
        '3' => [true, true, true, true, false, false, true],
        '4' => [false, true, true, false, false, true, true],
        '5' => [true, false, true, true, false, true, true],
        '6' => [true, false, true, true, true, true, true],
        '7' => [true, true, true, false, false, false, false],
        '8' => [true, true, true, true, true, true, true],
        '9' => [true, true, true, true, false, true, true],
        _ => [false; 7],
    };
    assert(r@ =~= segments(ch));
    r
}

/// Position (relative to the glyph's corner) and size of segment `i`.
pub open spec fn segment_box(i: int) -> (int, int, int, int) {
    if i == 0 {
        (2, 0, 8, 2)
    } else if i == 1 {
        (10, 2, 2, 8)
    } else if i == 2 {
        (10, 14, 2, 8)
    } else if i == 3 {
        (2, 22, 8, 2)
    } else if i == 4 {
        (0, 14, 2, 8)
    } else if i == 5 {
        (0, 2, 2, 8)
    } else {
        (2, 11, 8, 2)
    }
}

/// One SVG `rect` element.
pub open spec fn rect_text(x: int, y: int, w: int, h: int, fill: Seq<char>) -> Seq<char> {
    "<rect x=\""@ + int_text(x) + "\" y=\""@ + int_text(y) + "\" width=\""@ + int_text(w)
        + "\" height=\""@ + int_text(h) + "\" fill=\""@ + fill + "\"/>"@
}

/// Colour of a lit or an unlit segment.
pub open spec fn segment_fill(on: bool) -> Seq<char> {
    if on {
        "#ffffff"@
    } else {
        "#2f2f2f"@
    }
}

/// Segment `i` of the digit `ch` drawn at (`x`, `y`).
pub open spec fn segment_text(x: int, y: int, ch: char, i: int) -> Seq<char> {
    let (dx, dy, w, h) = segment_box(i);
    rect_text(x + dx, y + dy, w, h, segment_fill(segments(ch)[i]))
}

/// The first `n` segments of the digit `ch` drawn at (`x`, `y`).
pub open spec fn digit_text_upto(x: int, y: int, ch: char, n: int) -> Seq<char>
    decreases n,
{
    if n <= 0 {
        Seq::empty()
    } else {
        digit_text_upto(x, y, ch, n - 1) + segment_text(x, y, ch, n - 1)
    }
}

/// All seven segments of the digit `ch` drawn at (`x`, `y`).
pub open spec fn digit_text(x: int, y: int, ch: char) -> Seq<char> {
    digit_text_upto(x, y, ch, 7)
}

fn push_rect(svg: &mut String, x: i32, y: i32, w: i32, h: i32, fill: &str)
    ensures
        final(svg)@ == old(svg)@ + rect_text(x as int, y as int, w as int, h as int, fill@),
{
    svg.append("<rect x=\"");
    svg.append(decimal_text(x).as_str());
    svg.append("\" y=\"");
    svg.append(decimal_text(y).as_str());
    svg.append("\" width=\"");
    svg.append(decimal_text(w).as_str());
    svg.append("\" height=\"");
    svg.append(decimal_text(h).as_str());
    svg.append("\" fill=\"");
    svg.append(fill);
    svg.append("\"/>");
    assert(final(svg)@ =~= old(svg)@ + rect_text(x as int, y as int, w as int, h as int, fill@));
}

/// Appends the seven segments of `ch` drawn with its corner at (`x`, `y`).
pub fn push_clock_digit_rects(svg: &mut String, x: i32, y: i32, ch: char)
    requires
        x <= i32::MAX - 12,
        y <= i32::MAX - 24,
    ensures
        final(svg)@ == old(svg)@ + digit_text(x as int, y as int, ch),
{
    let lit = seven_segment_pattern(ch);
    let boxes: [(i32, i32, i32, i32); 7] = [
        (2, 0, 8, 2),
        (10, 2, 2, 8),
        (10, 14, 2, 8),
        (2, 22, 8, 2),
        (0, 14, 2, 8),
        (0, 2, 2, 8),
        (2, 11, 8, 2),
    ];
    let ghost start = svg@;
    let mut i: usize = 0;
    while i < 7
        invariant
            x <= i32::MAX - 12,
            y <= i32::MAX - 24,
            i <= 7,
            lit@ == segments(ch),
            forall|j: int|
                0 <= j < 7 ==> (#[trigger] boxes@[j]).0 as int == segment_box(j).0 && boxes@[j].1
                    as int == segment_box(j).1 && boxes@[j].2 as int == segment_box(j).2
                    && boxes@[j].3 as int == segment_box(j).3,
            svg@ == start + digit_text_upto(x as int, y as int, ch, i as int),
        decreases 7 - i,
    {
        let (dx, dy, w, h) = boxes[i];
        let fill = if lit[i] {
            "#ffffff"
        } else {
            "#2f2f2f"
        };
        push_rect(svg, x + dx, y + dy, w, h, fill);
        proof {
            assert(fill@ == segment_fill(segments(ch)[i as int]));
            assert(svg@ =~= start + digit_text_upto(x as int, y as int, ch, i + 1));
        }
        i = i + 1;
    }
}

/// Horizontal space a character takes on the clock face.
pub open spec fn char_width(ch: char) -> int {
    if ch == ':' {
        CLOCK_COLON_WIDTH as int
    } else {
        CLOCK_DIGIT_WIDTH as int
    }
}

pub fn clock_char_width(ch: char) -> (r: i32)
    ensures
        r == char_width(ch),
{
    if ch == ':' {
        CLOCK_COLON_WIDTH
    } else {
        CLOCK_DIGIT_WIDTH
    }
}

/// The background picture a clock key asks for.
pub open spec fn background_choice(name: Option<Seq<char>>) -> Seq<char> {
    match name {
        Some(n) => n,
        None => CLOCK_BACKGROUND_ICON@,
    }
}

pub open spec fn opt_str_view(o: Option<&str>) -> Option<Seq<char>> {
    match o {
        Some(s) => Some(s@),
        None => None,
    }
}

/// Name of the background picture a clock key asks for: its own, or the
/// default one.
pub fn clock_background_name(background_name: Option<&str>) -> (r: String)
    ensures
        r@ == background_choice(opt_str_view(background_name)),
{
    match background_name {
        Some(n) => String::from_str(n),
        None => String::from_str(CLOCK_BACKGROUND_ICON),
    }
}

/// Background element: the picture when it exists, the flat fill otherwise.
pub open spec fn background_text(name: Option<Seq<char>>, present: bool) -> Seq<char> {
    if present {
        "<image href=\""@ + background_choice(name)
            + "\" x=\"0\" y=\"0\" width=\"72\" height=\"72\"/>"@
    } else {
        "<rect x=\"0\" y=\"0\" width=\"72\" height=\"72\" fill=\""@
            + CLOCK_FALLBACK_BACKGROUND_COLOR@ + "\"/>"@
    }
}

/// Background element of the clock face; `background_present` says whether
/// the picture named by `clock_background_name` exists in the icon directory.
pub fn clock_background_svg(background_name: Option<&str>, background_present: bool) -> (r:
    String)
    ensures
        r@ == background_text(opt_str_view(background_name), background_present),
{
    if background_present {
        let mut s = String::from_str("<image href=\"");
        let selected = clock_background_name(background_name);
        s.append(selected.as_str());
        s.append("\" x=\"0\" y=\"0\" width=\"72\" height=\"72\"/>");
        assert(s@ =~= background_text(opt_str_view(background_name), background_present));
        s
    } else {
        let mut s = String::from_str("<rect x=\"0\" y=\"0\" width=\"72\" height=\"72\" fill=\"");
        s.append(CLOCK_FALLBACK_BACKGROUND_COLOR);
        s.append("\"/>");
        assert(s@ =~= background_text(opt_str_view(background_name), background_present));
        s
    }
}

/// Drawing of one character at (`x`, `y`): two dots for a colon, seven
/// segments otherwise.
pub open spec fn glyph_text(ch: char, x: int, y: int) -> Seq<char> {
    if ch == ':' {
        rect_text(x + 1, y + 8, 2, 2, "#ffffff"@) + rect_text(x + 1, y + 16, 2, 2, "#ffffff"@)
    } else {
        digit_text(x, y, ch)
    }
}

/// Glyphs of `chars` laid out left to right from `x`.
pub open spec fn glyphs_text(chars: Seq<char>, x: int, y: int) -> Seq<char>
    decreases chars.len(),
{
    if chars.len() == 0 {
        Seq::empty()
    } else {
        glyph_text(chars[0], x, y) + glyphs_text(
            chars.drop_first(),
            x + char_width(chars[0]) + CLOCK_CHAR_GAP,
            y,
        )
    }
}

/// Width of the glyph row: the characters' widths plus a gap between each two.
pub open spec fn row_width(chars: Seq<char>) -> int
    decreases chars.len(),
{
    if chars.len() == 0 {
        0
    } else if chars.len() == 1 {
        char_width(chars[0])
    } else {
        char_width(chars[0]) + CLOCK_CHAR_GAP + row_width(chars.drop_first())
    }
}

/// Half of `d`, rounded toward zero.
pub open spec fn half_toward_zero(d: int) -> int {
    if d >= 0 {
        d / 2
    } else {
        -((-d) / 2)
    }
}

/// The whole clock face document for `text`.
pub open spec fn clock_svg(text: Seq<char>, name: Option<Seq<char>>, present: bool) -> Seq<char> {
    let x = half_toward_zero(CLOCK_VIEWBOX_SIZE - row_width(text));
    let y = (CLOCK_VIEWBOX_SIZE - CLOCK_DIGIT_HEIGHT) / 2;
    "<svg xmlns=\"http://www.w3.org/2000/svg\" width=\"72\" height=\"72\" viewBox=\"0 0 72 72\">\n"@
        + background_text(name, present) + "\n"@ + glyphs_text(text, x, y) + "\n</svg>"@
}

/// Horizontal advance over the first `j` characters.
pub open spec fn prefix_advance(chars: Seq<char>, j: int) -> int
    decreases j,
{
    if j <= 0 {
        0
    } else {
        prefix_advance(chars, j - 1) + char_width(chars[j - 1]) + CLOCK_CHAR_GAP
    }
}

proof fn lemma_row_width_bounds(chars: Seq<char>)
    ensures
        0 <= row_width(chars) <= 14 * chars.len(),
        chars.len() > 0 ==> row_width(chars) >= 4,
    decreases chars.len(),
{
    if chars.len() > 1 {
        lemma_row_width_bounds(chars.drop_first());
    }
}

/// Renders the clock face for `text` ("HH:MM"). `background_present` says
/// whether the picture named by `clock_background_name(background_name)`
/// exists.
pub fn render_clock_segments_svg(text: &str, background_name: Option<&str>, background_present: bool) -> (r:
    String)
    requires
        14 * text@.len() + 100 <= i32::MAX,
    ensures
        r@ == clock_svg(text@, opt_str_view(background_name), background_present),
{
    let n = text.unicode_len();
    let ghost chars = text@;
    proof {
        lemma_row_width_bounds(chars);
    }
    let mut total: i32 = 0;
    let mut i: usize = n;
    while i > 0
        invariant
            n == chars.len(),
            chars == text@,
            14 * n + 100 <= i32::MAX,
            i <= n,
            total == row_width(chars.subrange(i as int, n as int)),
            0 <= total <= 14 * (n - i),
        decreases i,
    {
        let ch = text.get_char(i - 1);
        let ghost rest = chars.subrange(i as int, n as int);
        let ghost here = chars.subrange(i - 1, n as int);
        proof {
            assert(here.drop_first() =~= rest);
            assert(here[0] == ch);
        }
        if i == n {
            total = clock_char_width(ch);
        } else {
            total = clock_char_width(ch) + CLOCK_CHAR_GAP + total;
        }
        i = i - 1;
    }
    assert(chars.subrange(0, n as int) =~= chars);
    let diff = CLOCK_VIEWBOX_SIZE - total;
    let start_x = if diff >= 0 {
        diff / 2
    } else {
        -((-diff) / 2)
    };
    let y = (CLOCK_VIEWBOX_SIZE - CLOCK_DIGIT_HEIGHT) / 2;
    let mut glyphs = String::new();
    let mut x = start_x;
    let mut j: usize = 0;
    while j < n
        invariant
            n == chars.len(),
            chars == text@,
            14 * n + 100 <= i32::MAX,
            j <= n,
            y == 24,
            total == row_width(chars),
            start_x == half_toward_zero(72 - row_width(chars)),
            x == start_x + prefix_advance(chars, j as int),
            0 <= prefix_advance(chars, j as int) <= 14 * j,
            -14 * n <= start_x <= 36,
            glyphs@ + glyphs_text(chars.subrange(j as int, n as int), x as int, 24) == glyphs_text(
                chars,
                start_x as int,
                24,
            ),
        decreases n - j,
    {
        let ch = text.get_char(j);
        let ghost rest = chars.subrange(j + 1, n as int);
        let ghost here = chars.subrange(j as int, n as int);
        proof {
            assert(here.drop_first() =~= rest);
            assert(here[0] == ch);
        }
        if ch == ':' {
            push_rect(&mut glyphs, x + 1, y + 8, 2, 2, "#ffffff");
            push_rect(&mut glyphs, x + 1, y + 16, 2, 2, "#ffffff");
        } else {
            push_clock_digit_rects(&mut glyphs, x, y, ch);
        }
        x = x + clock_char_width(ch) + CLOCK_CHAR_GAP;
        proof {
            assert(chars[j as int] == ch);
        }
        j = j + 1;
    }
    let mut svg = String::from_str(
        "<svg xmlns=\"http://www.w3.org/2000/svg\" width=\"72\" height=\"72\" viewBox=\"0 0 72 72\">\n",
    );
    svg.append(clock_background_svg(background_name, background_present).as_str());
    svg.append("\n");
    svg.append(glyphs.as_str());
    svg.append("\n</svg>");
    svg
}


/// Whether `t` occurs in `s`.
pub open spec fn contains_text(s: Seq<char>, t: Seq<char>) -> bool {
    exists|i: int| 0 <= i && i + t.len() <= s.len() && #[trigger] s.subrange(i, i + t.len()) == t
}

/// The clock face shows its background: without the picture it holds the
/// fallback colour, with it an `<image>` element naming the chosen picture.
pub proof fn lemma_clock_face_background(text: Seq<char>, name: Option<Seq<char>>)
    ensures
        contains_text(clock_svg(text, name, false), CLOCK_FALLBACK_BACKGROUND_COLOR@),
        contains_text(
            clock_svg(text, name, true),
            "<image href=\""@ + background_choice(name) + "\""@,
        ),
{
    let x = half_toward_zero(CLOCK_VIEWBOX_SIZE - row_width(text));
    let y = (CLOCK_VIEWBOX_SIZE - CLOCK_DIGIT_HEIGHT) / 2;
    let head = "<svg xmlns=\"http://www.w3.org/2000/svg\" width=\"72\" height=\"72\" viewBox=\"0 0 72 72\">\n"@;
    let tail = "\n"@ + glyphs_text(text, x, y) + "\n</svg>"@;

    let rect_open = "<rect x=\"0\" y=\"0\" width=\"72\" height=\"72\" fill=\""@;
    let color = CLOCK_FALLBACK_BACKGROUND_COLOR@;
    let close = "\"/>"@;
    let doc = clock_svg(text, name, false);
    assert(doc =~= head + (rect_open + color + close) + tail);
    let i: int = (head.len() + rect_open.len()) as int;
    assert(doc.subrange(i, i + color.len()) =~= color);

    let img_open = "<image href=\""@;
    let chosen = background_choice(name);
    let img_rest = "\" x=\"0\" y=\"0\" width=\"72\" height=\"72\"/>"@;
    let quote = "\""@;
    let doc2 = clock_svg(text, name, true);
    let wanted = img_open + chosen + quote;
    assert(img_rest =~= quote + img_rest.subrange(1, img_rest.len() as int)) by {
        reveal_strlit("\" x=\"0\" y=\"0\" width=\"72\" height=\"72\"/>");
        reveal_strlit("\"");
    }
    assert(doc2 =~= head + wanted + (img_rest.subrange(1, img_rest.len() as int) + tail));
    let j: int = head.len() as int;
    assert(doc2.subrange(j, j + wanted.len()) =~= wanted);
}


/// No `a` in `s` is followed by `b`, and `s` does not end with `a`.
pub open spec fn no_pair(s: Seq<char>, a: char, b: char) -> bool {
    &&& forall|i: int| 0 <= i < s.len() - 1 && #[trigger] s[i] == a ==> s[i + 1] != b
    &&& s.len() > 0 ==> s[s.len() - 1] != a
}

proof fn lemma_no_pair_concat(s: Seq<char>, t: Seq<char>, a: char, b: char)
    requires
        no_pair(s, a, b),
        no_pair(t, a, b),
    ensures
        no_pair(s + t, a, b),
{
    let u = s + t;
    assert forall|i: int| 0 <= i < u.len() - 1 && #[trigger] u[i] == a implies u[i + 1] != b by {
        if i < s.len() - 1 {
            assert(u[i] == s[i] && u[i + 1] == s[i + 1]);
        } else if i == s.len() - 1 {
            assert(u[i] == s[i]);
        } else {
            assert(u[i] == t[i - s.len()] && u[i + 1] == t[i + 1 - s.len()]);
        }
    }
    if t.len() > 0 {
        assert(u[u.len() - 1] == t[t.len() - 1]);
    } else {
        assert(u =~= s);
    }
}

proof fn lemma_no_pair_without(s: Seq<char>, a: char, b: char)
    requires
        forall|i: int| 0 <= i < s.len() ==> s[i] != a,
    ensures
        no_pair(s, a, b),
{
}

proof fn lemma_nat_text_digits(n: nat)
    ensures
        forall|i: int| 0 <= i < nat_text(n).len() ==> '0' <= #[trigger] nat_text(n)[i] <= '9',
    decreases n,
{
    if n >= 10 {
        lemma_nat_text_digits(n / 10);
        let s = nat_text(n / 10);
        let d = seq![digit_char((n % 10) as int)];
        assert forall|i: int| 0 <= i < nat_text(n).len() implies '0' <= #[trigger] nat_text(n)[i]
            <= '9' by {
            if i < s.len() {
                assert(nat_text(n)[i] == s[i]);
            } else {
                assert(nat_text(n)[i] == d[i - s.len()]);
            }
        }
    }
}

/// Decimal text holds digits and at most a minus sign.
proof fn lemma_int_text_plain(v: int, a: char, b: char)
    requires
        !('0' <= a <= '9'),
        a != '-',
    ensures
        no_pair(int_text(v), a, b),
{
    if v < 0 {
        lemma_nat_text_digits((-v) as nat);
        let t = nat_text((-v) as nat);
        assert forall|i: int| 0 <= i < int_text(v).len() implies int_text(v)[i] != a by {
            if i > 0 {
                assert(int_text(v)[i] == t[i - 1]);
            }
        }
    } else {
        lemma_nat_text_digits(v as nat);
    }
    lemma_no_pair_without(int_text(v), a, b);
}

/// The pairs that an image reference or the fallback colour would need.
pub open spec fn tame_pair(a: char, b: char) -> bool {
    (a == '#' && b == '1') || (a == '<' && b == 'i') || (a == 'h' && b == 'r')
}

proof fn lemma_rect_tame(x: int, y: int, w: int, h: int, fill: Seq<char>, a: char, b: char)
    requires
        tame_pair(a, b),
        fill == "#ffffff"@ || fill == "#2f2f2f"@,
    ensures
        no_pair(rect_text(x, y, w, h, fill), a, b),
{
    reveal_strlit("<rect x=\"");
    reveal_strlit("\" y=\"");
    reveal_strlit("\" width=\"");
    reveal_strlit("\" height=\"");
    reveal_strlit("\" fill=\"");
    reveal_strlit("\"/>");
    reveal_strlit("#ffffff");
    reveal_strlit("#2f2f2f");
    lemma_int_text_plain(x, a, b);
    lemma_int_text_plain(y, a, b);
    lemma_int_text_plain(w, a, b);
    lemma_int_text_plain(h, a, b);
    let p1 = "<rect x=\""@;
    let p2 = "\" y=\""@;
    let p3 = "\" width=\""@;
    let p4 = "\" height=\""@;
    let p5 = "\" fill=\""@;
    let p6 = "\"/>"@;
    assert(no_pair(p1, a, b));
    assert(no_pair(p2, a, b));
    assert(no_pair(p3, a, b));
    assert(no_pair(p4, a, b));
    assert(no_pair(p5, a, b));
    assert(no_pair(p6, a, b));
    assert(no_pair(fill, a, b));
    lemma_no_pair_concat(p1, int_text(x), a, b);
    lemma_no_pair_concat(p1 + int_text(x), p2, a, b);
    lemma_no_pair_concat(p1 + int_text(x) + p2, int_text(y), a, b);
    lemma_no_pair_concat(p1 + int_text(x) + p2 + int_text(y), p3, a, b);
    lemma_no_pair_concat(p1 + int_text(x) + p2 + int_text(y) + p3, int_text(w), a, b);
    lemma_no_pair_concat(p1 + int_text(x) + p2 + int_text(y) + p3 + int_text(w), p4, a, b);
    lemma_no_pair_concat(p1 + int_text(x) + p2 + int_text(y) + p3 + int_text(w) + p4, int_text(h), a, b);
    lemma_no_pair_concat(
        p1 + int_text(x) + p2 + int_text(y) + p3 + int_text(w) + p4 + int_text(h),
        p5,
        a,
        b,
    );
    lemma_no_pair_concat(
        p1 + int_text(x) + p2 + int_text(y) + p3 + int_text(w) + p4 + int_text(h) + p5,
        fill,
        a,
        b,
    );
    lemma_no_pair_concat(
        p1 + int_text(x) + p2 + int_text(y) + p3 + int_text(w) + p4 + int_text(h) + p5 + fill,
        p6,
        a,
        b,
    );
}

proof fn lemma_digit_tame(x: int, y: int, ch: char, n: int, a: char, b: char)
    requires
        tame_pair(a, b),
    ensures
        no_pair(digit_text_upto(x, y, ch, n), a, b),
    decreases n,
{
    if n > 0 {
        lemma_digit_tame(x, y, ch, n - 1, a, b);
        let (dx, dy, w, h) = segment_box(n - 1);
        reveal_strlit("#ffffff");
        reveal_strlit("#2f2f2f");
        lemma_rect_tame(x + dx, y + dy, w, h, segment_fill(segments(ch)[n - 1]), a, b);
        lemma_no_pair_concat(digit_text_upto(x, y, ch, n - 1), segment_text(x, y, ch, n - 1), a, b);
    }
}

proof fn lemma_glyphs_tame(chars: Seq<char>, x: int, y: int, a: char, b: char)
    requires
        tame_pair(a, b),
    ensures
        no_pair(glyphs_text(chars, x, y), a, b),
    decreases chars.len(),
{
    if chars.len() > 0 {
        if chars[0] == ':' {
            lemma_rect_tame(x + 1, y + 8, 2, 2, "#ffffff"@, a, b);
            lemma_rect_tame(x + 1, y + 16, 2, 2, "#ffffff"@, a, b);
            lemma_no_pair_concat(
                rect_text(x + 1, y + 8, 2, 2, "#ffffff"@),
                rect_text(x + 1, y + 16, 2, 2, "#ffffff"@),
                a,
                b,
            );
        } else {
            lemma_digit_tame(x, y, chars[0], 7, a, b);
        }
        lemma_glyphs_tame(chars.drop_first(), x + char_width(chars[0]) + CLOCK_CHAR_GAP, y, a, b);
        lemma_no_pair_concat(
            glyph_text(chars[0], x, y),
            glyphs_text(chars.drop_first(), x + char_width(chars[0]) + CLOCK_CHAR_GAP, y),
            a,
            b,
        );
    }
}

proof fn lemma_pair_absent(s: Seq<char>, t: Seq<char>, a: char, b: char)
    requires
        no_pair(s, a, b),
        t.len() >= 2,
        t[0] == a,
        t[1] == b,
    ensures
        !contains_text(s, t),
{
    if contains_text(s, t) {
        let i = choose|i: int| 0 <= i && i + t.len() <= s.len() && #[trigger] s.subrange(i, i + t.len()) == t;
        assert(s.subrange(i, i + t.len())[0] == s[i]);
        assert(s.subrange(i, i + t.len())[1] == s[i + 1]);
    }
}

/// The clock face's document, around its background element.
proof fn lemma_frame_tame(text: Seq<char>, bg: Seq<char>, a: char, b: char)
    requires
        tame_pair(a, b),
        no_pair(bg, a, b),
    ensures
        no_pair(
            "<svg xmlns=\"http://www.w3.org/2000/svg\" width=\"72\" height=\"72\" viewBox=\"0 0 72 72\">\n"@
                + bg + "\n"@ + glyphs_text(
                text,
                half_toward_zero(CLOCK_VIEWBOX_SIZE - row_width(text)),
                (CLOCK_VIEWBOX_SIZE - CLOCK_DIGIT_HEIGHT) / 2,
            ) + "\n</svg>"@,
            a,
            b,
        ),
{
    let head = "<svg xmlns=\"http://www.w3.org/2000/svg\" width=\"72\" height=\"72\" viewBox=\"0 0 72 72\">\n"@;
    reveal_strlit("<svg xmlns=\"http://www.w3.org/2000/svg\" width=\"72\" height=\"72\" viewBox=\"0 0 72 72\">\n");
    reveal_strlit("\n");
    reveal_strlit("\n</svg>");
    let g = glyphs_text(
        text,
        half_toward_zero(CLOCK_VIEWBOX_SIZE - row_width(text)),
        (CLOCK_VIEWBOX_SIZE - CLOCK_DIGIT_HEIGHT) / 2,
    );
    lemma_glyphs_tame(
        text,
        half_toward_zero(CLOCK_VIEWBOX_SIZE - row_width(text)),
        (CLOCK_VIEWBOX_SIZE - CLOCK_DIGIT_HEIGHT) / 2,
        a,
        b,
    );
    assert(no_pair(head, a, b));
    assert(no_pair("\n"@, a, b));
    assert(no_pair("\n</svg>"@, a, b));
    lemma_no_pair_concat(head, bg, a, b);
    lemma_no_pair_concat(head + bg, "\n"@, a, b);
    lemma_no_pair_concat(head + bg + "\n"@, g, a, b);
    lemma_no_pair_concat(head + bg + "\n"@ + g, "\n</svg>"@, a, b);
}

/// Without its background picture the clock face refers to no image: it
/// holds neither `<image` nor `href=`.
pub proof fn lemma_clock_face_without_picture(text: Seq<char>, name: Option<Seq<char>>)
    ensures
        !contains_text(clock_svg(text, name, false), "<image"@),
        !contains_text(clock_svg(text, name, false), "href="@),
{
    let bg = background_text(name, false);
    reveal_strlit("<rect x=\"0\" y=\"0\" width=\"72\" height=\"72\" fill=\"");
    reveal_strlit("#1f1f1f");
    reveal_strlit("\"/>");
    reveal_strlit("<image");
    reveal_strlit("href=");
    let p = "<rect x=\"0\" y=\"0\" width=\"72\" height=\"72\" fill=\""@;
    assert(no_pair(p, '<', 'i'));
    assert(no_pair(p, 'h', 'r'));
    assert(no_pair("#1f1f1f"@, '<', 'i'));
    assert(no_pair("#1f1f1f"@, 'h', 'r'));
    assert(no_pair("\"/>"@, '<', 'i'));
    assert(no_pair("\"/>"@, 'h', 'r'));
    lemma_no_pair_concat(p, "#1f1f1f"@, '<', 'i');
    lemma_no_pair_concat(p + "#1f1f1f"@, "\"/>"@, '<', 'i');
    lemma_no_pair_concat(p, "#1f1f1f"@, 'h', 'r');
    lemma_no_pair_concat(p + "#1f1f1f"@, "\"/>"@, 'h', 'r');
    lemma_frame_tame(text, bg, '<', 'i');
    lemma_frame_tame(text, bg, 'h', 'r');
    lemma_pair_absent(clock_svg(text, name, false), "<image"@, '<', 'i');
    lemma_pair_absent(clock_svg(text, name, false), "href="@, 'h', 'r');
}

/// An occurrence of `t` in `a + c + b`, where neither `a` nor `b` holds the
/// first two characters of `t` in a row and `b` starts with a character
/// found nowhere in `t` after its first, lies inside `c`.
proof fn lemma_occurrence_inside(a: Seq<char>, c: Seq<char>, b: Seq<char>, t: Seq<char>)
    requires
        t.len() >= 2,
        no_pair(a, t[0], t[1]),
        no_pair(b, t[0], t[1]),
        b.len() > 0,
        forall|j: int| 1 <= j < t.len() ==> t[j] != b[0],
        contains_text(a + c + b, t),
    ensures
        contains_text(c, t),
{
    let s = a + c + b;
    let i = choose|i: int| 0 <= i && i + t.len() <= s.len() && #[trigger] s.subrange(i, i + t.len()) == t;
    assert(s.subrange(i, i + t.len())[0] == s[i]);
    assert(s.subrange(i, i + t.len())[1] == s[i + 1]);
    let ac: int = (a.len() + c.len()) as int;
    if i < a.len() {
        if i < a.len() - 1 {
            assert(s[i] == a[i] && s[i + 1] == a[i + 1]);
        } else {
            assert(s[i] == a[i]);
        }
        assert(false);
    } else if i >= ac {
        let k = i - ac;
        assert(s[i] == b[k] && s[i + 1] == b[k + 1]);
        assert(false);
    } else if i + t.len() <= ac {
        let k = i - a.len();
        assert(c.subrange(k, k + t.len()) =~= s.subrange(i, i + t.len()));
    } else {
        let j = ac - i;
        assert(s.subrange(i, i + t.len())[j] == s[ac]);
        assert(s[ac] == b[0]);
        assert(false);
    }
}

/// With its background picture the clock face omits the fallback colour,
/// unless the picture's own name holds it.
pub proof fn lemma_clock_face_with_picture(text: Seq<char>, name: Option<Seq<char>>)
    requires
        !contains_text(background_choice(name), CLOCK_FALLBACK_BACKGROUND_COLOR@),
    ensures
        !contains_text(clock_svg(text, name, true), CLOCK_FALLBACK_BACKGROUND_COLOR@),
{
    let c = background_choice(name);
    let color = CLOCK_FALLBACK_BACKGROUND_COLOR@;
    reveal_strlit("<image href=\"");
    reveal_strlit("\" x=\"0\" y=\"0\" width=\"72\" height=\"72\"/>");
    reveal_strlit("#1f1f1f");
    reveal_strlit("<svg xmlns=\"http://www.w3.org/2000/svg\" width=\"72\" height=\"72\" viewBox=\"0 0 72 72\">\n");
    reveal_strlit("\n");
    reveal_strlit("\n</svg>");
    let head = "<svg xmlns=\"http://www.w3.org/2000/svg\" width=\"72\" height=\"72\" viewBox=\"0 0 72 72\">\n"@;
    let p = "<image href=\""@;
    let q = "\" x=\"0\" y=\"0\" width=\"72\" height=\"72\"/>"@;
    let x = half_toward_zero(CLOCK_VIEWBOX_SIZE - row_width(text));
    let y = (CLOCK_VIEWBOX_SIZE - CLOCK_DIGIT_HEIGHT) / 2;
    let g = glyphs_text(text, x, y);
    let nl = "\n"@;
    let tail = "\n</svg>"@;
    assert(no_pair(head, '#', '1'));
    assert(no_pair(p, '#', '1'));
    assert(no_pair(q, '#', '1'));
    assert(no_pair(nl, '#', '1'));
    assert(no_pair(tail, '#', '1'));
    lemma_glyphs_tame(text, x, y, '#', '1');
    lemma_no_pair_concat(head, p, '#', '1');
    lemma_no_pair_concat(q, nl, '#', '1');
    lemma_no_pair_concat(q + nl, g, '#', '1');
    lemma_no_pair_concat(q + nl + g, tail, '#', '1');
    let a = head + p;
    let b = q + nl + g + tail;
    assert(clock_svg(text, name, true) =~= a + c + b);
    assert(b[0] == q[0]);
    assert(color[0] == '#' && color[1] == '1');
    if contains_text(clock_svg(text, name, true), color) {
        lemma_occurrence_inside(a, c, b, color);
    }
}

} // verus!

//! Small text utilities on character sequences: whitespace trimming, the
//! first whitespace-separated words of a command line, decimal rendering of
//! integers and ASCII case folding.
use vstd::prelude::*;

verus! {

/// Whether `c` has the Unicode `White_Space` property: tab through carriage
/// return, space, next line, no-break space, ogham space mark, the spaces
/// from en quad to hair space, line and paragraph separators, narrow
/// no-break space, medium mathematical space and ideographic space.
pub open spec fn whitespace_char(c: char) -> bool {
    let u = c as u32;
    (0x9 <= u <= 0xD) || u == 0x20 || u == 0x85 || u == 0xA0 || u == 0x1680 || (0x2000 <= u
        <= 0x200A) || u == 0x2028 || u == 0x2029 || u == 0x202F || u == 0x205F || u == 0x3000
}

/// Whether `c` is whitespace, as `char::is_whitespace` tells.
pub fn is_whitespace(c: char) -> (r: bool)
    ensures
        r == whitespace_char(c),
{
    let u = c as u32;
    (0x9 <= u && u <= 0xD) || u == 0x20 || u == 0x85 || u == 0xA0 || u == 0x1680 || (0x2000 <= u
        && u <= 0x200A) || u == 0x2028 || u == 0x2029 || u == 0x202F || u == 0x205F || u == 0x3000
}

/// First index at or after `i` that does not hold whitespace (or `s.len()`).
pub open spec fn skip_ws(s: Seq<char>, i: int) -> int
    decreases s.len() - i,
{
    if 0 <= i < s.len() && whitespace_char(s[i]) {
        skip_ws(s, i + 1)
    } else {
        i
    }
}

/// First index at or after `i` that holds whitespace (or `s.len()`).
pub open spec fn word_end(s: Seq<char>, i: int) -> int
    decreases s.len() - i,
{
    if 0 <= i < s.len() && !whitespace_char(s[i]) {
        word_end(s, i + 1)
    } else {
        i
    }
}

/// Going down from `j`, the end of `s` once trailing whitespace above `lo`
/// is dropped.
pub open spec fn trim_end_index(s: Seq<char>, lo: int, j: int) -> int
    decreases j - lo,
{
    if 0 <= lo < j <= s.len() && whitespace_char(s[j - 1]) {
        trim_end_index(s, lo, j - 1)
    } else {
        j
    }
}

/// `s` without leading and trailing whitespace.
pub open spec fn trimmed(s: Seq<char>) -> Seq<char> {
    let a = skip_ws(s, 0);
    s.subrange(a, trim_end_index(s, a, s.len() as int))
}

/// The whitespace-separated word that starts at or after index `i`; empty
/// when only whitespace is left.
pub open spec fn word_from(s: Seq<char>, i: int) -> Seq<char> {
    s.subrange(skip_ws(s, i), word_end(s, skip_ws(s, i)))
}

/// The first word of `s`.
pub open spec fn first_word(s: Seq<char>) -> Seq<char> {
    word_from(s, 0)
}

/// The second word of `s`.
pub open spec fn second_word(s: Seq<char>) -> Seq<char> {
    word_from(s, word_end(s, skip_ws(s, 0)))
}

proof fn lemma_skip_ws_bounds(s: Seq<char>, i: int)
    requires
        0 <= i <= s.len(),
    ensures
        i <= skip_ws(s, i) <= s.len(),
        skip_ws(s, i) < s.len() ==> !whitespace_char(s[skip_ws(s, i)]),
    decreases s.len() - i,
{
    if i < s.len() && whitespace_char(s[i]) {
        lemma_skip_ws_bounds(s, i + 1);
    }
}

proof fn lemma_word_end_bounds(s: Seq<char>, i: int)
    requires
        0 <= i <= s.len(),
    ensures
        i <= word_end(s, i) <= s.len(),
    decreases s.len() - i,
{
    if i < s.len() && !whitespace_char(s[i]) {
        lemma_word_end_bounds(s, i + 1);
    }
}

/// Index of the first non-whitespace character at or after `from`.
fn skip_whitespace(s: &str, from: usize) -> (r: usize)
    requires
        from <= s@.len(),
    ensures
        r == skip_ws(s@, from as int),
        from <= r <= s@.len(),
{
    let len = s.unicode_len();
    let mut i = from;
    while i < len && is_whitespace(s.get_char(i))
        invariant
            len == s@.len(),
            from <= i <= len,
            skip_ws(s@, from as int) == skip_ws(s@, i as int),
        decreases len - i,
    {
        i = i + 1;
    }
    proof {
        lemma_skip_ws_bounds(s@, i as int);
    }
    i
}

/// Index just past the word that starts at `from`.
fn word_end_index(s: &str, from: usize) -> (r: usize)
    requires
        from <= s@.len(),
    ensures
        r == word_end(s@, from as int),
        from <= r <= s@.len(),
{
    let len = s.unicode_len();
    let mut i = from;
    while i < len && !is_whitespace(s.get_char(i))
        invariant
            len == s@.len(),
            from <= i <= len,
            word_end(s@, from as int) == word_end(s@, i as int),
        decreases len - i,
    {
        i = i + 1;
    }
    i
}

/// `s` without leading and trailing whitespace, as `str::trim` gives it.
pub fn trim_text(s: &str) -> (r: String)
    ensures
        r@ == trimmed(s@),
{
    let len = s.unicode_len();
    let start = skip_whitespace(s, 0);
    let mut end = len;
    while end > start && is_whitespace(s.get_char(end - 1))
        invariant
            len == s@.len(),
            start <= end <= len,
            trim_end_index(s@, start as int, len as int) == trim_end_index(
                s@,
                start as int,
                end as int,
            ),
        decreases end,
    {
        end = end - 1;
    }
    String::from_str(s.substring_char(start, end))
}

/// The word of `s` that starts at or after `from`, and the index where it ends.
fn next_word(s: &str, from: usize) -> (r: (String, usize))
    requires
        from <= s@.len(),
    ensures
        r.0@ == word_from(s@, from as int),
        r.1 == word_end(s@, skip_ws(s@, from as int)),
        r.1 <= s@.len(),
{
    let start = skip_whitespace(s, from);
    let end = word_end_index(s, start);
    (String::from_str(s.substring_char(start, end)), end)
}

/// The first two whitespace-separated words of `s` (each empty if missing).
pub fn first_two_words(s: &str) -> (r: (String, String))
    ensures
        r.0@ == first_word(s@),
        r.1@ == second_word(s@),
{
    let (first, end) = next_word(s, 0);
    let (second, _) = next_word(s, end);
    (first, second)
}

/// The whitespace-separated words of `s` from index `i` on.
pub open spec fn words_from(s: Seq<char>, i: int) -> Seq<Seq<char>>
    decreases s.len() - i,
{
    let a = skip_ws(s, i);
    if i < 0 || a >= s.len() || a < i {
        Seq::empty()
    } else if word_end(s, a) <= a || word_end(s, a) > s.len() {
        Seq::empty()
    } else {
        seq![s.subrange(a, word_end(s, a))] + words_from(s, word_end(s, a))
    }
}

/// The whitespace-separated words of `s`, as `str::split_whitespace` yields
/// them.
pub open spec fn words(s: Seq<char>) -> Seq<Seq<char>> {
    words_from(s, 0)
}

proof fn lemma_word_nonempty(s: Seq<char>, i: int)
    requires
        0 <= i <= s.len(),
        skip_ws(s, i) < s.len(),
    ensures
        skip_ws(s, i) < word_end(s, skip_ws(s, i)) <= s.len(),
{
    lemma_skip_ws_bounds(s, i);
    lemma_word_end_bounds(s, skip_ws(s, i) + 1);
}

/// The whitespace-separated words of `s`, in order.
pub fn split_words(s: &str) -> (r: Vec<String>)
    ensures
        r@.map_values(|w: String| w@) == words(s@),
{
    let len = s.unicode_len();
    let mut r: Vec<String> = Vec::new();
    let mut i: usize = 0;
    while i < len
        invariant
            len == s@.len(),
            i <= len,
            r@.map_values(|w: String| w@) + words_from(s@, i as int) == words(s@),
        decreases len - i,
    {
        let start = skip_whitespace(s, i);
        if start >= len {
            proof {
                assert(words_from(s@, i as int) =~= Seq::<Seq<char>>::empty());
                assert(words_from(s@, len as int) =~= Seq::<Seq<char>>::empty());
            }
            i = len;
        } else {
            let end = word_end_index(s, start);
            proof {
                lemma_word_nonempty(s@, i as int);
            }
            let ghost before = r@.map_values(|w: String| w@);
            r.push(String::from_str(s.substring_char(start, end)));
            proof {
                assert(r@.map_values(|w: String| w@) =~= before.push(s@.subrange(
                    start as int,
                    end as int,
                )));
            }
            i = end;
        }
    }
    proof {
        assert(words_from(s@, len as int) =~= Seq::<Seq<char>>::empty());
        assert(r@.map_values(|w: String| w@) =~= r@.map_values(|w: String| w@) + Seq::<
            Seq<char>,
        >::empty());
    }
    r
}

/// Character of the decimal digit `d`.
pub open spec fn digit_char(d: int) -> char {
    if d == 0 {
        '0'
    } else if d == 1 {
        '1'
    } else if d == 2 {
        '2'
    } else if d == 3 {
        '3'
    } else if d == 4 {
        '4'
    } else if d == 5 {
        '5'
    } else if d == 6 {
        '6'
    } else if d == 7 {
        '7'
    } else if d == 8 {
        '8'
    } else {
        '9'
    }
}

/// Decimal digits of `n`, most significant first, without leading zeros.
pub open spec fn nat_text(n: nat) -> Seq<char>
    decreases n,
{
    if n < 10 {
        seq![digit_char(n as int)]
    } else {
        nat_text(n / 10) + seq![digit_char((n % 10) as int)]
    }
}

/// Decimal text of `v`, with a leading `-` when negative.
pub open spec fn int_text(v: int) -> Seq<char> {
    if v < 0 {
        seq!['-'] + nat_text((-v) as nat)
    } else {
        nat_text(v as nat)
    }
}

fn digit_text(d: u32) -> (r: &'static str)
    requires
        d < 10,
    ensures
        r@ == seq![digit_char(d as int)],
{
    proof {
        reveal_strlit("0");
        reveal_strlit("1");
        reveal_strlit("2");
        reveal_strlit("3");
        reveal_strlit("4");
        reveal_strlit("5");
        reveal_strlit("6");
        reveal_strlit("7");
        reveal_strlit("8");
        reveal_strlit("9");
    }
    match d {
        0 => "0",
        1 => "1",
        2 => "2",
        3 => "3",
        4 => "4",
        5 => "5",
        6 => "6",
        7 => "7",
        8 => "8",
        _ => "9",
    }
}

/// Decimal text of `v`.
pub fn decimal_text(v: i32) -> (r: String)
    ensures
        r@ == int_text(v as int),
{
    let negative = v < 0;
    let mut n: u32 = if negative {
        (-(v as i64)) as u32
    } else {
        v as u32
    };
    let ghost total: nat = if negative {
        (-(v as int)) as nat
    } else {
        v as nat
    };
    let mut acc = String::new();
    while n >= 10
        invariant
            nat_text(total) == nat_text(n as nat) + acc@,
        decreases n,
    {
        let d = n % 10;
        let piece = String::from_str(digit_text(d));
        proof {
            assert(nat_text(n as nat) == nat_text((n / 10) as nat) + seq![digit_char(d as int)]);
            assert(nat_text(total) == nat_text((n / 10) as nat) + (seq![digit_char(d as int)]
                + acc@));
        }
        acc = piece.concat(acc.as_str());
        n = n / 10;
    }
    let head = String::from_str(digit_text(n));
    proof {
        assert(nat_text(n as nat) == seq![digit_char(n as int)]);
    }
    let digits = head.concat(acc.as_str());
    if negative {
        proof {
            reveal_strlit("-");
        }
        String::from_str("-").concat(digits.as_str())
    } else {
        digits
    }
}

/// `c` with ASCII upper-case letters mapped to lower case.
pub open spec fn ascii_lower(c: char) -> char {
    if 'A' <= c <= 'Z' {
        (((c as u32) + 32) as u8) as char
    } else {
        c
    }
}

/// Equality of two texts up to ASCII case.
pub open spec fn eq_ignore_ascii_case_spec(a: Seq<char>, b: Seq<char>) -> bool {
    a.len() == b.len() && forall|i: int| 0 <= i < a.len() ==> ascii_lower(a[i]) == ascii_lower(b[i])
}

fn lower_char(c: char) -> (r: char)
    ensures
        r == ascii_lower(c),
{
    if 'A' <= c && c <= 'Z' {
        ((c as u8) + 32) as char
    } else {
        c
    }
}

/// Compares `a` and `b` ignoring ASCII case, as `str::eq_ignore_ascii_case` does.
pub fn eq_ignore_ascii_case(a: &str, b: &str) -> (r: bool)
    ensures
        r == eq_ignore_ascii_case_spec(a@, b@),
{
    let n = a.unicode_len();
    if n != b.unicode_len() {
        return false;
    }
    let mut i: usize = 0;
    while i < n
        invariant
            n == a@.len(),
            n == b@.len(),
            i <= n,
            forall|j: int| 0 <= j < i ==> ascii_lower(a@[j]) == ascii_lower(b@[j]),
        decreases n - i,
    {
        if lower_char(a.get_char(i)) != lower_char(b.get_char(i)) {
            return false;
        }
        i = i + 1;
    }
    true
}

} // verus!

//! Verified string helpers shared across the crate: whitespace trimming,
//! line splitting, prefix and substring tests, decimal formatting and
//! character repetition.

use vstd::prelude::*;

verus! {

/// Relies on `String::push`: appends exactly the given character.
pub assume_specification [ String::push ](s: &mut String, c: char)
    ensures
        final(s)@ == old(s)@.push(c),
;

/// Whether `c` has the Unicode `White_Space` property, the set `char::is_whitespace` tests.
pub open spec fn is_wspace(c: char) -> bool {
    let u = c as u32;
    u == 9 || u == 10 || u == 11 || u == 12 || u == 13 || u == 32 || u == 0x85 || u == 0xa0
        || u == 0x1680 || (0x2000 <= u && u <= 0x200a) || u == 0x2028 || u == 0x2029 || u == 0x202f
        || u == 0x205f || u == 0x3000
}

/// Test [`is_wspace`] on a concrete character.
pub fn char_is_wspace(c: char) -> (r: bool)
    ensures
        r == is_wspace(c),
{
    let u = c as u32;
    u == 9 || u == 10 || u == 11 || u == 12 || u == 13 || u == 32 || u == 0x85 || u == 0xa0
        || u == 0x1680 || (0x2000 <= u && u <= 0x200a) || u == 0x2028 || u == 0x2029 || u == 0x202f
        || u == 0x205f || u == 0x3000
}

/// `s` with its leading whitespace removed.
pub open spec fn drop_leading_ws(s: Seq<char>) -> Seq<char>
    decreases s.len(),
{
    if s.len() > 0 && is_wspace(s[0]) {
        drop_leading_ws(s.drop_first())
    } else {
        s
    }
}

/// `s` with its trailing whitespace removed.
pub open spec fn drop_trailing_ws(s: Seq<char>) -> Seq<char>
    decreases s.len(),
{
    if s.len() > 0 && is_wspace(s.last()) {
        drop_trailing_ws(s.drop_last())
    } else {
        s
    }
}

/// `s` with leading and trailing whitespace removed.
pub open spec fn trim_spec(s: Seq<char>) -> Seq<char> {
    drop_trailing_ws(drop_leading_ws(s))
}

proof fn lemma_drop_leading_ws_skip(s: Seq<char>, i: int)
    requires
        0 <= i <= s.len(),
        forall|k: int| 0 <= k < i ==> is_wspace(s[k]),
        i < s.len() ==> !is_wspace(s[i]),
    ensures
        drop_leading_ws(s) == s.skip(i),
    decreases i,
{
    if i == 0 {
        assert(s.skip(0) =~= s);
    } else {
        assert(is_wspace(s[0]));
        let t = s.drop_first();
        assert(forall|k: int| 0 <= k < i - 1 ==> is_wspace(#[trigger] t[k]));
        lemma_drop_leading_ws_skip(t, i - 1);
        assert(t.skip(i - 1) =~= s.skip(i));
    }
}

pub proof fn lemma_drop_trailing_ws_take(s: Seq<char>, j: int)
    requires
        0 <= j <= s.len(),
        forall|k: int| j <= k < s.len() ==> is_wspace(s[k]),
        j > 0 ==> !is_wspace(s[j - 1]),
    ensures
        drop_trailing_ws(s) == s.take(j),
    decreases s.len() - j,
{
    if j == s.len() {
        assert(s.take(j) =~= s);
    } else {
        assert(is_wspace(s.last()));
        let t = s.drop_last();
        assert(forall|k: int| j <= k < t.len() ==> is_wspace(#[trigger] t[k]));
        lemma_drop_trailing_ws_take(t, j);
        assert(t.take(j) =~= s.take(j));
    }
}

/// Remove leading and trailing whitespace, as `str::trim` does.
pub fn trim_str(s: &str) -> (r: String)
    ensures
        r@ == trim_spec(s@),
{
    let n = s.unicode_len();
    let mut i: usize = 0;
    while i < n && char_is_wspace(s.get_char(i))
        invariant
            n == s@.len(),
            i <= n,
            forall|k: int| 0 <= k < i ==> is_wspace(s@[k]),
        decreases n - i,
    {
        i = i + 1;
    }
    let mut j: usize = n;
    while j > i && char_is_wspace(s.get_char(j - 1))
        invariant
            n == s@.len(),
            i <= j <= n,
            forall|k: int| 0 <= k < i ==> is_wspace(s@[k]),
            forall|k: int| j <= k < n ==> is_wspace(s@[k]),
        decreases j,
    {
        j = j - 1;
    }
    let piece = s.substring_char(i, j);
    proof {
        lemma_drop_leading_ws_skip(s@, i as int);
        if j == i {
            lemma_drop_trailing_ws_take(s@.skip(i as int), 0);
        } else {
            assert(!is_wspace(s@[j - 1]));
            lemma_drop_trailing_ws_take(s@.skip(i as int), j - i);
        }
        assert(s@.skip(i as int).take(j - i) =~= s@.subrange(i as int, j as int));
        assert(piece@ == trim_spec(s@));
    }
    piece.to_owned()
}

/// The first index at or after `p` where `c` occurs in `s`, or `s.len()`
/// when there is none.
pub open spec fn next_occurrence(s: Seq<char>, c: char, p: int) -> int
    decreases s.len() - p,
{
    if p < 0 || p >= s.len() {
        s.len() as int
    } else if s[p] == c {
        p
    } else {
        next_occurrence(s, c, p + 1)
    }
}

/// Properties of [`next_occurrence`]: it stays in range, points at `c` when
/// inside, and nothing before it (from `p` on) is `c`.
pub proof fn lemma_next_occurrence(s: Seq<char>, c: char, p: int)
    requires
        0 <= p <= s.len(),
    ensures
        p <= next_occurrence(s, c, p) <= s.len(),
        next_occurrence(s, c, p) < s.len() ==> s[next_occurrence(s, c, p)] == c,
        forall|k: int| p <= k < next_occurrence(s, c, p) ==> s[k] != c,
    decreases s.len() - p,
{
    if p < s.len() && s[p] != c {
        lemma_next_occurrence(s, c, p + 1);
    }
}

/// Find the first occurrence of `c` in `s` at or after position `from`,
/// returning `s`'s length when there is none.
pub fn find_char_from(s: &str, c: char, from: usize) -> (r: usize)
    requires
        from <= s@.len(),
    ensures
        r == next_occurrence(s@, c, from as int),
{
    let n = s.unicode_len();
    let mut i: usize = from;
    while i < n && s.get_char(i) != c
        invariant
            n == s@.len(),
            from <= i <= n,
            next_occurrence(s@, c, from as int) == next_occurrence(s@, c, i as int),
        decreases n - i,
    {
        i = i + 1;
    }
    proof {
        if i < n {
            assert(next_occurrence(s@, c, i as int) == i);
        }
    }
    i
}

/// The number of whitespace-separated words in `s` from position `p` on;
/// `in_word` tells whether position `p` continues a word already counted.
pub open spec fn word_count_from(s: Seq<char>, p: int, in_word: bool) -> int
    decreases s.len() - p,
{
    if p < 0 || p >= s.len() {
        0
    } else if is_wspace(s[p]) {
        word_count_from(s, p + 1, false)
    } else if in_word {
        word_count_from(s, p + 1, true)
    } else {
        1 + word_count_from(s, p + 1, true)
    }
}

/// The number of whitespace-separated words in `s`, as
/// `str::split_whitespace` would yield them.
pub open spec fn word_count(s: Seq<char>) -> int {
    word_count_from(s, 0, false)
}

/// Count the whitespace-separated words of `s`.
pub fn count_words(s: &str) -> (r: usize)
    ensures
        r == word_count(s@),
{
    let n = s.unicode_len();
    let mut count: usize = 0;
    let mut in_word = false;
    let mut i: usize = 0;
    while i < n
        invariant
            n == s@.len(),
            i <= n,
            count <= i,
            word_count(s@) == count + word_count_from(s@, i as int, in_word),
        decreases n - i,
    {
        if char_is_wspace(s.get_char(i)) {
            in_word = false;
        } else {
            if !in_word {
                count = count + 1;
            }
            in_word = true;
        }
        i = i + 1;
    }
    count
}

/// Compare two string slices character for character.
pub fn str_eq(a: &str, b: &str) -> (r: bool)
    ensures
        r == (a@ == b@),
{
    let n = a.unicode_len();
    let m = b.unicode_len();
    if n != m {
        return false;
    }
    let mut i: usize = 0;
    while i < n
        invariant
            n == a@.len(),
            n == b@.len(),
            i <= n,
            forall|k: int| 0 <= k < i ==> a@[k] == b@[k],
        decreases n - i,
    {
        if a.get_char(i) != b.get_char(i) {
            return false;
        }
        i = i + 1;
    }
    proof {
        assert(a@ =~= b@);
    }
    true
}

/// `s` cut down to `max_width` characters: unchanged when it already fits,
/// otherwise its first `max_width - 3` characters followed by `"..."`.
pub open spec fn truncate_spec(s: Seq<char>, max_width: int) -> Seq<char> {
    if s.len() <= max_width {
        s
    } else {
        s.take(if max_width >= 3 {
            max_width - 3
        } else {
            0
        }) + seq!['.', '.', '.']
    }
}

/// Truncate `text` to fit within `max_width` characters, appending `"..."`
/// when anything had to be cut.
pub fn truncate_text_impl(text: &str, max_width: usize) -> (r: String)
    ensures
        r@ == truncate_spec(text@, max_width as int),
{
    let n = text.unicode_len();
    if n <= max_width {
        text.to_owned()
    } else {
        let keep = if max_width >= 3 {
            max_width - 3
        } else {
            0
        };
        let mut out = text.substring_char(0, keep).to_owned();
        out.push('.');
        out.push('.');
        out.push('.');
        proof {
            assert(text@.subrange(0, keep as int) =~= text@.take(keep as int));
            assert(out@ =~= truncate_spec(text@, max_width as int));
        }
        out
    }
}

/// `s` padded on the right with spaces to at least `width` characters.
pub open spec fn pad_right_spec(s: Seq<char>, width: int) -> Seq<char> {
    if s.len() >= width {
        s
    } else {
        s + Seq::new((width - s.len()) as nat, |i: int| ' ')
    }
}

/// Pad `s` on the right with spaces to at least `width` characters.
pub fn pad_right(s: &str, width: usize) -> (r: String)
    ensures
        r@ == pad_right_spec(s@, width as int),
{
    let n = s.unicode_len();
    let mut out = s.to_owned();
    if n >= width {
        proof {
            assert(out@ =~= pad_right_spec(s@, width as int));
        }
        return out;
    }
    let pad = repeat_char(' ', width - n);
    out.append(pad.as_str());
    proof {
        assert(out@ =~= pad_right_spec(s@, width as int));
    }
    out
}

/// Whether `p` is a prefix of `s`.
pub open spec fn starts_with_spec(s: Seq<char>, p: Seq<char>) -> bool {
    p.len() <= s.len() && s.subrange(0, p.len() as int) == p
}

/// Test whether `s` starts with `prefix`, character for character.
pub fn starts_with(s: &str, prefix: &str) -> (r: bool)
    ensures
        r == starts_with_spec(s@, prefix@),
{
    let n = s.unicode_len();
    let m = prefix.unicode_len();
    if m > n {
        assert(!starts_with_spec(s@, prefix@));
        return false;
    }
    let mut i: usize = 0;
    while i < m
        invariant
            n == s@.len(),
            m == prefix@.len(),
            m <= n,
            i <= m,
            forall|k: int| 0 <= k < i ==> s@[k] == prefix@[k],
        decreases m - i,
    {
        if s.get_char(i) != prefix.get_char(i) {
            assert(s@.subrange(0, m as int)[i as int] != prefix@[i as int]);
            return false;
        }
        i = i + 1;
    }
    proof {
        assert(s@.subrange(0, m as int) =~= prefix@);
    }
    true
}

/// Whether `pat` occurs in `s` starting at position `i`.
pub open spec fn occurs_at(s: Seq<char>, pat: Seq<char>, i: int) -> bool {
    0 <= i && i + pat.len() <= s.len() && s.subrange(i, i + pat.len()) == pat
}

/// Whether `pat` occurs anywhere in `s`.
pub open spec fn contains_spec(s: Seq<char>, pat: Seq<char>) -> bool {
    exists|i: int| occurs_at(s, pat, i)
}

/// Test whether `pat` occurs anywhere in `s`.
pub fn contains_str(s: &str, pat: &str) -> (r: bool)
    ensures
        r == contains_spec(s@, pat@),
{
    let n = s.unicode_len();
    let m = pat.unicode_len();
    if m > n {
        assert(forall|i: int| !occurs_at(s@, pat@, i));
        return false;
    }
    if m == 0 {
        proof {
            assert(s@.subrange(0, 0) =~= pat@);
            assert(occurs_at(s@, pat@, 0));
        }
        return true;
    }
    let mut i: usize = 0;
    while i <= n - m
        invariant
            n == s@.len(),
            m == pat@.len(),
            1 <= m <= n,
            i <= n - m + 1,
            forall|k: int| 0 <= k < i ==> !occurs_at(s@, pat@, k),
        decreases n - i,
    {
        let mut j: usize = 0;
        let mut matched = true;
        while j < m
            invariant
                n == s@.len(),
                m == pat@.len(),
                i + m <= n,
                j <= m,
                matched ==> forall|k: int| 0 <= k < j ==> s@[i + k] == pat@[k],
                !matched ==> !occurs_at(s@, pat@, i as int),
            decreases m - j,
        {
            if s.get_char(i + j) != pat.get_char(j) {
                proof {
                    if occurs_at(s@, pat@, i as int) {
                        assert(s@.subrange(i as int, i + m)[j as int] == pat@[j as int]);
                    }
                }
                matched = false;
                j = m;
            } else {
                j = j + 1;
            }
        }
        if matched {
            proof {
                assert(s@.subrange(i as int, i + m) =~= pat@);
                assert(occurs_at(s@, pat@, i as int));
            }
            return true;
        }
        i = i + 1;
    }
    proof {
        assert forall|k: int| !occurs_at(s@, pat@, k) by {
            if occurs_at(s@, pat@, k) {
                assert(0 <= k < i);
            }
        }
    }
    false
}

/// A line segment with a single trailing carriage return removed, so that
/// lines of text with DOS-style endings read the same as Unix ones.
pub open spec fn strip_cr(l: Seq<char>) -> Seq<char> {
    if l.len() > 0 && l.last() == '\r' {
        l.drop_last()
    } else {
        l
    }
}

/// The lines of `s` from position `p` on: segments between newlines, each
/// with a trailing carriage return removed; a final newline ends the last
/// line rather than opening an empty one.
pub open spec fn lines_from(s: Seq<char>, p: int) -> Seq<Seq<char>>
    decreases s.len() - p,
        via lines_from_decreases
{
    if p < 0 || p >= s.len() {
        Seq::empty()
    } else {
        let i = next_occurrence(s, '\n', p);
        if i >= s.len() {
            seq![s.subrange(p, s.len() as int)]
        } else {
            seq![strip_cr(s.subrange(p, i))] + lines_from(s, i + 1)
        }
    }
}

#[via_fn]
proof fn lines_from_decreases(s: Seq<char>, p: int) {
    if 0 <= p < s.len() {
        lemma_next_occurrence(s, '\n', p);
    }
}

/// The lines of `s`, as `str::lines` yields them.
pub open spec fn lines_spec(s: Seq<char>) -> Seq<Seq<char>> {
    lines_from(s, 0)
}

/// The values of a sequence of strings.
pub open spec fn strings_view(v: Seq<String>) -> Seq<Seq<char>> {
    v.map_values(|s: String| s@)
}

/// Split `s` into lines: segments between newlines, each stripped of one
/// trailing carriage return, with no empty line after a final newline.
pub fn split_lines(s: &str) -> (r: Vec<String>)
    ensures
        strings_view(r@) == lines_spec(s@),
{
    let n = s.unicode_len();
    let mut result: Vec<String> = Vec::new();
    let mut p: usize = 0;
    while p < n
        invariant
            n == s@.len(),
            p <= n,
            lines_spec(s@) =~= strings_view(result@) + lines_from(s@, p as int),
        decreases n - p,
    {
        let i = find_char_from(s, '\n', p);
        proof {
            lemma_next_occurrence(s@, '\n', p as int);
        }
        let end = if i >= n {
            n
        } else {
            i
        };
        let piece = if end > p && s.get_char(end - 1) == '\r' && i < n {
            s.substring_char(p, end - 1)
        } else {
            s.substring_char(p, end)
        };
        result.push(piece.to_owned());
        proof {
            if i < n {
                assert(s@.subrange(p as int, i as int).len() > 0 ==> s@.subrange(
                    p as int,
                    i as int,
                ).last() == s@[i - 1]);
                assert(strip_cr(s@.subrange(p as int, i as int)) =~= piece@);
            } else {
                assert(piece@ =~= s@.subrange(p as int, n as int));
            }
            assert(strings_view(result@) =~= strings_view(result@.drop_last()).push(piece@));
        }
        if i >= n {
            proof {
                assert(lines_from(s@, p as int) =~= seq![piece@]);
                assert(strings_view(result@) + lines_from(s@, n as int) =~= strings_view(
                    result@,
                ));
            }
            p = n;
        } else {
            proof {
                assert(lines_from(s@, p as int) =~= seq![piece@] + lines_from(s@, i + 1));
            }
            p = i + 1;
        }
    }
    proof {
        assert(strings_view(result@) + lines_from(s@, p as int) =~= strings_view(result@));
    }
    result
}

/// The line count of `s`, as `str::lines` counts them.
pub fn count_lines(s: &str) -> (r: usize)
    ensures
        r == lines_spec(s@).len(),
{
    let lines = split_lines(s);
    proof {
        assert(lines@.len() == strings_view(lines@).len());
    }
    lines.len()
}

/// `ls` joined with single newlines between the pieces.
pub open spec fn join_nl(ls: Seq<Seq<char>>) -> Seq<char>
    decreases ls.len(),
{
    if ls.len() == 0 {
        Seq::empty()
    } else if ls.len() == 1 {
        ls[0]
    } else {
        join_nl(ls.drop_last()).push('\n') + ls.last()
    }
}

/// Join `pieces` with single newlines between them.
pub fn join_lines(pieces: &Vec<String>) -> (r: String)
    ensures
        r@ == join_nl(strings_view(pieces@)),
{
    let mut out = String::new();
    let n = pieces.len();
    let mut i: usize = 0;
    while i < n
        invariant
            n == pieces@.len(),
            i <= n,
            out@ == join_nl(strings_view(pieces@).take(i as int)),
        decreases n - i,
    {
        if i > 0 {
            out.push('\n');
        }
        out.append(pieces[i].as_str());
        proof {
            let pv = strings_view(pieces@);
            assert(pv.take(i + 1).drop_last() =~= pv.take(i as int));
            assert(pv.take(i + 1).last() == pv[i as int]);
            if i == 0 {
                assert(out@ =~= join_nl(pv.take(1)));
            } else {
                assert(out@ =~= join_nl(pv.take(i as int)).push('\n') + pv[i as int]);
            }
        }
        i = i + 1;
    }
    proof {
        assert(strings_view(pieces@).take(n as int) =~= strings_view(pieces@));
    }
    out
}

/// The decimal digit character for `d`, which must lie below ten.
pub open spec fn digit_char(d: int) -> char {
    if d == 0 {
        '0'
    } else if d == 1 {
        '1'
    } else if d == 2 {
        '2'
    } else if d == 3 {
        '3'
    } else if d == 4 {
        '4'
    } else if d == 5 {
        '5'
    } else if d == 6 {
        '6'
    } else if d == 7 {
        '7'
    } else if d == 8 {
        '8'
    } else {
        '9'
    }
}

/// The decimal representation of `n`, most significant digit first, with no
/// leading zeros (a single `'0'` for zero).
pub open spec fn dec_rep(n: int) -> Seq<char>
    decreases n,
{
    if n < 10 {
        seq![digit_char(n)]
    } else {
        dec_rep(n / 10).push(digit_char(n % 10))
    }
}

/// Format `n` in decimal.
pub fn usize_to_string(n: usize) -> (r: String)
    ensures
        r@ == dec_rep(n as int),
    decreases n,
{
    let d = n % 10;
    let digit = if d == 0 {
        '0'
    } else if d == 1 {
        '1'
    } else if d == 2 {
        '2'
    } else if d == 3 {
        '3'
    } else if d == 4 {
        '4'
    } else if d == 5 {
        '5'
    } else if d == 6 {
        '6'
    } else if d == 7 {
        '7'
    } else if d == 8 {
        '8'
    } else {
        '9'
    };
    if n < 10 {
        let mut s = String::new();
        s.push(digit);
        proof {
            assert(s@ =~= seq![digit_char(n as int)]);
        }
        s
    } else {
        let mut s = usize_to_string(n / 10);
        s.push(digit);
        s
    }
}

/// `n` copies of `c`.
pub fn repeat_char(c: char, n: usize) -> (r: String)
    ensures
        r@ == Seq::new(n as nat, |i: int| c),
{
    let mut s = String::new();
    let mut i: usize = 0;
    while i < n
        invariant
            i <= n,
            s@ =~= Seq::new(i as nat, |k: int| c),
        decreases n - i,
    {
        s.push(c);
        i = i + 1;
    }
    proof {
        assert(s@ =~= Seq::new(n as nat, |i: int| c));
    }
    s
}

} // verus!

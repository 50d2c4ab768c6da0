//! What the account transcript says: the account's screen name, and whether
//! the two accounts follow each other.
//!
//! The transcript is JSON text. The screen name is the text between
//! `"screen_name":"` and the next `"`, at the first place where that text is
//! not empty. The accounts follow each other when the text holds
//! `"followed_by":` `true` `,` `"following":` `true`, in that order, with
//! nothing but white space (Unicode `White_Space`) between the pieces.
use vstd::prelude::*;

use crate::text::push_char;

verus! {

broadcast use vstd::seq::group_seq_axioms;

/// `pat` occurs in `t` at position `i`.
pub open spec fn occurs_at(t: Seq<char>, pat: Seq<char>, i: int) -> bool {
    0 <= i && i + pat.len() <= t.len() && t.subrange(i, i + pat.len()) == pat
}

/// `"screen_name":"`
pub open spec fn screen_name_key() -> Seq<char> {
    seq!['"', 's', 'c', 'r', 'e', 'e', 'n', '_', 'n', 'a', 'm', 'e', '"', ':', '"']
}

/// `"followed_by":`
pub open spec fn followed_by_key() -> Seq<char> {
    seq!['"', 'f', 'o', 'l', 'l', 'o', 'w', 'e', 'd', '_', 'b', 'y', '"', ':']
}

/// `"following":`
pub open spec fn following_key() -> Seq<char> {
    seq!['"', 'f', 'o', 'l', 'l', 'o', 'w', 'i', 'n', 'g', '"', ':']
}

/// `true`
pub open spec fn true_word() -> Seq<char> {
    seq!['t', 'r', 'u', 'e']
}

/// `,`
pub open spec fn comma() -> Seq<char> {
    seq![',']
}

/// The screen name key starts at `i`, and the name runs from its end up to
/// the quote at `j`: at least one character, none of them a quote.
pub open spec fn name_capture_at(t: Seq<char>, i: int, j: int) -> bool {
    &&& occurs_at(t, screen_name_key(), i)
    &&& i + 15 < j < t.len()
    &&& t[j] == '"'
    &&& forall|k: int| i + 15 <= k < j ==> t[k] != '"'
}

/// The capture at `i`, `j` is the first one in the text.
pub open spec fn first_name_capture(t: Seq<char>, i: int, j: int) -> bool {
    &&& name_capture_at(t, i, j)
    &&& forall|i2: int, j2: int| 0 <= i2 < i ==> !name_capture_at(t, i2, j2)
}

/// If the text has a screen-name capture, it has a first one.
proof fn lemma_first_capture_exists(t: Seq<char>, i: int, j: int)
    requires
        name_capture_at(t, i, j),
    ensures
        exists|i2: int, j2: int| first_name_capture(t, i2, j2),
    decreases i,
{
    if exists|i2: int, j2: int| 0 <= i2 < i && name_capture_at(t, i2, j2) {
        let (i2, j2) = choose|i2: int, j2: int| 0 <= i2 < i && name_capture_at(t, i2, j2);
        lemma_first_capture_exists(t, i2, j2);
    } else {
        assert(first_name_capture(t, i, j));
    }
}

/// The screen name that the transcript `t` gives, if any.
pub open spec fn spec_screen_name(t: Seq<char>) -> Option<Seq<char>> {
    if exists|i: int, j: int| name_capture_at(t, i, j) {
        let (i, j) = choose|i: int, j: int| first_name_capture(t, i, j);
        Some(t.subrange(i + 15, j))
    } else {
        None
    }
}

/// Unicode white space, as `\s` matches it.
pub open spec fn is_space(c: char) -> bool {
    ||| '\t' <= c <= '\r'
    ||| c == ' '
    ||| c == '\u{85}'
    ||| c == '\u{a0}'
    ||| c == '\u{1680}'
    ||| '\u{2000}' <= c <= '\u{200a}'
    ||| c == '\u{2028}'
    ||| c == '\u{2029}'
    ||| c == '\u{202f}'
    ||| c == '\u{205f}'
    ||| c == '\u{3000}'
}

/// Every character of `t` in `[from, to)` is white space.
pub open spec fn spaces(t: Seq<char>, from: int, to: int) -> bool {
    forall|k: int| from <= k < to ==> is_space(#[trigger] t[k])
}

/// The follow statement starts at `i`, with white-space runs of lengths `a`,
/// `b`, `c`, `d` between its pieces.
pub open spec fn follow_match(t: Seq<char>, i: int, a: int, b: int, c: int, d: int) -> bool {
    let p1 = i + 14 + a;
    let p2 = p1 + 4 + b;
    let p3 = p2 + 1 + c;
    let p4 = p3 + 12 + d;
    &&& 0 <= a && 0 <= b && 0 <= c && 0 <= d
    &&& occurs_at(t, followed_by_key(), i)
    &&& spaces(t, i + 14, p1)
    &&& occurs_at(t, true_word(), p1)
    &&& spaces(t, p1 + 4, p2)
    &&& occurs_at(t, comma(), p2)
    &&& spaces(t, p2 + 1, p3)
    &&& occurs_at(t, following_key(), p3)
    &&& spaces(t, p3 + 12, p4)
    &&& occurs_at(t, true_word(), p4)
}

/// The follow statement starts at `i`.
pub open spec fn follow_at(t: Seq<char>, i: int) -> bool {
    exists|a: int, b: int, c: int, d: int| follow_match(t, i, a, b, c, d)
}

/// The transcript `t` says that the two accounts follow each other.
pub open spec fn spec_mutual_follow(t: Seq<char>) -> bool {
    exists|i: int| follow_at(t, i)
}

fn is_space_exec(c: char) -> (res: bool)
    ensures
        res == is_space(c),
{
    ('\t' <= c && c <= '\r') || c == ' ' || c == '\u{85}' || c == '\u{a0}' || c == '\u{1680}'
        || ('\u{2000}' <= c && c <= '\u{200a}') || c == '\u{2028}' || c == '\u{2029}' || c
        == '\u{202f}' || c == '\u{205f}' || c == '\u{3000}'
}

/// Whether `pat` occurs in `t` at `i`.
fn occurs_at_exec(t: &[char], pat: &[char], i: usize) -> (res: bool)
    ensures
        res == occurs_at(t@, pat@, i as int),
{
    if i > t.len() || pat.len() > t.len() - i {
        return false;
    }
    let mut k: usize = 0;
    while k < pat.len()
        invariant
            i + pat@.len() <= t@.len(),
            t@.len() == t.len(),
            pat@.len() == pat.len(),
            k <= pat@.len(),
            forall|m: int| 0 <= m < k ==> t@[i + m] == pat@[m],
        decreases pat@.len() - k,
    {
        if t[i + k] != pat[k] {
            assert(t@.subrange(i as int, i + pat@.len())[k as int] != pat@[k as int]);
            return false;
        }
        k += 1;
    }
    assert(t@.subrange(i as int, i + pat@.len()) =~= pat@);
    true
}

/// The first position at or after `from` that holds no white space (or the end).
fn skip_spaces(t: &[char], from: usize) -> (res: usize)
    requires
        from <= t@.len(),
    ensures
        from <= res <= t@.len(),
        spaces(t@, from as int, res as int),
        res == t@.len() || !is_space(t@[res as int]),
{
    let mut j = from;
    while j < t.len() && is_space_exec(t[j])
        invariant
            from <= j <= t@.len(),
            spaces(t@, from as int, j as int),
        decreases t@.len() - j,
    {
        j += 1;
    }
    j
}

/// A white-space run that ends where a piece that starts with no white space
/// begins is the whole run up to the first non-space character.
proof fn lemma_run_end(t: Seq<char>, s: int, j: int, a: int, lit: Seq<char>)
    requires
        s <= j <= t.len(),
        0 <= a,
        spaces(t, s, j),
        j == t.len() || !is_space(t[j]),
        spaces(t, s, s + a),
        occurs_at(t, lit, s + a),
        lit.len() > 0,
        !is_space(lit[0]),
    ensures
        j == s + a,
{
    assert(t[s + a] == t.subrange(s + a, s + a + lit.len())[0]);
    if j < s + a {
        assert(is_space(t[j]));
    } else if j > s + a {
        assert(is_space(t[s + a]));
    }
}

/// Whether the follow statement starts at `i`.
fn follow_at_exec(t: &[char], i: usize) -> (res: bool)
    ensures
        res == follow_at(t@, i as int),
{
    let fb = vec!['"', 'f', 'o', 'l', 'l', 'o', 'w', 'e', 'd', '_', 'b', 'y', '"', ':'];
    let fg = vec!['"', 'f', 'o', 'l', 'l', 'o', 'w', 'i', 'n', 'g', '"', ':'];
    let tw = vec!['t', 'r', 'u', 'e'];
    let cm = vec![','];
    assert(fb@ == followed_by_key());
    assert(fg@ == following_key());
    assert(tw@ == true_word());
    assert(cm@ == comma());
    assert(fb@.len() == 14 && fg@.len() == 12 && tw@.len() == 4 && cm@.len() == 1);
    let ghost tt = t@;
    let ghost ii = i as int;
    assert(!is_space('t') && !is_space(',') && !is_space('"'));
    assert(true_word()[0] == 't' && comma()[0] == ',' && following_key()[0] == '"');

    let n = t.len();
    assert(n == tt.len());
    if !occurs_at_exec(t, fb.as_slice(), i) {
        return false;
    }
    assert(i + 14 <= n);
    let s1 = i + 14;
    let p1 = skip_spaces(t, s1);
    if !occurs_at_exec(t, tw.as_slice(), p1) {
        assert forall|a: int, b: int, c: int, d: int| !follow_match(tt, ii, a, b, c, d) by {
            if follow_match(tt, ii, a, b, c, d) {
                lemma_run_end(tt, s1 as int, p1 as int, a, true_word());
            }
        }
        return false;
    }
    let s2 = p1 + 4;
    let p2 = skip_spaces(t, s2);
    if !occurs_at_exec(t, cm.as_slice(), p2) {
        assert forall|a: int, b: int, c: int, d: int| !follow_match(tt, ii, a, b, c, d) by {
            if follow_match(tt, ii, a, b, c, d) {
                lemma_run_end(tt, s1 as int, p1 as int, a, true_word());
                lemma_run_end(tt, s2 as int, p2 as int, b, comma());
            }
        }
        return false;
    }
    let s3 = p2 + 1;
    let p3 = skip_spaces(t, s3);
    if !occurs_at_exec(t, fg.as_slice(), p3) {
        assert forall|a: int, b: int, c: int, d: int| !follow_match(tt, ii, a, b, c, d) by {
            if follow_match(tt, ii, a, b, c, d) {
                lemma_run_end(tt, s1 as int, p1 as int, a, true_word());
                lemma_run_end(tt, s2 as int, p2 as int, b, comma());
                lemma_run_end(tt, s3 as int, p3 as int, c, following_key());
            }
        }
        return false;
    }
    let s4 = p3 + 12;
    let p4 = skip_spaces(t, s4);
    if !occurs_at_exec(t, tw.as_slice(), p4) {
        assert forall|a: int, b: int, c: int, d: int| !follow_match(tt, ii, a, b, c, d) by {
            if follow_match(tt, ii, a, b, c, d) {
                lemma_run_end(tt, s1 as int, p1 as int, a, true_word());
                lemma_run_end(tt, s2 as int, p2 as int, b, comma());
                lemma_run_end(tt, s3 as int, p3 as int, c, following_key());
                lemma_run_end(tt, s4 as int, p4 as int, d, true_word());
            }
        }
        return false;
    }
    assert(follow_match(tt, ii, p1 - s1, p2 - s2, p3 - s3, p4 - s4));
    true
}

/// Whether the transcript says that the two accounts follow each other.
pub fn mutual_follow(text: &str) -> (res: bool)
    ensures
        res == spec_mutual_follow(text@),
{
    let chars = crate::text::chars_of(text);
    let t = chars.as_slice();
    let mut i: usize = 0;
    while i < t.len()
        invariant
            t@ == text@,
            i <= t@.len(),
            forall|i2: int| 0 <= i2 < i ==> !follow_at(t@, i2),
        decreases t@.len() - i,
    {
        if follow_at_exec(t, i) {
            return true;
        }
        i += 1;
    }
    assert forall|i2: int| !follow_at(t@, i2) by {
        if follow_at(t@, i2) {
            let (a, b, c, d) = choose|a: int, b: int, c: int, d: int| follow_match(t@, i2, a, b, c, d);
            assert(occurs_at(t@, followed_by_key(), i2));
        }
    }
    false
}

/// The position of the first screen-name capture in `t`, if there is one.
fn find_screen_name(t: &[char]) -> (res: Option<(usize, usize)>)
    ensures
        match res {
            Some((i, j)) => first_name_capture(t@, i as int, j as int),
            None => forall|i: int, j: int| !name_capture_at(t@, i, j),
        },
{
    let key = vec!['"', 's', 'c', 'r', 'e', 'e', 'n', '_', 'n', 'a', 'm', 'e', '"', ':', '"'];
    assert(key@ == screen_name_key());
    let n = t.len();
    let mut i: usize = 0;
    while i < n
        invariant
            n == t@.len(),
            i <= n,
            key@ == screen_name_key(),
            forall|i2: int, j2: int| 0 <= i2 < i ==> !name_capture_at(t@, i2, j2),
        decreases n - i,
    {
        if occurs_at_exec(t, key.as_slice(), i) {
            let start = i + 15;
            let mut j = start;
            while j < n && t[j] != '"'
                invariant
                    n == t@.len(),
                    start <= j <= n,
                    forall|k: int| start <= k < j ==> t@[k] != '"',
                decreases n - j,
            {
                j += 1;
            }
            if j < n && j > start {
                return Some((i, j));
            }
            assert forall|j2: int| !name_capture_at(t@, i as int, j2) by {
                if name_capture_at(t@, i as int, j2) {
                    if j == n {
                        assert(t@[j2] != '"');
                    } else {
                        assert(t@[start as int] == '"');
                    }
                }
            }
        }
        i += 1;
    }
    assert forall|i2: int, j2: int| !name_capture_at(t@, i2, j2) by {
        if name_capture_at(t@, i2, j2) {
            assert(occurs_at(t@, screen_name_key(), i2));
        }
    }
    None
}

/// The first capture of the text is unique.
proof fn lemma_first_capture_unique(t: Seq<char>, i: int, j: int, i2: int, j2: int)
    requires
        first_name_capture(t, i, j),
        first_name_capture(t, i2, j2),
    ensures
        i == i2 && j == j2,
{
    if i < i2 {
        assert(!name_capture_at(t, i, j));
    } else if i2 < i {
        assert(!name_capture_at(t, i2, j2));
    } else {
        if j < j2 {
            assert(t[j] != '"');
        } else if j2 < j {
            assert(t[j2] != '"');
        }
    }
}

/// The account's screen name in the transcript, if it gives one.
pub fn screen_name(text: &str) -> (res: Option<String>)
    ensures
        match res {
            Some(name) => spec_screen_name(text@) == Some(name@),
            None => spec_screen_name(text@) is None,
        },
{
    let chars = crate::text::chars_of(text);
    let t = chars.as_slice();
    match find_screen_name(t) {
        None => None,
        Some((i, j)) => {
            let mut name = String::new();
            let mut k = i + 15;
            while k < j
                invariant
                    t@ == text@,
                    i + 15 <= k <= j < t@.len(),
                    name@ == t@.subrange(i + 15, k as int),
                decreases j - k,
            {
                push_char(&mut name, t[k]);
                assert(t@.subrange(i + 15, k + 1) =~= t@.subrange(i + 15, k as int).push(t@[k as int]));
                k += 1;
            }
            proof {
                let (ci, cj) = choose|ci: int, cj: int| first_name_capture(t@, ci, cj);
                lemma_first_capture_unique(t@, i as int, j as int, ci, cj);
            }
            Some(name)
        },
    }
}

/// The text captured at `i`, `j` has the shape of a screen name.
proof fn lemma_capture_shape(t: Seq<char>, i: int, j: int)
    requires
        name_capture_at(t, i, j),
    ensures
        t.subrange(i + 15, j).len() > 0,
        !t.subrange(i + 15, j).contains('"'),
        occurs_at(t, screen_name_key() + t.subrange(i + 15, j) + seq!['"'], i),
{
    let name = t.subrange(i + 15, j);
    assert forall|k: int| 0 <= k < name.len() implies name[k] != '"' by {
        assert(name[k] == t[i + 15 + k]);
    }
    let whole = screen_name_key() + name + seq!['"'];
    let key_part = t.subrange(i, i + 15);
    assert(key_part == screen_name_key());
    assert forall|k: int| 0 <= k < whole.len() implies #[trigger] t.subrange(i, i + whole.len())[k] == whole[k] by {
        if k < 15 {
            assert(key_part[k] == t[i + k]);
        }
    }
    assert(t.subrange(i, i + whole.len()) =~= whole);
}

/// A screen name that a transcript gives is not empty, holds no quote, and
/// stands in the text right after `"screen_name":"` and right before a quote.
pub proof fn law_screen_name_shape(t: Seq<char>)
    ensures
        spec_screen_name(t) matches Some(name) ==> {
            &&& name.len() > 0
            &&& !name.contains('"')
            &&& exists|i: int| occurs_at(t, screen_name_key() + name + seq!['"'], i)
        },
{
    if exists|i: int, j: int| name_capture_at(t, i, j) {
        let (i0, j0) = choose|i: int, j: int| name_capture_at(t, i, j);
        lemma_first_capture_exists(t, i0, j0);
        let (i, j) = choose|i: int, j: int| first_name_capture(t, i, j);
        lemma_capture_shape(t, i, j);
        assert(spec_screen_name(t) == Some(t.subrange(i + 15, j)));
    }
}

/// Wherever the text holds `"screen_name":"`, then one or more characters
/// none of which is a quote, then a quote, the transcript gives a screen name
/// (whatever the characters are).
pub proof fn law_screen_name_found(t: Seq<char>, i: int, name: Seq<char>)
    requires
        name.len() > 0,
        forall|k: int| 0 <= k < name.len() ==> name[k] != '"',
        occurs_at(t, screen_name_key() + name + seq!['"'], i),
    ensures
        spec_screen_name(t) is Some,
{
    let whole = screen_name_key() + name + seq!['"'];
    let j = i + 15 + name.len();
    assert(t.subrange(i, i + whole.len()) == whole);
    assert forall|k: int| 0 <= k < 15 implies t.subrange(i, i + 15)[k] == screen_name_key()[k] by {
        assert(t.subrange(i, i + whole.len())[k] == whole[k]);
    }
    assert(t.subrange(i, i + 15) =~= screen_name_key());
    assert forall|k: int| i + 15 <= k < j implies t[k] != '"' by {
        assert(t.subrange(i, i + whole.len())[k - i] == whole[k - i]);
        assert(whole[k - i] == name[k - i - 15]);
    }
    assert(t.subrange(i, i + whole.len())[whole.len() - 1] == whole[whole.len() - 1]);
    assert(t[j] == '"');
    assert(name_capture_at(t, i, j));
}

/// The white space of the follow statement is exactly Unicode `White_Space`:
/// U+0009 to U+000D, U+0020, U+0085, U+00A0, U+1680, U+2000 to U+200A,
/// U+2028, U+2029, U+202F, U+205F and U+3000.
pub proof fn law_white_space_code_points(c: char)
    ensures
        is_space(c) <==> {
            let u = c as u32;
            ||| 0x9 <= u <= 0xd
            ||| u == 0x20
            ||| u == 0x85
            ||| u == 0xa0
            ||| u == 0x1680
            ||| 0x2000 <= u <= 0x200a
            ||| u == 0x2028
            ||| u == 0x2029
            ||| u == 0x202f
            ||| u == 0x205f
            ||| u == 0x3000
        },
{
}

/// An occurrence of `a + b` is an occurrence of `a` followed by one of `b`.
proof fn lemma_occurs_split(t: Seq<char>, a: Seq<char>, b: Seq<char>, i: int)
    requires
        occurs_at(t, a + b, i),
    ensures
        occurs_at(t, a, i),
        occurs_at(t, b, i + a.len()),
{
    let ab = a + b;
    assert forall|k: int| 0 <= k < a.len() implies t.subrange(i, i + a.len())[k] == a[k] by {
        assert(t.subrange(i, i + ab.len())[k] == ab[k]);
    }
    assert(t.subrange(i, i + a.len()) =~= a);
    assert forall|k: int| 0 <= k < b.len() implies t.subrange(i + a.len(), i + a.len() + b.len())[k] == b[k] by {
        assert(t.subrange(i, i + ab.len())[a.len() + k] == ab[a.len() + k]);
    }
    assert(t.subrange(i + a.len(), i + a.len() + b.len()) =~= b);
}

/// An occurrence of a run of white space is white space in the text.
proof fn lemma_occurs_spaces(t: Seq<char>, w: Seq<char>, i: int)
    requires
        occurs_at(t, w, i),
        forall|k: int| 0 <= k < w.len() ==> is_space(#[trigger] w[k]),
    ensures
        spaces(t, i, i + w.len()),
{
    assert forall|k: int| i <= k < i + w.len() implies is_space(#[trigger] t[k]) by {
        assert(t.subrange(i, i + w.len())[k - i] == w[k - i]);
    }
}

/// Wherever the text holds `"followed_by":`, `true`, `,`, `"following":`,
/// `true` in that order with only white space between them, the transcript
/// says that the two accounts follow each other.
pub proof fn law_mutual_follow_found(
    t: Seq<char>,
    i: int,
    w1: Seq<char>,
    w2: Seq<char>,
    w3: Seq<char>,
    w4: Seq<char>,
)
    requires
        forall|k: int| 0 <= k < w1.len() ==> is_space(#[trigger] w1[k]),
        forall|k: int| 0 <= k < w2.len() ==> is_space(#[trigger] w2[k]),
        forall|k: int| 0 <= k < w3.len() ==> is_space(#[trigger] w3[k]),
        forall|k: int| 0 <= k < w4.len() ==> is_space(#[trigger] w4[k]),
        occurs_at(
            t,
            followed_by_key() + w1 + true_word() + w2 + comma() + w3 + following_key() + w4 + true_word(),
            i,
        ),
    ensures
        spec_mutual_follow(t),
{
    let s1 = followed_by_key() + w1;
    let s2 = s1 + true_word();
    let s3 = s2 + w2;
    let s4 = s3 + comma();
    let s5 = s4 + w3;
    let s6 = s5 + following_key();
    let s7 = s6 + w4;
    lemma_occurs_split(t, s7, true_word(), i);
    lemma_occurs_split(t, s6, w4, i);
    lemma_occurs_split(t, s5, following_key(), i);
    lemma_occurs_split(t, s4, w3, i);
    lemma_occurs_split(t, s3, comma(), i);
    lemma_occurs_split(t, s2, w2, i);
    lemma_occurs_split(t, s1, true_word(), i);
    lemma_occurs_split(t, followed_by_key(), w1, i);
    lemma_occurs_spaces(t, w1, i + 14);
    lemma_occurs_spaces(t, w2, i + s2.len());
    lemma_occurs_spaces(t, w3, i + s4.len());
    lemma_occurs_spaces(t, w4, i + s6.len());
    assert(follow_match(t, i, w1.len() as int, w2.len() as int, w3.len() as int, w4.len() as int));
    assert(follow_at(t, i));
}

/// The screen name that a transcript gives is taken at the first place where
/// `"screen_name":"`, a non-empty run of non-quote characters and a quote
/// stand: no such place comes earlier.
pub proof fn law_screen_name_is_first(t: Seq<char>, i2: int, name2: Seq<char>)
    requires
        name2.len() > 0,
        forall|k: int| 0 <= k < name2.len() ==> name2[k] != '"',
        occurs_at(t, screen_name_key() + name2 + seq!['"'], i2),
    ensures
        spec_screen_name(t) is Some,
        exists|i: int| i <= i2 && occurs_at(t, screen_name_key() + spec_screen_name(t)->0 + seq!['"'], i),
{
    law_screen_name_found(t, i2, name2);
    let j2 = i2 + 15 + name2.len();
    lemma_occurs_split(t, screen_name_key() + name2, seq!['"'], i2);
    lemma_occurs_split(t, screen_name_key(), name2, i2);
    assert forall|k: int| i2 + 15 <= k < j2 implies t[k] != '"' by {
        assert(t.subrange(i2 + 15, i2 + 15 + name2.len())[k - i2 - 15] == name2[k - i2 - 15]);
    }
    assert(t.subrange(j2, j2 + 1)[0] == '"');
    assert(name_capture_at(t, i2, j2));
    lemma_first_capture_exists(t, i2, j2);
    let (i, j) = choose|i: int, j: int| first_name_capture(t, i, j);
    lemma_capture_shape(t, i, j);
    assert(i <= i2);
    let name = t.subrange(i + 15, j);
    assert(spec_screen_name(t) == Some(name));
    assert(occurs_at(t, screen_name_key() + name + seq!['"'], i));
    assert(spec_screen_name(t)->0 == name);
    assert(occurs_at(t, screen_name_key() + spec_screen_name(t)->0 + seq!['"'], i));
}

} // verus!

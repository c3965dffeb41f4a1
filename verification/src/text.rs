//! Verified text utilities: substring search, line splitting, and a
//! few small string manipulations.

use vstd::prelude::*;
use vstd::string::*;

verus! {

/// `needle` occurs as a contiguous run of characters inside `hay`.
pub open spec fn spec_contains(hay: Seq<char>, needle: Seq<char>) -> bool {
    exists|i: int|
        0 <= i && i + needle.len() <= hay.len() && #[trigger] hay.subrange(i, i + needle.len())
            == needle
}

/// Position of the first occurrence of `c` in `s`, or `s.len()` when
/// `c` does not occur.
pub open spec fn first_index(s: Seq<char>, c: char) -> nat
    decreases s.len(),
{
    if s.len() == 0 {
        0
    } else if s[0] == c {
        0
    } else {
        1 + first_index(s.drop_first(), c)
    }
}

/// What `first_index` returns: a position within `s` with no `c`
/// before it, and `c` at it unless it is `s.len()`.
pub proof fn lemma_first_index(s: Seq<char>, c: char)
    ensures
        first_index(s, c) <= s.len(),
        forall|j: int| 0 <= j < first_index(s, c) ==> s[j] != c,
        first_index(s, c) < s.len() ==> s[first_index(s, c) as int] == c,
    decreases s.len(),
{
    if s.len() == 0 {
    } else if s[0] == c {
    } else {
        lemma_first_index(s.drop_first(), c);
        assert forall|j: int| 0 <= j < first_index(s, c) implies s[j] != c by {
            if j > 0 {
                assert(s.drop_first()[j - 1] == s[j]);
            }
        }
    }
}

/// A line with one trailing carriage return removed, as the line
/// splitter strips it when it stood directly before a line feed.
pub open spec fn strip_cr(l: Seq<char>) -> Seq<char> {
    if l.len() > 0 && l[l.len() - 1] == '\r' {
        l.drop_last()
    } else {
        l
    }
}

/// The lines of `s`: maximal runs split at each line feed, with a
/// carriage return directly before the line feed stripped. A line end
/// at the very end of the text closes its line without opening an
/// empty one.
pub open spec fn spec_lines(s: Seq<char>) -> Seq<Seq<char>>
    decreases s.len(),
{
    if s.len() == 0 {
        Seq::empty()
    } else {
        let i = first_index(s, '\n');
        if i >= s.len() {
            seq![s]
        } else {
            seq![strip_cr(s.subrange(0, i as int))] + spec_lines(
                s.subrange(i as int + 1, s.len() as int),
            )
        }
    }
}

/// The character sequences behind a sequence of owned strings.
pub open spec fn views_of(v: Seq<String>) -> Seq<Seq<char>> {
    v.map_values(|s: String| s@)
}

/// Splits `s` into its lines, handing each line out as an owned string.
pub fn split_lines(s: &str) -> (lines: Vec<String>)
    ensures
        views_of(lines@) == spec_lines(s@),
{
    let h = s.unicode_len();
    let mut lines: Vec<String> = Vec::new();
    let mut start: usize = 0;
    let mut i: usize = 0;
    proof {
        assert(s@.subrange(0, h as int) =~= s@);
        assert(views_of(lines@) + spec_lines(s@.subrange(0, h as int)) =~= spec_lines(s@));
    }
    while i < h
        invariant
            h == s@.len(),
            start <= i <= h,
            forall|k: int| start <= k < i ==> s@[k] != '\n',
            views_of(lines@) + spec_lines(s@.subrange(start as int, h as int)) == spec_lines(s@),
        decreases h - i,
    {
        if s.get_char(i) == '\n' {
            let line = if i > start && s.get_char(i - 1) == '\r' {
                s.substring_char(start, i - 1)
            } else {
                s.substring_char(start, i)
            };
            proof {
                let rest = s@.subrange(start as int, h as int);
                lemma_first_index(rest, '\n');
                assert(rest[i - start] == s@[i as int]);
                assert(first_index(rest, '\n') == i - start) by {
                    if first_index(rest, '\n') < i - start {
                        assert(s@[start + first_index(rest, '\n')] == rest[first_index(
                            rest,
                            '\n',
                        ) as int]);
                    }
                }
                assert(rest.subrange(0, (i - start) as int) =~= s@.subrange(
                    start as int,
                    i as int,
                ));
                assert(rest.subrange(i - start + 1, rest.len() as int) =~= s@.subrange(
                    i + 1,
                    h as int,
                ));
                if i > start && s@[i - 1] == '\r' {
                    assert(strip_cr(s@.subrange(start as int, i as int)) =~= s@.subrange(
                        start as int,
                        i - 1,
                    ));
                } else {
                    assert(strip_cr(s@.subrange(start as int, i as int)) =~= s@.subrange(
                        start as int,
                        i as int,
                    ));
                }
            }
            let owned = line.to_owned();
            lines.push(owned);
            proof {
                assert(views_of(lines@) + spec_lines(s@.subrange(i + 1, h as int)) =~= spec_lines(
                    s@,
                ));
            }
            start = i + 1;
        }
        i += 1;
    }
    if start < h {
        let line = s.substring_char(start, h);
        proof {
            let rest = s@.subrange(start as int, h as int);
            lemma_first_index(rest, '\n');
            assert(first_index(rest, '\n') == rest.len()) by {
                if first_index(rest, '\n') < rest.len() {
                    assert(s@[start + first_index(rest, '\n')] == rest[first_index(
                        rest,
                        '\n',
                    ) as int]);
                }
            }
            assert(line@ =~= rest);
        }
        lines.push(line.to_owned());
        proof {
            assert(views_of(lines@) =~= spec_lines(s@));
        }
    } else {
        proof {
            assert(s@.subrange(start as int, h as int).len() == 0);
            assert(views_of(lines@) =~= spec_lines(s@));
        }
    }
    lines
}

/// Whether `needle` starts at offset `at` of `hay`.
fn matches_at(hay: &str, needle: &str, at: usize, n: usize) -> (r: bool)
    requires
        n == needle@.len(),
        at + n <= hay@.len(),
        hay@.len() <= usize::MAX,
    ensures
        r == (hay@.subrange(at as int, at + needle@.len()) == needle@),
{
    let mut j: usize = 0;
    while j < n
        invariant
            n == needle@.len(),
            at + n <= hay@.len(),
            hay@.len() <= usize::MAX,
            j <= n,
            forall|k: int| 0 <= k < j ==> hay@[at + k] == needle@[k],
        decreases n - j,
    {
        if hay.get_char(at + j) != needle.get_char(j) {
            proof {
                assert(hay@.subrange(at as int, at + needle@.len())[j as int] == hay@[at + j]);
            }
            return false;
        }
        j += 1;
    }
    proof {
        assert(hay@.subrange(at as int, at + needle@.len()) =~= needle@);
    }
    true
}

/// Whether `needle` occurs anywhere inside `hay`.
pub fn str_contains(hay: &str, needle: &str) -> (r: bool)
    ensures
        r == spec_contains(hay@, needle@),
{
    let h = hay.unicode_len();
    let n = needle.unicode_len();
    if n > h {
        return false;
    }
    if n == 0 {
        proof {
            assert(hay@.subrange(0, 0 + needle@.len() as int) =~= needle@);
        }
        return true;
    }
    let mut i: usize = 0;
    while i <= h - n
        invariant
            h == hay@.len(),
            n == needle@.len(),
            1 <= n <= h,
            i <= h - n + 1,
            forall|k: int| 0 <= k < i ==> #[trigger] hay@.subrange(k, k + needle@.len())
                != needle@,
        decreases h - n + 1 - i,
    {
        if matches_at(hay, needle, i, n) {
            proof {
                assert(0 <= i as int && i as int + needle@.len() <= hay@.len()
                    && hay@.subrange(i as int, i as int + needle@.len()) == needle@);
            }
            return true;
        }
        i += 1;
    }
    false
}

/// The lower-case form of a sequence of characters, exactly as the
/// standard library's case folding produces it.
pub uninterp spec fn lower_of(s: Seq<char>) -> Seq<char>;

/// Relies on `str::to_lowercase`: the result is a function of the
/// characters of `s` alone.
#[verifier::external_body]
pub(crate) fn lowercase(s: &str) -> (r: String)
    ensures
        r@ == lower_of(s@),
        s@.len() == 0 ==> r@.len() == 0,
{
    s.to_lowercase()
}

/// The first word of `s`: everything before the first space, or all of
/// `s` when it holds no space.
pub fn first_word(s: &String) -> (r: &str)
    ensures
        r@ == s@.subrange(0, first_index(s@, ' ') as int),
{
    let text = s.as_str();
    let h = text.unicode_len();
    let mut i: usize = 0;
    while i < h
        invariant
            text@ == s@,
            h == text@.len(),
            i <= h,
            forall|k: int| 0 <= k < i ==> text@[k] != ' ',
        decreases h - i,
    {
        if text.get_char(i) == ' ' {
            proof {
                lemma_first_index(text@, ' ');
                assert(first_index(text@, ' ') == i) by {
                    if first_index(text@, ' ') < i {
                        assert(text@[first_index(text@, ' ') as int] == ' ');
                    }
                }
            }
            return text.substring_char(0, i);
        }
        i += 1;
    }
    proof {
        lemma_first_index(text@, ' ');
        assert(first_index(text@, ' ') == h) by {
            if first_index(text@, ' ') < h {
                assert(text@[first_index(text@, ' ') as int] == ' ');
            }
        }
        assert(text@.subrange(0, h as int) =~= text@);
    }
    text.substring_char(0, h)
}

/// Of two string slices, the one with the greater byte length; ties go
/// to the second.
pub fn longest<'a>(x: &'a str, y: &'a str) -> (r: &'a str)
    ensures
        r@ == if x.spec_bytes().len() > y.spec_bytes().len() {
            x@
        } else {
            y@
        },
{
    broadcast use vstd::slice::axiom_spec_len;

    let val = x.as_bytes().len() > y.as_bytes().len();
    match val {
        true => x,
        false => y,
    }
}

/// Tacks a fixed suffix onto the string behind the mutable reference.
pub fn append(s: &mut String)
    ensures
        final(s)@ == old(s)@ + " appended"@,
{
    s.append(" appended");
}

/// The length of `s` in bytes of its character encoding.
pub fn compute_length(s: &String) -> (l: usize)
    ensures
        l == vstd::utf8::encode_utf8(s@).len(),
{
    broadcast use vstd::slice::axiom_spec_len;

    s.as_str().as_bytes().len()
}

/// Hands a freshly allocated greeting to the caller.
pub fn gives_ownership() -> (r: String)
    ensures
        r@ == "hello"@,
{
    String::from_str("hello")
}

/// Takes ownership of a string and immediately hands it back.
pub fn takes_and_gives_back(s: String) -> (r: String)
    ensures
        r == s,
{
    s
}

/// Hands a borrowed slice straight back.
pub fn noop(s: &str) -> (r: &str)
    ensures
        r@ == s@,
{
    s
}

/// Holds a borrowed slice; the holder cannot outlive what it borrows.
pub struct ReferenceHolder<'a> {
    pub reference: &'a str,
}

impl<'a> ReferenceHolder<'a> {
    /// A constant probe for the borrow-lifetime exercises.
    pub fn rule_one(&self) -> (r: i32)
        ensures
            r == 5,
    {
        5
    }
}

} // verus!

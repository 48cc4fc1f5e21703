//! Character-level string utilities: equality, decimal rendering of
//! counters and offsets, and splitting file contents into lines the way
//! the line-oriented operations consume them.

use vstd::prelude::*;
use vstd::string::*;

verus! {

/// The views of a sequence of owned strings, index by index.
pub open spec fn views_of(lines: Seq<String>) -> Seq<Seq<char>> {
    Seq::new(lines.len(), |i: int| lines[i]@)
}

/// Appending one string appends its view.
pub proof fn lemma_views_of_push(v: Seq<String>, s: String)
    ensures
        views_of(v.push(s)) == views_of(v) + seq![s@],
{
    assert(views_of(v.push(s)) =~= views_of(v) + seq![s@]);
}

/// Character-by-character string equality.
pub fn str_eq(a: &str, b: &str) -> (r: bool)
    ensures
        r == (a@ == b@),
{
    let alen = a.unicode_len();
    let blen = b.unicode_len();
    if alen != blen {
        assert(a@ != b@);
        return false;
    }
    let mut i: usize = 0;
    while i < alen
        invariant
            i <= alen,
            alen == a@.len(),
            alen == b@.len(),
            forall|k: int| 0 <= k < i ==> a@[k] == b@[k],
        decreases alen - i,
    {
        if a.get_char(i) != b.get_char(i) {
            assert(a@ != b@);
            return false;
        }
        i += 1;
    }
    assert(a@ =~= b@);
    true
}

/// The decimal digit character for a value below ten.
pub open spec fn digit_char(d: nat) -> char {
    ((d + 48) as u8) as char
}

/// The usual decimal rendering of a natural number, most significant
/// digit first, with no leading zeros except for zero itself.
pub open spec fn spec_dec(n: nat) -> Seq<char>
    decreases n,
{
    if n < 10 {
        seq![digit_char(n)]
    } else {
        spec_dec(n / 10) + seq![digit_char(n % 10)]
    }
}

fn digit_str(d: usize) -> (r: &'static str)
    requires
        d < 10,
    ensures
        r@ == seq![digit_char(d as nat)],
{
    proof {
        reveal_strlit("0");
        reveal_strlit("1");
        reveal_strlit("2");
        reveal_strlit("3");
        reveal_strlit("4");
        reveal_strlit("5");
        reveal_strlit("6");
        reveal_strlit("7");
        reveal_strlit("8");
        reveal_strlit("9");
    }
    let r: &'static str = if d == 0 {
        "0"
    } else if d == 1 {
        "1"
    } else if d == 2 {
        "2"
    } else if d == 3 {
        "3"
    } else if d == 4 {
        "4"
    } else if d == 5 {
        "5"
    } else if d == 6 {
        "6"
    } else if d == 7 {
        "7"
    } else if d == 8 {
        "8"
    } else {
        "9"
    };
    proof {
        assert(r@ =~= seq![digit_char(d as nat)]);
    }
    r
}

/// A line cut at a newline loses one carriage return before it: lines
/// end at either line-ending style, but a final line with no newline
/// after it keeps a bare trailing carriage return.
pub open spec fn spec_strip_cr(l: Seq<char>) -> Seq<char> {
    if l.len() > 0 && l.last() == '\r' {
        l.drop_last()
    } else {
        l
    }
}

/// The index of the first newline character, or the length if there is
/// none.
pub open spec fn spec_nl_pos(s: Seq<char>) -> int
    decreases s.len(),
{
    if s.len() == 0 {
        0
    } else if s[0] == '\n' {
        0
    } else {
        1 + spec_nl_pos(s.drop_first())
    }
}

proof fn lemma_nl_pos(s: Seq<char>)
    ensures
        0 <= spec_nl_pos(s) <= s.len(),
        spec_nl_pos(s) < s.len() ==> s[spec_nl_pos(s)] == '\n',
        forall|k: int| 0 <= k < spec_nl_pos(s) ==> s[k] != '\n',
    decreases s.len(),
{
    if s.len() == 0 {
    } else if s[0] == '\n' {
    } else {
        lemma_nl_pos(s.drop_first());
        assert forall|k: int| 0 <= k < spec_nl_pos(s) implies s[k] != '\n' by {
            if k > 0 {
                assert(s.drop_first()[k - 1] == s[k]);
            }
        }
    }
}

proof fn lemma_nl_pos_at(s: Seq<char>, j: int)
    requires
        0 <= j <= s.len(),
        forall|k: int| 0 <= k < j ==> s[k] != '\n',
        j < s.len() ==> s[j] == '\n',
    ensures
        spec_nl_pos(s) == j,
    decreases s.len(),
{
    if s.len() == 0 {
    } else if s[0] == '\n' {
        assert(j == 0);
    } else {
        assert(j >= 1);
        assert(forall|k: int| 0 <= k < j - 1 ==> s.drop_first()[k] != '\n');
        lemma_nl_pos_at(s.drop_first(), j - 1);
    }
}

/// The lines of a text, the way line-oriented tools read them: split at
/// newline characters, each line stripped of one trailing carriage
/// return, with no empty final line for a text that ends in a newline
/// and no line at all for the empty text.
pub open spec fn spec_lines(s: Seq<char>) -> Seq<Seq<char>>
    decreases s.len(),
    via spec_lines_decreases
{
    if s.len() == 0 {
        Seq::empty()
    } else {
        let p = spec_nl_pos(s);
        if p >= s.len() {
            seq![s]
        } else {
            seq![spec_strip_cr(s.take(p))] + spec_lines(s.skip(p + 1))
        }
    }
}

#[via_fn]
proof fn spec_lines_decreases(s: Seq<char>) {
    lemma_nl_pos(s);
}

/// A non-empty text has at least one line.
pub proof fn lemma_spec_lines_nonempty(s: Seq<char>)
    requires
        s.len() > 0,
    ensures
        spec_lines(s).len() >= 1,
{
}

/// Splits a text into its lines.
pub fn split_lines(s: &str) -> (r: Vec<String>)
    ensures
        views_of(r@) == spec_lines(s@),
{
    let len = s.unicode_len();
    let mut out: Vec<String> = Vec::new();
    let mut start: usize = 0;
    proof {
        assert(s@.skip(0) =~= s@);
    }
    while start < len
        invariant
            start <= len,
            len == s@.len(),
            spec_lines(s@) == views_of(out@) + spec_lines(s@.skip(start as int)),
        decreases len - start,
    {
        let ghost rest = s@.skip(start as int);
        let mut p: usize = start;
        let mut found = false;
        while !found && p < len
            invariant
                start <= p <= len,
                len == s@.len(),
                forall|k: int| start <= k < p ==> s@[k] != '\n',
                found ==> (p < len && s@[p as int] == '\n'),
            decreases len - p + (if found {
                0int
            } else {
                1
            }),
        {
            if s.get_char(p) == '\n' {
                found = true;
            } else {
                p += 1;
            }
        }
        proof {
            assert(forall|k: int| 0 <= k < p - start ==> rest[k] != '\n');
            lemma_nl_pos_at(rest, p - start);
        }
        let end = if p < len && p > start && s.get_char(p - 1) == '\r' {
            p - 1
        } else {
            p
        };
        let piece = s.substring_char(start, end);
        proof {
            if p < len {
                assert(piece@ =~= spec_strip_cr(rest.take(p - start)));
            } else {
                assert(piece@ =~= rest);
            }
        }
        out.push(String::from_str(piece));
        let ghost old_start = start as int;
        if p < len {
            start = p + 1;
        } else {
            start = len;
        }
        proof {
            if p < len {
                assert(s@.skip(start as int) =~= rest.skip(p - old_start + 1));
            } else {
                assert(s@.skip(start as int) =~= Seq::<char>::empty());
                assert(spec_lines(s@.skip(start as int)) =~= Seq::<Seq<char>>::empty());
            }
            assert(spec_lines(rest) =~= seq![piece@] + spec_lines(s@.skip(start as int)));
            assert(views_of(out@) =~= views_of(out@.drop_last()) + seq![piece@]);
            assert(views_of(out@) + spec_lines(s@.skip(start as int)) =~= spec_lines(s@));
        }
    }
    proof {
        assert(s@.skip(start as int) =~= Seq::<char>::empty());
        assert(spec_lines(s@.skip(start as int)) =~= Seq::<Seq<char>>::empty());
        assert(views_of(out@) =~= spec_lines(s@));
    }
    out
}

/// The number of bytes a character occupies in its UTF-8 encoding.
pub open spec fn char_utf8_len(c: char) -> int {
    if (c as int) < 0x80 {
        1
    } else if (c as int) < 0x800 {
        2
    } else if (c as int) < 0x10000 {
        3
    } else {
        4
    }
}

/// The character offset corresponding to a byte offset in a text: the
/// number of characters whose encodings start before that byte. At a
/// character boundary this is the index of the character the byte
/// offset points at; an offset past the end counts every character.
pub open spec fn spec_char_offset(l: Seq<char>, b: int) -> int
    decreases l.len(),
{
    if b <= 0 || l.len() == 0 {
        0
    } else {
        1 + spec_char_offset(l.drop_first(), b - char_utf8_len(l[0]))
    }
}

fn utf8_len_of(c: char) -> (r: usize)
    ensures
        r as int == char_utf8_len(c),
{
    let u = c as u32;
    if u < 0x80 {
        1
    } else if u < 0x800 {
        2
    } else if u < 0x10000 {
        3
    } else {
        4
    }
}

/// Converts a byte offset in the text to the character offset it points
/// at.
pub fn char_offset_of(l: &str, b: usize) -> (r: usize)
    ensures
        r as int == spec_char_offset(l@, b as int),
{
    let n = l.unicode_len();
    let mut i: usize = 0;
    let mut rem: usize = b;
    proof {
        assert(l@.skip(0) =~= l@);
    }
    while i < n && rem > 0
        invariant
            i <= n,
            n == l@.len(),
            spec_char_offset(l@, b as int) == i + spec_char_offset(l@.skip(i as int), rem as int),
        decreases n - i,
    {
        let ghost old_i = i as int;
        let ghost old_rem = rem as int;
        let clen = utf8_len_of(l.get_char(i));
        let ghost rest = l@.skip(i as int);
        rem = if rem > clen {
            rem - clen
        } else {
            0
        };
        i += 1;
        proof {
            let shorter = old_rem - char_utf8_len(l@[old_i]);
            assert(rest[0] == l@[old_i]);
            assert(rest.drop_first() =~= l@.skip(old_i + 1));
            assert(spec_char_offset(rest, old_rem) == 1 + spec_char_offset(
                l@.skip(old_i + 1),
                shorter,
            ));
            if shorter <= 0 {
                assert(spec_char_offset(l@.skip(old_i + 1), shorter) == 0);
                assert(spec_char_offset(l@.skip(old_i + 1), rem as int) == 0);
            }
        }
    }
    proof {
        if rem == 0 {
            assert(spec_char_offset(l@.skip(i as int), 0) == 0);
        } else {
            assert(l@.skip(i as int) =~= Seq::<char>::empty());
        }
    }
    i
}

/// Renders a number in decimal.
pub fn dec_str(n: usize) -> (r: String)
    ensures
        r@ == spec_dec(n as nat),
    decreases n,
{
    if n < 10 {
        String::from_str(digit_str(n))
    } else {
        let mut s = dec_str(n / 10);
        s.append(digit_str(n % 10));
        s
    }
}

} // verus!

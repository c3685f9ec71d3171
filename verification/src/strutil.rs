//! Verified helpers for building and inspecting the text that the generator
//! and the client produce.

use vstd::prelude::*;
use vstd::string::StrSliceExecFns;
use vstd::string::StringExecFns;

verus! {

/// Compares two string slices for equality of their character sequences.
pub fn str_eq(a: &str, b: &str) -> (r: bool)
    ensures
        r == (a@ == b@),
{
    a.to_owned() == b.to_owned()
}

/// Relies on std's String::push: appends exactly one character at the end.
#[verifier::external_body]
pub fn push_char(s: &mut String, c: char)
    ensures
        final(s)@ == old(s)@.push(c),
{
    s.push(c)
}

/// Strict lexicographic order on character sequences, by code point.
pub open spec fn lex_lt(a: Seq<char>, b: Seq<char>) -> bool
    decreases a.len(),
{
    if b.len() == 0 {
        false
    } else if a.len() == 0 {
        true
    } else if a[0] != b[0] {
        (a[0] as u32) < (b[0] as u32)
    } else {
        lex_lt(a.drop_first(), b.drop_first())
    }
}

/// Decides `lex_lt` on two string slices.
pub fn str_lex_lt(a: &str, b: &str) -> (r: bool)
    ensures
        r == lex_lt(a@, b@),
{
    let a_len: usize = a.unicode_len();
    let b_len: usize = b.unicode_len();
    let mut i: usize = 0;
    proof {
        assert(a@.skip(0) =~= a@);
        assert(b@.skip(0) =~= b@);
    }
    loop
        invariant
            i <= a_len,
            i <= b_len,
            a_len == a@.len(),
            b_len == b@.len(),
            a@.subrange(0, i as int) == b@.subrange(0, i as int),
            lex_lt(a@, b@) == lex_lt(a@.skip(i as int), b@.skip(i as int)),
        decreases a_len - i,
    {
        if i == b_len {
            proof {
                assert(b@.skip(i as int).len() == 0);
            }
            return false;
        }
        if i == a_len {
            proof {
                assert(a@.skip(i as int).len() == 0);
                assert(b@.skip(i as int).len() > 0);
            }
            return true;
        }
        let ac = a.get_char(i);
        let bc = b.get_char(i);
        if ac != bc {
            proof {
                assert(a@.skip(i as int)[0] == a@[i as int]);
                assert(b@.skip(i as int)[0] == b@[i as int]);
            }
            return (ac as u32) < (bc as u32);
        }
        proof {
            assert(a@.skip(i as int)[0] == a@[i as int]);
            assert(b@.skip(i as int)[0] == b@[i as int]);
            assert(a@.skip(i as int).drop_first() =~= a@.skip(i + 1));
            assert(b@.skip(i as int).drop_first() =~= b@.skip(i + 1));
            assert(a@.subrange(0, i + 1) =~= b@.subrange(0, i + 1));
        }
        i = i + 1;
    }
}

/// The sequence `s` with every occurrence of `from` replaced by `to`.
pub open spec fn replace_char(s: Seq<char>, from: char, to: char) -> Seq<char> {
    Seq::new(s.len(), |i: int| if s[i] == from { to } else { s[i] })
}

/// Replaces every occurrence of one character by another.
pub fn str_replace_char(s: &str, from: char, to: char) -> (r: String)
    ensures
        r@ == replace_char(s@, from, to),
{
    let len: usize = s.unicode_len();
    let mut out = String::new();
    let mut i: usize = 0;
    while i < len
        invariant
            i <= len,
            len == s@.len(),
            out@ =~= replace_char(s@, from, to).subrange(0, i as int),
        decreases len - i,
    {
        let c = s.get_char(i);
        if c == from {
            push_char(&mut out, to);
        } else {
            push_char(&mut out, c);
        }
        proof {
            assert(out@ =~= replace_char(s@, from, to).subrange(0, i + 1));
        }
        i = i + 1;
    }
    proof {
        assert(replace_char(s@, from, to).subrange(0, len as int) =~= replace_char(
            s@,
            from,
            to,
        ));
    }
    out
}

/// The suffix of `s` after its final `'.'`; the whole of `s` when no `'.'`
/// occurs in it.
pub open spec fn last_segment(s: Seq<char>) -> Seq<char>
    decreases s.len(),
{
    if s.len() == 0 {
        s
    } else if s[s.len() - 1] == '.' {
        Seq::empty()
    } else {
        last_segment(s.drop_last()).push(s[s.len() - 1])
    }
}

proof fn lemma_last_segment_no_dot(s: Seq<char>)
    requires
        forall|j: int| 0 <= j < s.len() ==> s[j] != '.',
    ensures
        last_segment(s) =~= s,
    decreases s.len(),
{
    if s.len() > 0 {
        lemma_last_segment_no_dot(s.drop_last());
    }
}

proof fn lemma_last_segment_after_dot(s: Seq<char>, d: int)
    requires
        0 <= d < s.len(),
        s[d] == '.',
        forall|j: int| d < j < s.len() ==> s[j] != '.',
    ensures
        last_segment(s) =~= s.subrange(d + 1, s.len() as int),
    decreases s.len(),
{
    if d == s.len() - 1 {
    } else {
        lemma_last_segment_after_dot(s.drop_last(), d);
        assert(s.drop_last().subrange(d + 1, s.len() - 1) =~= s.subrange(d + 1, s.len() - 1));
        assert(s.subrange(d + 1, s.len() - 1).push(s[s.len() - 1]) =~= s.subrange(
            d + 1,
            s.len() as int,
        ));
    }
}

/// Returns the suffix of `s` after the final `'.'`.
pub fn str_last_segment(s: &str) -> (r: String)
    ensures
        r@ == last_segment(s@),
{
    let len: usize = s.unicode_len();
    let mut i: usize = len;
    while i > 0
        invariant
            i <= len,
            len == s@.len(),
            forall|j: int| i <= j < len ==> s@[j] != '.',
        decreases i,
    {
        if s.get_char(i - 1) == '.' {
            let seg = s.substring_char(i, len);
            proof {
                lemma_last_segment_after_dot(s@, i - 1);
            }
            return seg.to_owned();
        }
        i = i - 1;
    }
    proof {
        lemma_last_segment_no_dot(s@);
    }
    s.to_owned()
}

/// The views of a sequence of strings.
pub open spec fn views_of(s: Seq<String>) -> Seq<Seq<char>> {
    s.map_values(|p: String| p@)
}

/// The first `i` pieces joined, with `sep` between neighbouring pieces.
pub open spec fn join_upto(pieces: Seq<Seq<char>>, sep: Seq<char>, i: int) -> Seq<char>
    decreases i,
{
    if i <= 0 {
        Seq::empty()
    } else if i == 1 {
        pieces[0]
    } else {
        join_upto(pieces, sep, i - 1) + sep + pieces[i - 1]
    }
}

/// All pieces joined with `sep` between neighbouring pieces.
pub open spec fn joined(pieces: Seq<Seq<char>>, sep: Seq<char>) -> Seq<char> {
    join_upto(pieces, sep, pieces.len() as int)
}

/// Joins the strings of `pieces` with `sep` between neighbouring entries.
pub fn join_strings(pieces: &Vec<String>, sep: &str) -> (r: String)
    ensures
        r@ == joined(views_of(pieces@), sep@),
{
    let mut out = String::new();
    let mut i: usize = 0;
    while i < pieces.len()
        invariant
            i <= pieces@.len(),
            out@ == join_upto(views_of(pieces@), sep@, i as int),
        decreases pieces@.len() - i,
    {
        if i > 0 {
            out.append(sep);
        }
        out.append(pieces[i].as_str());
        proof {
            if i == 0 {
                assert(out@ =~= join_upto(views_of(pieces@), sep@, 1));
            }
        }
        i = i + 1;
    }
    out
}

} // verus!

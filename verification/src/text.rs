//! Verified text helpers: splitting on a separator character, trimming a
//! trailing character, and assembling strings.

use vstd::prelude::*;
use vstd::string::*;

verus! {

/// The sequence split at every occurrence of `sep`: separators are dropped,
/// empty fields are kept, and the empty sequence splits into one empty field.
pub open spec fn spec_split(s: Seq<char>, sep: char) -> Seq<Seq<char>>
    decreases s.len(),
{
    if s.len() == 0 {
        seq![Seq::<char>::empty()]
    } else {
        let rest = spec_split(s.drop_last(), sep);
        if s.last() == sep {
            rest.push(Seq::<char>::empty())
        } else {
            rest.update(rest.len() - 1, rest.last().push(s.last()))
        }
    }
}

/// A split always yields at least one field.
pub proof fn lemma_spec_split_len(s: Seq<char>, sep: char)
    ensures
        spec_split(s, sep).len() >= 1,
    decreases s.len(),
{
    if s.len() != 0 {
        lemma_spec_split_len(s.drop_last(), sep);
    }
}

/// The sequence with every trailing occurrence of `c` removed.
pub open spec fn spec_trim_end(s: Seq<char>, c: char) -> Seq<char>
    decreases s.len(),
{
    if s.len() > 0 && s.last() == c {
        spec_trim_end(s.drop_last(), c)
    } else {
        s
    }
}

/// Relies on std's `String::push`: appends the given character at the end.
#[verifier::external_body]
pub fn push_char(s: &mut String, c: char)
    ensures
        final(s)@ == old(s)@.push(c),
{
    s.push(c);
}

/// The longest prefix of `s` without the trailing occurrences of `c`.
pub fn trim_end_char<'a>(s: &'a str, c: char) -> (r: &'a str)
    ensures
        r@ == spec_trim_end(s@, c),
{
    let mut end: usize = s.unicode_len();
    proof {
        assert(s@.subrange(0, end as int) =~= s@);
    }
    while end > 0 && s.get_char(end - 1) == c
        invariant
            end <= s@.len(),
            spec_trim_end(s@, c) == spec_trim_end(s@.subrange(0, end as int), c),
        decreases end,
    {
        proof {
            assert(s@.subrange(0, end as int).drop_last() =~= s@.subrange(0, end as int - 1));
        }
        end = end - 1;
    }
    let r = s.substring_char(0, end);
    proof {
        assert(spec_trim_end(s@.subrange(0, end as int), c) == s@.subrange(0, end as int));
    }
    r
}

/// Split `s` at every occurrence of `sep`.
pub fn split_char(s: &str, sep: char) -> (parts: Vec<String>)
    ensures
        parts.deep_view() == spec_split(s@, sep),
        parts.len() >= 1,
{
    let n: usize = s.unicode_len();
    let mut parts: Vec<String> = Vec::new();
    parts.push(String::new());
    proof {
        assert(s@.subrange(0, 0) =~= Seq::<char>::empty());
        assert(parts.deep_view() =~~= spec_split(s@.subrange(0, 0), sep));
    }
    let mut i: usize = 0;
    while i < n
        invariant
            i <= n,
            n == s@.len(),
            parts.len() >= 1,
            parts.deep_view() =~~= spec_split(s@.subrange(0, i as int), sep),
        decreases n - i,
    {
        let ghost prefix = s@.subrange(0, i as int);
        let ghost extended = s@.subrange(0, i as int + 1);
        proof {
            assert(extended.drop_last() =~= prefix);
            assert(extended.last() == s@[i as int]);
        }
        let c = s.get_char(i);
        if c == sep {
            parts.push(String::new());
            proof {
                assert(parts.deep_view() =~~= spec_split(extended, sep));
            }
        } else {
            let ghost before = parts.deep_view();
            let mut last = parts.pop().unwrap();
            push_char(&mut last, c);
            parts.push(last);
            proof {
                assert(parts.deep_view() =~~= before.update(
                    before.len() - 1,
                    before.last().push(c),
                ));
                assert(parts.deep_view() =~~= spec_split(extended, sep));
            }
        }
        i = i + 1;
    }
    proof {
        assert(s@.subrange(0, n as int) =~= s@);
        lemma_spec_split_len(s@, sep);
    }
    parts
}

/// Two string slices hold the same characters.
pub fn str_eq(a: &str, b: &str) -> (r: bool)
    ensures
        r == (a@ == b@),
{
    let sa: String = a.to_owned();
    let sb: String = b.to_owned();
    sa == sb
}

} // verus!

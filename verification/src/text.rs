//! Text as a sequence of characters: prefix tests, removal of a pattern, and
//! the few conversions the rest of the crate builds on.

use vstd::prelude::*;

verus! {

/// `String::push` appends one character to the end of the string.
pub assume_specification[ String::push ](s: &mut String, c: char)
    ensures
        final(s)@ == old(s)@.push(c),
;

/// `text` with every occurrence of `pat` taken out. Occurrences are found
/// scanning from the left and do not overlap: once one is removed the scan
/// goes on behind it. An empty pattern removes nothing.
pub open spec fn without(text: Seq<char>, pat: Seq<char>) -> Seq<char>
    decreases text.len(),
{
    if pat.len() == 0 || text.len() < pat.len() {
        text
    } else if pat.is_prefix_of(text) {
        without(text.skip(pat.len() as int), pat)
    } else {
        seq![text[0]] + without(text.skip(1), pat)
    }
}

/// The characters of `s`, in order.
pub fn chars_of(s: &str) -> (v: Vec<char>)
    ensures
        v@ == s@,
{
    let mut v: Vec<char> = Vec::new();
    for c in it: s.chars()
        invariant
            v@ == it.seq().take(it.index() as int),
            it.seq() == s@,
    {
        v.push(c);
    }
    v
}

/// The string made of `chars`, in order.
pub fn text_of(chars: &Vec<char>) -> (s: String)
    ensures
        s@ == chars@,
{
    let mut s = String::new();
    let mut i: usize = 0;
    while i < chars.len()
        invariant
            i <= chars.len(),
            s@ == chars@.take(i as int),
        decreases chars.len() - i,
    {
        s.push(chars[i]);
        i += 1;
    }
    s
}

/// Whether `pat` stands in `text` at position `at`. Behind the end of the
/// text nothing stands, before it the empty pattern does.
pub fn occurs_at(text: &Vec<char>, at: usize, pat: &Vec<char>) -> (found: bool)
    ensures
        found == (at <= text.len() && pat@.is_prefix_of(text@.skip(at as int))),
{
    if at > text.len() || pat.len() > text.len() - at {
        return false;
    }
    let mut k: usize = 0;
    while k < pat.len()
        invariant
            at <= text.len(),
            pat.len() <= text.len() - at,
            k <= pat.len(),
            forall|j: int| 0 <= j < k ==> pat@[j] == text@[at + j],
        decreases pat.len() - k,
    {
        if pat[k] != text[at + k] {
            assert(text@.skip(at as int).subrange(0, pat.len() as int)[k as int] != pat@[k as int]);
            return false;
        }
        k += 1;
    }
    assert(pat@ =~= text@.skip(at as int).subrange(0, pat.len() as int));
    true
}

/// Whether `text` begins with `prefix`, character for character.
pub fn starts_with(text: &str, prefix: &str) -> (found: bool)
    ensures
        found == prefix@.is_prefix_of(text@),
{
    let t = chars_of(text);
    let p = chars_of(prefix);
    assert(t@.skip(0) =~= t@);
    occurs_at(&t, 0, &p)
}

/// `text` without the occurrences of `pat`.
pub fn remove_all(text: &str, pat: &str) -> (out: String)
    ensures
        out@ == without(text@, pat@),
{
    let t = chars_of(text);
    let p = chars_of(pat);
    if p.len() == 0 {
        return text_of(&t);
    }
    let mut out = String::new();
    let mut i: usize = 0;
    assert(t@.skip(0) =~= t@);
    while i < t.len()
        invariant
            i <= t.len(),
            p.len() > 0,
            without(t@, p@) == out@ + without(t@.skip(i as int), p@),
        decreases t.len() - i,
    {
        let ghost rest = t@.skip(i as int);
        if occurs_at(&t, i, &p) {
            assert(rest.skip(p.len() as int) =~= t@.skip(i + p.len()));
            i += p.len();
        } else {
            proof {
                assert(rest.skip(1) =~= t@.skip(i + 1));
                if rest.len() >= p.len() {
                    assert(out@.push(t@[i as int]) + without(rest.skip(1), p@) =~= out@ + (
                    seq![rest[0]] + without(rest.skip(1), p@)));
                } else {
                    lemma_short_text_is_kept(rest, p@);
                    lemma_short_text_is_kept(rest.skip(1), p@);
                    assert(out@.push(t@[i as int]) + rest.skip(1) =~= out@ + rest);
                }
            }
            out.push(t[i]);
            i += 1;
        }
    }
    assert(out@ + Seq::<char>::empty() =~= out@);
    out
}

/// A text shorter than the pattern holds no occurrence of it.
pub proof fn lemma_short_text_is_kept(text: Seq<char>, pat: Seq<char>)
    requires
        text.len() < pat.len(),
    ensures
        without(text, pat) == text,
{
}

} // verus!

//! Query-time term reconstruction: analyzer output to an ordered set of terms.
use vstd::prelude::*;

verus! {

/// The analyzer's token texts with empty texts dropped and each text kept once, at its
/// first occurrence.
pub open spec fn spec_unique_terms(tokens: Seq<Seq<char>>) -> Seq<Seq<char>>
    decreases tokens.len(),
{
    if tokens.len() == 0 {
        Seq::empty()
    } else {
        let prev = spec_unique_terms(tokens.drop_last());
        let t = tokens.last();
        if t.len() == 0 || prev.contains(t) {
            prev
        } else {
            prev.push(t)
        }
    }
}

/// The terms that also go to the character N-gram field: those of exactly one Unicode
/// scalar value.
pub open spec fn spec_single_char_terms(terms: Seq<Seq<char>>) -> Seq<Seq<char>>
    decreases terms.len(),
{
    if terms.len() == 0 {
        Seq::empty()
    } else {
        let prev = spec_single_char_terms(terms.drop_last());
        if terms.last().len() == 1 {
            prev.push(terms.last())
        } else {
            prev
        }
    }
}

/// The views of a list of strings.
pub open spec fn views(v: Seq<String>) -> Seq<Seq<char>> {
    v.map_values(|s: String| s@)
}

/// Whether `s` is one Unicode scalar value long.
pub fn is_single_char(s: &str) -> (r: bool)
    ensures
        r == (s@.len() == 1),
{
    broadcast use vstd::string::axiom_spec_iter, vstd::string::next_postcondition;

    let mut it = s.chars();
    match it.next() {
        None => false,
        Some(_) => it.next().is_none(),
    }
}

fn contains_text(v: &Vec<String>, t: &String) -> (r: bool)
    ensures
        r == views(v@).contains(t@),
{
    let mut i: usize = 0;
    while i < v.len()
        invariant
            0 <= i <= v@.len(),
            forall|j: int| 0 <= j < i ==> v@[j]@ != t@,
        decreases v@.len() - i,
    {
        if v[i] == *t {
            assert(views(v@)[i as int] == t@);
            return true;
        }
        i = i + 1;
    }
    assert forall|j: int| 0 <= j < views(v@).len() implies views(v@)[j] != t@ by {
        assert(views(v@)[j] == v@[j]@);
    }
    false
}

/// Reduces the analyzer's token texts to the query terms: empty texts are dropped and
/// repeated texts are kept once, at their first occurrence, so that the order is stable.
pub fn unique_terms(tokens: &Vec<String>) -> (r: Vec<String>)
    ensures
        views(r@) == spec_unique_terms(views(tokens@)),
{
    let mut out: Vec<String> = Vec::new();
    let mut i: usize = 0;
    while i < tokens.len()
        invariant
            0 <= i <= tokens@.len(),
            views(out@) == spec_unique_terms(views(tokens@.subrange(0, i as int))),
        decreases tokens@.len() - i,
    {
        let t = &tokens[i];
        let ghost pre = views(tokens@.subrange(0, i as int));
        let ghost next = views(tokens@.subrange(0, i as int + 1));
        assert(next.drop_last() =~= pre);
        assert(next.last() == t@);
        let empty = t.as_str().is_empty();
        if !empty && !contains_text(&out, t) {
            out.push(t.clone());
            assert(views(out@) =~= spec_unique_terms(pre).push(t@));
        }
        i = i + 1;
    }
    assert(tokens@.subrange(0, tokens@.len() as int) =~= tokens@);
    out
}

/// The query terms of one character, which also go against the N-gram field.
pub fn single_char_terms(terms: &Vec<String>) -> (r: Vec<String>)
    ensures
        views(r@) == spec_single_char_terms(views(terms@)),
{
    let mut out: Vec<String> = Vec::new();
    let mut i: usize = 0;
    while i < terms.len()
        invariant
            0 <= i <= terms@.len(),
            views(out@) == spec_single_char_terms(views(terms@.subrange(0, i as int))),
        decreases terms@.len() - i,
    {
        let t = &terms[i];
        let ghost pre = views(terms@.subrange(0, i as int));
        let ghost next = views(terms@.subrange(0, i as int + 1));
        assert(next.drop_last() =~= pre);
        assert(next.last() == t@);
        if is_single_char(t.as_str()) {
            out.push(t.clone());
            assert(views(out@) =~= spec_single_char_terms(pre).push(t@));
        }
        i = i + 1;
    }
    assert(terms@.subrange(0, terms@.len() as int) =~= terms@);
    out
}

} // verus!

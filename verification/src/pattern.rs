//! The text of the pattern that a list of forbidden terms compiles to.

use crate::substitution::SubstitutionTable;
use vstd::prelude::*;

verus! {

/// `String::push` appends the given character to the end of the string.
pub assume_specification[ String::push ](s: &mut String, c: char)
    ensures
        final(s)@ == old(s)@.push(c),
;

/// The flag that makes what follows it match without regard to case.
pub open spec fn case_flag() -> Seq<char> {
    "(?i)"@
}

/// A run of one to three emphasis markers, all `*` or all `_`, which may also
/// be absent.
pub open spec fn emphasis_group() -> Seq<char> {
    "(\\*{1,3}|_{1,3})?"@
}

/// The character class that stands for `letter` and each of its `variants`.
pub open spec fn class_of(letter: char, variants: Seq<char>) -> Seq<char> {
    seq!['[', letter] + variants + seq![']']
}

/// What one character of a term becomes in the pattern.
pub open spec fn expand_char(c: char, table: Map<char, Seq<char>>) -> Seq<char> {
    if table.dom().contains(c) {
        class_of(c, table[c])
    } else {
        seq![c]
    }
}

/// What a term becomes in the pattern: each of its characters expanded in turn.
pub open spec fn expand_term(term: Seq<char>, table: Map<char, Seq<char>>) -> Seq<char>
    decreases term.len(),
{
    if term.len() == 0 {
        Seq::empty()
    } else {
        expand_term(term.drop_last(), table) + expand_char(term.last(), table)
    }
}

/// The pattern of one term: the case flag, then the expanded term between two
/// optional runs of emphasis markers.
pub open spec fn term_pattern(term: Seq<char>, table: Map<char, Seq<char>>) -> Seq<char> {
    case_flag() + emphasis_group() + expand_term(term, table) + emphasis_group()
}

/// The pattern of a list of terms: the patterns of the terms, in order, with a
/// `|` between each two.
pub open spec fn pattern_text(terms: Seq<Seq<char>>, table: Map<char, Seq<char>>) -> Seq<char>
    decreases terms.len(),
{
    if terms.len() == 0 {
        Seq::empty()
    } else if terms.len() == 1 {
        term_pattern(terms[0], table)
    } else {
        pattern_text(terms.drop_last(), table) + seq!['|'] + term_pattern(terms.last(), table)
    }
}

/// The terms of a list as character sequences.
pub open spec fn term_texts(terms: Seq<&str>) -> Seq<Seq<char>> {
    terms.map_values(|term: &str| term@)
}

fn push_expanded_char(out: &mut String, c: char, table: &SubstitutionTable)
    ensures
        final(out)@ == old(out)@ + expand_char(c, table@),
{
    match table.get(c) {
        Some(variants) => {
            out.push('[');
            out.push(c);
            out.append(variants.as_str());
            out.push(']');
        },
        None => {
            out.push(c);
        },
    }
}

fn push_expanded_term(out: &mut String, term: &str, table: &SubstitutionTable)
    ensures
        final(out)@ == old(out)@ + expand_term(term@, table@),
{
    let ghost before = out@;
    for c in it: term.chars()
        invariant
            it.seq() == term@,
            out@ == before + expand_term(term@.take(it.index() as int), table@),
    {
        proof {
            let n = it.index() as int;
            assert(term@.take(n + 1).drop_last() =~= term@.take(n));
        }
        push_expanded_char(out, c, table);
    }
    assert(term@.take(term@.len() as int) =~= term@);
}

fn push_term_pattern(out: &mut String, term: &str, table: &SubstitutionTable)
    ensures
        final(out)@ == old(out)@ + term_pattern(term@, table@),
{
    out.append("(?i)");
    out.append("(\\*{1,3}|_{1,3})?");
    push_expanded_term(out, term, table);
    out.append("(\\*{1,3}|_{1,3})?");
}

/// Writes out the pattern for `terms` under the substitutions of `table`.
pub fn build_pattern(terms: &[&str], table: &SubstitutionTable) -> (pattern: String)
    ensures
        pattern@ == pattern_text(term_texts(terms@), table@),
{
    let ghost texts = term_texts(terms@);
    let mut pattern = String::new();
    let mut i: usize = 0;
    while i < terms.len()
        invariant
            i <= terms.len(),
            texts == term_texts(terms@),
            pattern@ == pattern_text(texts.take(i as int), table@),
        decreases terms.len() - i,
    {
        proof {
            assert(texts.take(i + 1).drop_last() =~= texts.take(i as int));
        }
        if i > 0 {
            pattern.push('|');
        }
        push_term_pattern(&mut pattern, terms[i], table);
        i += 1;
    }
    assert(texts.take(terms.len() as int) =~= texts);
    pattern
}

} // verus!

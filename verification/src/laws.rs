//! What holds of the filter as a whole, whatever the configuration and the
//! message.

use crate::matcher::{flagged, Matcher};
use crate::normalize::normal_form;
use crate::pattern::pattern_text;
use vstd::prelude::*;

verus! {

/// Two texts with the same normal form are judged alike. So a message that
/// spells a term with combining characters is flagged exactly when the
/// composed spelling is, whatever a search of the raw text would say.
pub proof fn lemma_verdict_follows_normal_form(
    pattern: Seq<char>,
    first: Seq<char>,
    second: Seq<char>,
)
    ensures
        normal_form(first) == normal_form(second) ==> flagged(pattern, first) == flagged(
            pattern,
            second,
        ),
{
}

/// A text that has been normalized twice is judged as the text normalized
/// once.
pub proof fn lemma_renormalizing_keeps_verdict(pattern: Seq<char>, text: Seq<char>)
    ensures
        flagged(pattern, normal_form(normal_form(text))) == flagged(pattern, normal_form(text)),
{
}

/// Two matchers built from the same terms and the same table judge every text
/// alike.
pub proof fn lemma_same_configuration_same_verdict(
    terms: Seq<Seq<char>>,
    table: Map<char, Seq<char>>,
    first: Matcher,
    second: Matcher,
    text: Seq<char>,
)
    requires
        first@ == pattern_text(terms, table),
        second@ == pattern_text(terms, table),
    ensures
        flagged(first@, text) == flagged(second@, text),
{
}

/// The order in which the entries for two letters are put into a table makes
/// no difference to the pattern.
pub proof fn lemma_entry_order_irrelevant(
    terms: Seq<Seq<char>>,
    table: Map<char, Seq<char>>,
    letter: char,
    variants: Seq<char>,
    other_letter: char,
    other_variants: Seq<char>,
)
    requires
        letter != other_letter,
    ensures
        pattern_text(terms, table.insert(letter, variants).insert(other_letter, other_variants))
            == pattern_text(
            terms,
            table.insert(other_letter, other_variants).insert(letter, variants),
        ),
{
    assert(table.insert(letter, variants).insert(other_letter, other_variants)
        =~= table.insert(other_letter, other_variants).insert(letter, variants));
}

} // verus!

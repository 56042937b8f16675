//! The configuration that the filter ships with: the usual bait words of
//! giveaway scams, and the look-alike characters they are written with.

use crate::pattern::term_texts;
use crate::substitution::SubstitutionTable;
use vstd::prelude::*;

verus! {

/// The standard forbidden terms, as character sequences.
pub open spec fn standard_term_texts() -> Seq<Seq<char>> {
    seq!["airdrop"@, "ico"@, "giveaway"@]
}

/// The standard substitutions: for each of `a`, `i`, `r`, `d` and `o`, its
/// capital, the Cyrillic letters of the same shape, and the digits and signs
/// that are typed in its place.
pub open spec fn standard_table() -> Map<char, Seq<char>> {
    Map::<char, Seq<char>>::empty().insert('a', "\u{430}A\u{410}@4"@).insert(
        'i',
        "1!|I\u{406}\u{456}"@,
    ).insert('r', "R\u{433}\u{413}"@).insert('d', "D"@).insert('o', "O\u{43e}\u{41e}0"@)
}

/// The standard list of forbidden terms.
pub fn standard_terms() -> (terms: Vec<&'static str>)
    ensures
        term_texts(terms@) == standard_term_texts(),
{
    vec!["airdrop", "ico", "giveaway"]
}

/// The standard table of confusable characters.
pub fn standard_substitutions() -> (table: SubstitutionTable)
    ensures
        table@ == standard_table(),
{
    let mut table = SubstitutionTable::new();
    table.insert('a', "\u{430}A\u{410}@4".to_owned());
    table.insert('i', "1!|I\u{406}\u{456}".to_owned());
    table.insert('r', "R\u{433}\u{413}".to_owned());
    table.insert('d', "D".to_owned());
    table.insert('o', "O\u{43e}\u{41e}0".to_owned());
    table
}

} // verus!

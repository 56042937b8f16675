//! The table of confusable characters: for a canonical letter, the characters
//! that are written in its place to slip past a plain substring search.

use vstd::prelude::*;

verus! {

/// One entry of the table: a canonical letter and the characters that stand in
/// for it.
#[derive(Debug)]
struct SubstitutionRule {
    letter: char,
    variants: String,
}

/// A mapping from canonical letters to their confusable variants.
///
/// The entries are kept in a vector in which no letter occurs twice, so the
/// table is a finite map whatever the order in which it was filled.
#[derive(Debug)]
pub struct SubstitutionTable {
    rules: Vec<SubstitutionRule>,
}

/// Whether entry `i` of `rules` is the entry for `letter`.
spec fn is_entry_for(rules: Seq<SubstitutionRule>, letter: char, i: int) -> bool {
    0 <= i < rules.len() && rules[i].letter == letter
}

/// Whether no letter has two entries in `rules`.
spec fn letters_distinct(rules: Seq<SubstitutionRule>) -> bool {
    forall|i: int, j: int|
        0 <= i < j < rules.len() ==> (#[trigger] rules[i]).letter != (#[trigger] rules[j]).letter
}

/// The map that a sequence of entries with distinct letters stands for.
spec fn rules_map(rules: Seq<SubstitutionRule>) -> Map<char, Seq<char>> {
    Map::new(
        |c: char| exists|i: int| is_entry_for(rules, c, i),
        |c: char| rules[choose|i: int| is_entry_for(rules, c, i)].variants@,
    )
}

/// In a sequence with distinct letters, the entry at `i` is what the map holds
/// for that entry's letter.
proof fn lemma_entry_in_map(rules: Seq<SubstitutionRule>, i: int)
    requires
        letters_distinct(rules),
        0 <= i < rules.len(),
    ensures
        rules_map(rules).dom().contains(rules[i].letter),
        rules_map(rules)[rules[i].letter] == rules[i].variants@,
{
    assert(is_entry_for(rules, rules[i].letter, i));
}

impl View for SubstitutionTable {
    type V = Map<char, Seq<char>>;

    /// The table as a map from each letter to the sequence of its variants.
    closed spec fn view(&self) -> Map<char, Seq<char>> {
        rules_map(self.rules@)
    }
}

impl SubstitutionTable {
    #[verifier::type_invariant]
    spec fn no_letter_twice(&self) -> bool {
        letters_distinct(self.rules@)
    }

    /// A table without entries.
    pub fn new() -> (table: SubstitutionTable)
        ensures
            table@ == Map::<char, Seq<char>>::empty(),
    {
        SubstitutionTable { rules: Vec::new() }
    }

    /// The variants recorded for `letter`, if it has an entry.
    pub fn get(&self, letter: char) -> (found: Option<&String>)
        ensures
            match found {
                Some(variants) => self@.dom().contains(letter) && variants@ == self@[letter],
                None => !self@.dom().contains(letter),
            },
    {
        proof {
            use_type_invariant(self);
        }
        let mut i: usize = 0;
        while i < self.rules.len()
            invariant
                i <= self.rules.len(),
                letters_distinct(self.rules@),
                forall|j: int| 0 <= j < i ==> !is_entry_for(self.rules@, letter, j),
            decreases self.rules.len() - i,
        {
            if self.rules[i].letter == letter {
                proof {
                    lemma_entry_in_map(self.rules@, i as int);
                }
                return Some(&self.rules[i].variants);
            }
            i += 1;
        }
        None
    }

    /// Records `variants` as the variants of `letter`, in place of any entry the
    /// letter had before.
    pub fn insert(&mut self, letter: char, variants: String)
        ensures
            final(self)@ == old(self)@.insert(letter, variants@),
    {
        proof {
            use_type_invariant(&*self);
        }
        let ghost before = self.rules@;
        // The entries are taken out while they are changed, and put back once
        // they are in order again.
        let mut rules: Vec<SubstitutionRule> = Vec::new();
        core::mem::swap(&mut self.rules, &mut rules);
        let mut i: usize = 0;
        while i < rules.len() && rules[i].letter != letter
            invariant
                i <= rules.len(),
                rules@ == before,
                forall|j: int| 0 <= j < i ==> !is_entry_for(before, letter, j),
            decreases rules.len() - i,
        {
            i += 1;
        }
        let rule = SubstitutionRule { letter, variants };
        if i < rules.len() {
            proof {
                lemma_replace_entry(before, i as int, rule);
            }
            rules.set(i, rule);
        } else {
            proof {
                lemma_append_entry(before, rule);
            }
            rules.push(rule);
        }
        core::mem::swap(&mut self.rules, &mut rules);
    }
}

/// Replacing the variants of the entry at `i` updates the map at that entry's
/// letter and nowhere else.
proof fn lemma_replace_entry(rules: Seq<SubstitutionRule>, i: int, rule: SubstitutionRule)
    requires
        letters_distinct(rules),
        0 <= i < rules.len(),
        rule.letter == rules[i].letter,
    ensures
        letters_distinct(rules.update(i, rule)),
        rules_map(rules.update(i, rule)) == rules_map(rules).insert(rule.letter, rule.variants@),
{
    let after = rules.update(i, rule);
    let expected = rules_map(rules).insert(rule.letter, rule.variants@);
    assert forall|c: char| rules_map(after).dom().contains(c) <==> expected.dom().contains(
        c,
    ) by {
        if rules_map(after).dom().contains(c) {
            let k = choose|k: int| is_entry_for(after, c, k);
            assert(is_entry_for(rules, c, k));
        }
        if expected.dom().contains(c) {
            if c == rule.letter {
                assert(is_entry_for(after, c, i));
            } else {
                let k = choose|k: int| is_entry_for(rules, c, k);
                assert(is_entry_for(after, c, k));
            }
        }
    }
    assert forall|c: char| rules_map(after).dom().contains(c) implies rules_map(after)[c]
        == expected[c] by {
        let k = choose|k: int| is_entry_for(after, c, k);
        lemma_entry_in_map(after, k);
        if c != rule.letter {
            lemma_entry_in_map(rules, k);
        }
    }
}

/// Appending an entry for a letter that has none extends the map by that
/// letter.
proof fn lemma_append_entry(rules: Seq<SubstitutionRule>, rule: SubstitutionRule)
    requires
        letters_distinct(rules),
        forall|j: int| 0 <= j < rules.len() ==> !is_entry_for(rules, rule.letter, j),
    ensures
        letters_distinct(rules.push(rule)),
        rules_map(rules.push(rule)) == rules_map(rules).insert(rule.letter, rule.variants@),
{
    let after = rules.push(rule);
    let last = rules.len() as int;
    assert forall|a: int, b: int| 0 <= a < b < after.len() implies (#[trigger] after[a]).letter != (
    #[trigger] after[b]).letter by {
        if b == last {
            assert(!is_entry_for(rules, rule.letter, a));
        }
    }
    let expected = rules_map(rules).insert(rule.letter, rule.variants@);
    assert forall|c: char| rules_map(after).dom().contains(c) <==> expected.dom().contains(
        c,
    ) by {
        if rules_map(after).dom().contains(c) {
            let k = choose|k: int| is_entry_for(after, c, k);
            if k < last {
                assert(is_entry_for(rules, c, k));
            }
        }
        if expected.dom().contains(c) {
            if c == rule.letter {
                assert(is_entry_for(after, c, last));
            } else {
                let k = choose|k: int| is_entry_for(rules, c, k);
                assert(is_entry_for(after, c, k));
            }
        }
    }
    assert forall|c: char| rules_map(after).dom().contains(c) implies rules_map(after)[c]
        == expected[c] by {
        let k = choose|k: int| is_entry_for(after, c, k);
        lemma_entry_in_map(after, k);
        if k < last {
            lemma_entry_in_map(rules, k);
        }
    }
}

} // verus!

use content_filter::{standard_substitutions, SubstitutionTable};

#[test]
fn new_table_has_no_entries() {
    let table = SubstitutionTable::new();
    assert_eq!(table.get('a'), None);
    assert_eq!(table.get('\u{430}'), None);
}

#[test]
fn inserted_entry_is_found_again() {
    let mut table = SubstitutionTable::new();
    table.insert('a', "A@4".to_string());
    table.insert('o', "O0".to_string());
    assert_eq!(table.get('a'), Some(&"A@4".to_string()));
    assert_eq!(table.get('o'), Some(&"O0".to_string()));
    assert_eq!(table.get('A'), None);
    assert_eq!(table.get('i'), None);
}

#[test]
fn second_insert_for_a_letter_replaces_the_first() {
    let mut table = SubstitutionTable::new();
    table.insert('a', "A".to_string());
    table.insert('o', "0".to_string());
    table.insert('a', "@4".to_string());
    assert_eq!(table.get('a'), Some(&"@4".to_string()));
    assert_eq!(table.get('o'), Some(&"0".to_string()));
}

#[test]
fn entry_with_no_variants_is_kept() {
    let mut table = SubstitutionTable::new();
    table.insert('x', String::new());
    assert_eq!(table.get('x'), Some(&String::new()));
}

#[test]
fn standard_table_entries() {
    let table = standard_substitutions();
    assert_eq!(table.get('a'), Some(&"\u{430}A\u{410}@4".to_string()));
    assert_eq!(table.get('i'), Some(&"1!|I\u{406}\u{456}".to_string()));
    assert_eq!(table.get('r'), Some(&"R\u{433}\u{413}".to_string()));
    assert_eq!(table.get('d'), Some(&"D".to_string()));
    assert_eq!(table.get('o'), Some(&"O\u{43e}\u{41e}0".to_string()));
    assert_eq!(table.get('p'), None);
    assert_eq!(table.get('c'), None);
}

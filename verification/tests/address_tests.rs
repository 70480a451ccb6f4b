use mail_read::address::{format_address, AddressEntry, AddressField, AddressGroup};

fn entry(name: Option<&str>, address: Option<&str>) -> AddressEntry {
    AddressEntry {
        name: name.map(|s| s.to_string()),
        address: address.map(|s| s.to_string()),
    }
}

#[test]
fn both_name_and_address() {
    let field = AddressField::Flat(vec![entry(Some("Alice"), Some("alice@example.com"))]);
    assert_eq!(format_address(&field), "Alice <alice@example.com>");
}

#[test]
fn address_only_and_name_only() {
    let field = AddressField::Flat(vec![
        entry(None, Some("bob@example.com")),
        entry(Some("Carol"), None),
    ]);
    assert_eq!(format_address(&field), "bob@example.com, Carol");
}

#[test]
fn empty_entries_leave_no_stray_separators() {
    let field = AddressField::Flat(vec![
        entry(None, None),
        entry(Some("Alice"), Some("alice@example.com")),
        entry(None, None),
        entry(None, Some("bob@example.com")),
        entry(None, None),
    ]);
    let s = format_address(&field);
    assert_eq!(s, "Alice <alice@example.com>, bob@example.com");
    assert!(s.contains("Alice <alice@example.com>"));
    assert!(!s.starts_with(", "));
    assert!(!s.ends_with(", "));
    assert!(!s.contains(", ,"));
}

#[test]
fn empty_flat_list_is_empty() {
    assert_eq!(format_address(&AddressField::Flat(vec![])), "");
}

#[test]
fn single_group() {
    let field = AddressField::Grouped(vec![AddressGroup {
        name: Some("A".to_string()),
        addresses: vec![entry(None, Some("x@y"))],
    }]);
    assert_eq!(format_address(&field), "A: x@y;");
}

#[test]
fn group_names_inside_members_are_ignored() {
    let field = AddressField::Grouped(vec![AddressGroup {
        name: Some("Team".to_string()),
        addresses: vec![
            entry(Some("Alice"), Some("alice@example.com")),
            entry(Some("NoAddress"), None),
            entry(None, Some("bob@example.com")),
        ],
    }]);
    assert_eq!(format_address(&field), "Team: alice@example.com, bob@example.com;");
}

#[test]
fn several_groups_joined_by_one_space() {
    let field = AddressField::Grouped(vec![
        AddressGroup {
            name: Some("A".to_string()),
            addresses: vec![entry(None, Some("x@y"))],
        },
        AddressGroup {
            name: None,
            addresses: vec![entry(None, Some("z@w"))],
        },
    ]);
    assert_eq!(format_address(&field), "A: x@y; : z@w;");
}

#[test]
fn empty_group_still_renders() {
    let field = AddressField::Grouped(vec![AddressGroup {
        name: Some("Empty".to_string()),
        addresses: vec![],
    }]);
    assert_eq!(format_address(&field), "Empty: ;");
}

#[test]
fn duplicate_copies_a_field() {
    let field = AddressField::Flat(vec![entry(Some("Alice"), Some("alice@example.com"))]);
    let copy = field.duplicate();
    assert_eq!(format_address(&copy), format_address(&field));
}

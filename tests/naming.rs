use filedrop::naming::{prepend_uuid, storage_name, storage_name_from_hex, TOKEN_LEN};

fn is_token(t: &str) -> bool {
    t.len() == TOKEN_LEN && t.chars().all(|c| c.is_ascii_digit() || ('A'..='F').contains(&c))
}

#[test]
fn storage_name_joins_with_hyphen() {
    assert_eq!(storage_name("0123456789AB", "notes.txt"), "0123456789AB-notes.txt");
    assert_eq!(storage_name("ABC", ""), "ABC-");
}

#[test]
fn prepended_name_keeps_requested_name() {
    let name = prepend_uuid("report.pdf");
    assert_eq!(name.len(), TOKEN_LEN + 1 + "report.pdf".len());
    assert!(name.ends_with("-report.pdf"));
    assert!(is_token(&name[..TOKEN_LEN]));
}

#[test]
fn prepended_token_is_twelve_upper_hex_digits() {
    let name = prepend_uuid("a");
    assert_eq!(TOKEN_LEN, 12);
    assert!(is_token(&name[..12]));
    assert_eq!(&name[12..], "-a");
}

#[test]
fn prepend_keeps_unicode_names() {
    let name = prepend_uuid("résumé ünïcode.txt");
    assert!(name.ends_with("-résumé ünïcode.txt"));
    assert!(is_token(&name[..TOKEN_LEN]));
}

#[test]
fn same_requested_name_gets_distinct_storage_names() {
    let a = prepend_uuid("same.bin");
    let b = prepend_uuid("same.bin");
    assert_ne!(a, b);
    assert!(a.ends_with("-same.bin") && b.ends_with("-same.bin"));
}

#[test]
fn token_is_first_twelve_drawn_digits() {
    let hex = "0123456789ABCDEF0123456789ABCDEF";
    assert_eq!(storage_name_from_hex(hex, "report.pdf"), "0123456789AB-report.pdf");
    assert_eq!(storage_name_from_hex("ABCDEF012345", "x"), "ABCDEF012345-x");
}

#[test]
fn different_draws_give_different_names() {
    let a = storage_name_from_hex("000000000000FFFF", "same.bin");
    let b = storage_name_from_hex("000000000001FFFF", "same.bin");
    let c = storage_name_from_hex("000000000000AAAA", "same.bin");
    assert_ne!(a, b);
    assert_eq!(a, c);
}

use msgvault::textutil::get_initials;

#[test]
fn test_initials() {
    assert_eq!(get_initials("John Smith"), "JS");
    assert_eq!(get_initials("Alice"), "AL");
    assert_eq!(get_initials("john@example.com"), "JO");
    assert_eq!(get_initials(""), "?");
    assert_eq!(get_initials("A B C"), "AB");
}

#[test]
fn initials_edge_cases() {
    assert_eq!(get_initials("   "), "?");
    assert_eq!(get_initials("x"), "X");
    assert_eq!(get_initials("jane doe@corp.org"), "JD");
}

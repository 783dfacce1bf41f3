use msgvault::textutil::sanitize_filename;

#[test]
fn test_sanitize_filename() {
    assert_eq!(sanitize_filename("test.pdf"), "test.pdf");
    assert_eq!(sanitize_filename("test/file.pdf"), "test_file.pdf");
    assert_eq!(sanitize_filename("test\\file.pdf"), "test_file.pdf");
    assert_eq!(sanitize_filename("test:file.pdf"), "test_file.pdf");
    assert_eq!(sanitize_filename("test*file?.pdf"), "test_file_.pdf");
    assert_eq!(sanitize_filename("  test.pdf  "), "test.pdf");
}

#[test]
fn sanitize_filename_maps_control_characters() {
    assert_eq!(sanitize_filename("a\u{0007}b"), "a_b");
    assert_eq!(sanitize_filename("quo\"te<x>|y"), "quo_te_x__y");
}

#[test]
fn test_version() {
    assert_eq!(awtrix3::VERSION, "1.0.0");
}

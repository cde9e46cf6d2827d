use agrg_shd::bytes::trim_empty;
use agrg_shd::input::{sanitize_admin_passwd, sanitize_hex_input, sanitize_pin};

#[test]
fn trim_empty_drops_only_the_ff_suffix() {
    assert_eq!(trim_empty(vec![0x12, 0xFF, 0x34, 0xFF, 0xFF]), vec![0x12, 0xFF, 0x34]);
    assert_eq!(trim_empty(vec![0xFF, 0xFF]), Vec::<u8>::new());
    assert_eq!(trim_empty(Vec::new()), Vec::<u8>::new());
    assert_eq!(trim_empty(vec![0x00]), vec![0x00]);
}

#[test]
fn hex_input_is_filtered_uppercased_and_capped() {
    assert_eq!(sanitize_hex_input("12ab..CD!x", 20), "12ABCD");
    assert_eq!(sanitize_hex_input("aaaaaaaaaaaaaaaaaaaaaaaa", 20), "AAAAAAAAAAAAAAAAAAAA");
    assert_eq!(sanitize_hex_input("", 20), "");
    assert_eq!(sanitize_hex_input("пропуск7f", 20), "7F");
}

#[test]
fn pin_input_is_filtered_and_capped() {
    assert_eq!(sanitize_pin("1a2b3c4d5e6f7g", 6), "123456");
    assert_eq!(sanitize_pin("12", 6), "12");
    assert_eq!(sanitize_pin("abc", 6), "");
}

#[test]
fn admin_password_is_left_padded_to_six() {
    assert_eq!(sanitize_admin_passwd("42", 6), "000042");
    assert_eq!(sanitize_admin_passwd("123456", 6), "123456");
    assert_eq!(sanitize_admin_passwd("1234567", 6), "123456");
    assert_eq!(sanitize_admin_passwd("", 6), "000000");
    assert_eq!(sanitize_admin_passwd("9x9", 6), "000099");
}

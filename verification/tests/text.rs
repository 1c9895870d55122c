use video_summary_bot::text::{to_dec_string, to_hex_string};

#[test]
fn number_formatting() {
    assert_eq!(to_hex_string(0xaa55), "0xaa55");
    assert_eq!(to_hex_string(0), "0x0");
    assert_eq!(to_dec_string(2048), "2048");
    assert_eq!(to_dec_string(0), "0");
    assert_eq!(to_dec_string(u64::MAX), "18446744073709551615");
}

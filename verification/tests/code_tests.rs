use fogpub::services::{format_code, generate_code, CODE_LIMIT};

#[test]
fn format_code_pads_to_six_digits() {
    assert_eq!(format_code(42), "000042");
    assert_eq!(format_code(0), "000000");
    assert_eq!(format_code(999_999), "999999");
    assert_eq!(format_code(123_456), "123456");
}

#[test]
fn format_code_round_trip() {
    for n in [0u64, 7, 10, 99, 1000, 65_536, 314_159, 999_999] {
        let code = format_code(n);
        assert_eq!(code.parse::<u64>().unwrap(), n);
        assert_eq!(code.len(), 6);
    }
}

#[test]
fn generated_codes_are_six_digits() {
    for _ in 0..50 {
        let code = generate_code();
        assert_eq!(code.len(), 6);
        assert!(code.chars().all(|c| c.is_ascii_digit()));
        assert!(code.parse::<u64>().unwrap() < CODE_LIMIT);
    }
}

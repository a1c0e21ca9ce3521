use handheld::otp::Otp;

#[test]
fn reference_vector_sha1_six_digits() {
    // The published test vector for HMAC-SHA-1 with 30-second steps: the
    // 20-byte ASCII secret "12345678901234567890" at t = 59 s gives the
    // eight-digit code 94287082, so the six-digit code is 287082.
    let otp = Otp::new(b"12345678901234567890".to_vec());
    assert_eq!(otp.token(59), "287082");
}

#[test]
fn token_is_a_function_of_secret_and_time() {
    let a = Otp::new(vec![7u8; 16]);
    let b = Otp::new(vec![7u8; 16]);
    assert_eq!(a.token(1000), b.token(1000));
    // Within one 30-second step the code does not change.
    assert_eq!(a.token(30), a.token(59));
    // A different secret gives a different code here.
    let c = Otp::new(vec![8u8; 16]);
    assert_ne!(a.token(1000), c.token(1000));
}

#[test]
fn token_is_six_decimal_digits() {
    let otp = Otp::new(vec![1u8; 20]);
    let token = otp.token(123456);
    assert_eq!(token.len(), 6);
    assert!(token.chars().all(|c| c.is_ascii_digit()));
}

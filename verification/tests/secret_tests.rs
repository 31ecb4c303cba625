use xiv_otp::generator::{GeneratorError, HashAlgorithm, OtpGenerator};
use xiv_otp::secret::{generator_from_text, SecretError};
use xiv_otp::OtpSecret;

const RFC_SECRET_B32: &str = "GEZDGNBVGY3TQOJQGEZDGNBVGY3TQOJQ";

fn text_of(s: &OtpSecret) -> (&'static str, String) {
    match s {
        OtpSecret::OtpauthUrl(t) => ("url", t.clone()),
        OtpSecret::Base32(t) => ("b32", t.clone()),
    }
}

#[test]
fn otpauth_url_is_kept_as_given() {
    let input = "otpauth://totp/Square%20Enix%20ID:me?secret=GEZDGNBVGY3TQOJQGEZDGNBVGY3TQOJQ";
    let s = OtpSecret::parse(input).unwrap();
    assert_eq!(text_of(&s), ("url", input.to_string()));
}

#[test]
fn otpauth_scheme_is_case_insensitive() {
    let input = "OTPAUTH://totp/x?secret=GEZDGNBVGY3TQOJQGEZDGNBVGY3TQOJQ";
    let s = OtpSecret::parse(input).unwrap();
    assert_eq!(text_of(&s), ("url", input.to_string()));
}

#[test]
fn base32_white_space_is_removed() {
    let s = OtpSecret::parse(" GEZD GNBV\tGY3T\nQOJQ ").unwrap();
    assert_eq!(text_of(&s), ("b32", "GEZDGNBVGY3TQOJQ".to_string()));
}

#[test]
fn unicode_white_space_is_removed() {
    let s = OtpSecret::parse("AB\u{3000}CD\u{a0}EF\u{2003}").unwrap();
    assert_eq!(text_of(&s), ("b32", "ABCDEF".to_string()));
}

#[test]
fn digits_zero_and_one_pass_the_character_check() {
    let s = OtpSecret::parse("AB01").unwrap();
    assert_eq!(text_of(&s), ("b32", "AB01".to_string()));
}

#[test]
fn empty_text_is_empty_base32() {
    let s = OtpSecret::parse("").unwrap();
    assert_eq!(text_of(&s), ("b32", String::new()));
}

#[test]
fn lower_case_is_rejected() {
    assert!(matches!(OtpSecret::parse("gezdgnbv"), Err(SecretError::Unrecognized)));
}

#[test]
fn other_url_scheme_falls_back_to_base32_check() {
    assert!(matches!(OtpSecret::parse("https://example.com"), Err(SecretError::Unrecognized)));
}

#[test]
fn from_str_matches_parse() {
    let s: OtpSecret = "ABCD EFGH".parse().unwrap();
    assert_eq!(text_of(&s), ("b32", "ABCDEFGH".to_string()));
    assert!("not a secret!".parse::<OtpSecret>().is_err());
}

#[test]
fn base32_generator_uses_launcher_settings() {
    let g = OtpSecret::parse(RFC_SECRET_B32).unwrap().to_otp_generator().unwrap();
    assert_eq!(g.digits(), 6);
    assert_eq!(g.step(), 30);
    assert_eq!(g.algorithm(), HashAlgorithm::Sha1);
    assert_eq!(g.issuer(), Some("Square Enix ID"));
}

#[test]
fn rfc6238_sha1_tokens() {
    let g = OtpGenerator::from_base32_secret(RFC_SECRET_B32).unwrap();
    assert_eq!(g.generate(59), "287082");
    assert_eq!(g.generate(1111111109), "081804");
    assert_eq!(g.generate(1234567890), "005924");
    assert_eq!(g.generate(2000000000), "279037");
}

#[test]
fn current_token_has_six_digits() {
    let g = OtpGenerator::from_base32_secret(RFC_SECRET_B32).unwrap();
    let t = g.generate_current().unwrap();
    assert_eq!(t.len(), 6);
    assert!(t.chars().all(|c| c.is_ascii_digit()));
}

#[test]
fn short_secret_is_rejected() {
    let r = OtpSecret::parse("GEZDGNBV").unwrap().to_otp_generator();
    assert!(matches!(r, Err(GeneratorError::SecretRejected)));
}

#[test]
fn invalid_base32_is_rejected() {
    let r = OtpSecret::parse("AB01AB01AB01AB01AB01AB01AB01AB01").unwrap().to_otp_generator();
    assert!(matches!(r, Err(GeneratorError::InvalidBase32)));
}

#[test]
fn otpauth_url_generator() {
    let url = "otpauth://totp/Square%20Enix%20ID:me?secret=GEZDGNBVGY3TQOJQGEZDGNBVGY3TQOJQ&issuer=Square%20Enix%20ID&digits=8";
    let g = OtpSecret::parse(url).unwrap().to_otp_generator().unwrap();
    assert_eq!(g.digits(), 8);
    assert_eq!(g.step(), 30);
    assert_eq!(g.issuer(), Some("Square Enix ID"));
    assert_eq!(g.generate(59), "94287082");
}

#[test]
fn otpauth_url_sha256_generator() {
    let url = "otpauth://totp/me?secret=GEZDGNBVGY3TQOJQGEZDGNBVGY3TQOJQGEZDGNBVGY3TQOJQGEZA&algorithm=SHA256&digits=8";
    let g = OtpGenerator::from_otpauth_url(url).unwrap();
    assert_eq!(g.algorithm(), HashAlgorithm::Sha256);
    assert_eq!(g.generate(59), "46119246");
}

#[test]
fn otpauth_url_with_wrong_host_is_rejected() {
    let r = OtpSecret::parse("otpauth://hotp/me?secret=GEZDGNBVGY3TQOJQGEZDGNBVGY3TQOJQ")
        .unwrap()
        .to_otp_generator();
    assert!(matches!(r, Err(GeneratorError::InvalidOtpauthUrl)));
}

#[test]
fn generator_from_text_combines_both_steps() {
    assert!(generator_from_text(RFC_SECRET_B32).is_some());
    assert!(generator_from_text("GEZDGNBV").is_none());
    assert!(generator_from_text("nope").is_none());
}

#[test]
fn zeroize_empties_the_text() {
    let mut s = OtpSecret::parse("ABCD").unwrap();
    s.zeroize();
    assert_eq!(text_of(&s), ("b32", String::new()));
    let mut u = OtpSecret::parse("otpauth://totp/x?secret=AB").unwrap();
    u.zeroize();
    assert_eq!(text_of(&u), ("url", String::new()));
}

#[test]
fn base32_text_reads_back_the_same() {
    let first = OtpSecret::parse("gezd".to_uppercase().as_str()).unwrap();
    let (_, b) = text_of(&first);
    let again = OtpSecret::parse(&b).unwrap();
    assert_eq!(text_of(&again), ("b32", b.clone()));
    let spaced = OtpSecret::parse(" GE ZD\u{2028}GN ").unwrap();
    let (_, c) = text_of(&spaced);
    assert_eq!(text_of(&OtpSecret::parse(&c).unwrap()), ("b32", c.clone()));
}

#[test]
fn unrecognized_secret_message() {
    let e = OtpSecret::parse("not a secret!").err().unwrap();
    assert_eq!(e.message(), "Provided string was neither an otpauth url nor a base32 encoded string.");
}

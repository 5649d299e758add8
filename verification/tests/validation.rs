use backend::validate::{
    str_eq, str_eq_ignore_case, validate_bio, validate_email, validate_existing_username,
    validate_password, validate_phone_number, validate_profile_pic, validate_username,
};

#[test]
fn username_rules() {
    assert!(validate_username("alice0101".to_string()));
    assert!(validate_username("ABCDEFGHIJKLMNOP".to_string()));
    // Too short, too long, wrong characters.
    assert!(!validate_username("alice01".to_string()));
    assert!(!validate_username("ABCDEFGHIJKLMNOPQ".to_string()));
    assert!(!validate_username("alice_0101".to_string()));
    assert!(!validate_username("".to_string()));
    assert!(validate_existing_username("bobby123"));
    assert!(!validate_existing_username("bobby 123"));
}

#[test]
fn password_rules() {
    assert!(validate_password("Str0ng!Passw0rd".to_string()));
    // Each missing character class fails.
    assert!(!validate_password("str0ng!passw0rd".to_string()));
    assert!(!validate_password("STR0NG!PASSW0RD".to_string()));
    assert!(!validate_password("Strong!Password".to_string()));
    assert!(!validate_password("Str0ngPassw0rd1".to_string()));
    // Length bounds: 12 to 64.
    assert!(!validate_password("Sh0rt!pw".to_string()));
    let long = format!("Aa1!{}", "x".repeat(61));
    assert!(!validate_password(long));
}

#[test]
fn email_rules() {
    assert!(validate_email("user@example.com".to_string()));
    assert!(validate_email("first.last+tag@sub.example.org".to_string()));
    assert!(!validate_email("userexample.com".to_string()));
    assert!(!validate_email("user@example".to_string()));
    assert!(!validate_email("user@example.c".to_string()));
    assert!(!validate_email("user@example.c0m".to_string()));
    assert!(!validate_email("@example.com".to_string()));
    assert!(!validate_email("user@.com".to_string()));
}

#[test]
fn phone_rules() {
    assert!(validate_phone_number("1234567".to_string()));
    assert!(validate_phone_number("+123456789012345".to_string()));
    assert!(!validate_phone_number("123456".to_string()));
    assert!(!validate_phone_number("+1234567890123456".to_string()));
    assert!(!validate_phone_number("12345a7".to_string()));
    assert!(!validate_phone_number("".to_string()));
    assert!(!validate_phone_number("+".to_string()));
}

#[test]
fn bio_rules() {
    assert!(validate_bio("hi"));
    assert!(!validate_bio(""));
    let long = "x".repeat(501);
    assert!(!validate_bio(&long));
    let max = "x".repeat(500);
    assert!(validate_bio(&max));
}

#[test]
fn string_comparisons() {
    assert!(str_eq("same", "same"));
    assert!(!str_eq("same", "Same"));
    assert!(str_eq_ignore_case("Alice0101", "aLICE0101"));
    assert!(!str_eq_ignore_case("alice0101", "alice0102"));
    assert!(!str_eq_ignore_case("alice", "alice0101"));
}

#[test]
fn profile_pic_rules() {
    // A one-pixel PNG, with and without the data-URL prefix.
    let png = "iVBORw0KGgoAAAANSUhEUgAAAAEAAAABCAYAAAAfFcSJAAAADUlEQVR42mP8z8BQDwAEhQGAhKmMIQAAAABJRU5ErkJggg==";
    assert!(validate_profile_pic(png));
    let with_prefix = format!("data:image/png;base64,{}", png);
    assert!(validate_profile_pic(&with_prefix));
    // Valid base64 that is not an image, and invalid base64.
    assert!(!validate_profile_pic("aGVsbG8="));
    assert!(!validate_profile_pic("!!not-base64!!"));
}

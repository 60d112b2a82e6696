use eldiro::utils::extract_digits;
use eldiro::utils::extract_ident;
use eldiro::utils::extract_op;
use eldiro::utils::extract_whitespace;
use eldiro::utils::extract_whitespace1;
use eldiro::utils::tag;

#[test]
fn extarct_one_digit() {
    assert_eq!(extract_digits("1+2"), Ok(("+2", "1")));
}

#[test]
fn extract_multiple_digits() {
    assert_eq!(extract_digits("11+2"), Ok(("+2", "11")));
}

#[test]
fn extract_empty_digits() {
    assert_eq!(extract_digits(""), Err("expected digits".to_owned()));
}

#[test]
fn extract_digits_without_remainder() {
    assert_eq!(extract_digits("100"), Ok(("", "100")));
}

#[test]
fn extract_plus() {
    assert_eq!(extract_op("+3"), ("3", "+"))
}

#[test]
fn extract_minus() {
    assert_eq!(extract_op("-4"), ("4", "-"))
}

#[test]
fn extract_start() {
    assert_eq!(extract_op("*14"), ("14", "*"))
}

#[test]
fn extract_slash() {
    assert_eq!(extract_op("/3"), ("3", "/"))
}

#[test]
fn extract_spaces() {
    assert_eq!(extract_whitespace("  3"), ("3", "  "));
}

#[test]
fn do_not_extract_space1_when_input_does_not_starts_with_spaces() {
    assert_eq!(extract_whitespace1("123"), Err("expected whitespace".to_owned()))
}

#[test]
fn cannot_extract_ident_beginning_with_number() {
    assert_eq!(extract_ident("123abc"), Err("expected identifier".to_owned()));
}

#[test]
fn extract_alphanumeric_ident() {
    assert_eq!(extract_ident("foobar()"), Ok(("()", "foobar")));
}

#[test]
fn tag_word() {
    assert_eq!(tag("let", "let a"), Ok(" a"));
}

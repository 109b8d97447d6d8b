use vanilla_checkbox::form::bool_label;
use vanilla_checkbox::form::decode_on_or_off;
use vanilla_checkbox::form::parse_bool_field;
use vanilla_checkbox::form::str_eq;

#[test]
fn absent_field_means_false() {
    // An unchecked checkbox submits no field at all.
    assert_eq!(decode_on_or_off(None), Some(false));
}

#[test]
fn checked_checkbox_submission_means_true() {
    // A checked checkbox with no value attribute submits "on".
    assert_eq!(decode_on_or_off(Some("on")), Some(true));
}

#[test]
fn text_field_values_decode_to_their_flag() {
    assert_eq!(decode_on_or_off(Some("true")), Some(true));
    assert_eq!(decode_on_or_off(Some("false")), Some(false));
}

#[test]
fn malformed_field_is_rejected() {
    assert_eq!(decode_on_or_off(Some("yes")), None);
    assert_eq!(decode_on_or_off(Some("")), None);
    assert_eq!(decode_on_or_off(Some("TRUE")), None);
    assert_eq!(decode_on_or_off(Some("false ")), None);
}

#[test]
fn parse_bool_field_cases() {
    assert_eq!(parse_bool_field("true"), Some(true));
    assert_eq!(parse_bool_field("on"), Some(true));
    assert_eq!(parse_bool_field("false"), Some(false));
    assert_eq!(parse_bool_field("0"), None);
    assert_eq!(parse_bool_field("tru"), None);
}

#[test]
fn labels_spell_the_flag_out() {
    assert_eq!(bool_label(true), "true");
    assert_eq!(bool_label(false), "false");
}

#[test]
fn label_decodes_back_to_its_flag() {
    assert_eq!(parse_bool_field(bool_label(true)), Some(true));
    assert_eq!(parse_bool_field(bool_label(false)), Some(false));
}

#[test]
fn str_eq_compares_contents() {
    assert!(str_eq("", ""));
    assert!(str_eq("abc", "abc"));
    assert!(!str_eq("abc", "abd"));
    assert!(!str_eq("abc", "ab"));
    assert!(str_eq("héllo", "héllo"));
    assert!(!str_eq("héllo", "hello"));
}

use yournal_core::oauth::{callback_page, extract_code, listener_address};
use yournal_core::strsplit::split_str;

#[test]
fn code_is_extracted_from_a_callback_target() {
    assert_eq!(extract_code("/callback?code=ABC123&state=xyz"), Some("ABC123".to_string()));
}

#[test]
fn missing_code_yields_nothing_and_the_failure_page() {
    let code = extract_code("/callback?state=xyz");
    assert_eq!(code, None);
    assert_eq!(
        callback_page(code.is_some()),
        "Authentication failed. Please return to Yournal and try again."
    );
}

#[test]
fn found_code_selects_the_success_page() {
    assert_eq!(
        callback_page(true),
        "Authentication successful! You can close this window and return to Yournal."
    );
}

#[test]
fn target_without_query_yields_nothing() {
    assert_eq!(extract_code("/callback"), None);
}

#[test]
fn bare_question_mark_yields_nothing() {
    assert_eq!(extract_code("/callback?"), None);
}

#[test]
fn empty_code_value_is_kept() {
    assert_eq!(extract_code("/callback?code="), Some("".to_string()));
}

#[test]
fn code_value_stops_at_the_next_equals_sign() {
    assert_eq!(extract_code("/callback?code=AB=CD"), Some("AB".to_string()));
}

#[test]
fn later_code_parameter_wins() {
    assert_eq!(extract_code("/cb?code=first&code=second"), Some("second".to_string()));
}

#[test]
fn later_code_parameter_without_value_erases_the_earlier_one() {
    assert_eq!(extract_code("/cb?code=val&code"), None);
}

#[test]
fn only_the_second_question_mark_segment_is_read() {
    assert_eq!(extract_code("/cb?code=first?code=second"), Some("first".to_string()));
}

#[test]
fn split_keeps_empty_pieces() {
    assert_eq!(split_str("a&&b", '&'), vec!["a".to_string(), "".to_string(), "b".to_string()]);
    assert_eq!(split_str("", '&'), vec!["".to_string()]);
    assert_eq!(split_str("&", '&'), vec!["".to_string(), "".to_string()]);
    assert_eq!(split_str("plain", '&'), vec!["plain".to_string()]);
}

#[test]
fn listener_binds_the_fixed_local_port() {
    assert_eq!(listener_address(), "127.0.0.1:8484");
}

use untis_notify::rpc::{bot_send_body, bot_send_url, SessionFault, Untis};
use untis_notify::text::json_quoted;

fn session() -> Untis {
    Untis::new(
        String::from("mese"),
        String::from("JL-Schule+Darmstadt"),
        String::from("user"),
        String::from("secret"),
        String::from("661"),
    )
}

#[test]
fn base_url_names_school_and_subdomain() {
    let untis = session();
    assert_eq!(
        untis.base_url,
        "https://mese.webuntis.com/WebUntis/jsonrpc.do?school=JL-Schule+Darmstadt"
    );
    assert!(untis.cookie.is_none());
}

#[test]
fn authenticate_request_carries_credentials_without_cookie() {
    let untis = session();
    let request = untis.authenticate_request();
    assert_eq!(request.url, untis.base_url);
    assert_eq!(
        request.body,
        "{\"id\":\"ID\",\"method\":\"authenticate\",\"params\":{\"user\":\"user\",\
         \"password\":\"secret\",\"client\":\"CLIENT\"},\"jsonrpc\":\"2.0\"}"
    );
    assert!(request.cookie_header.is_none());
}

#[test]
fn calls_before_authentication_are_refused() {
    let untis = session();
    assert_eq!(untis.subjects_request().err(), Some(SessionFault::NotAuthenticated));
    assert_eq!(untis.timetable_request("20260101", "20260102").err(),
        Some(SessionFault::NotAuthenticated));
    assert_eq!(untis.logout_request().err(), Some(SessionFault::NotAuthenticated));
}

#[test]
fn authenticated_calls_carry_the_session_cookie() {
    let mut untis = session();
    untis.accept_session(String::from("token123"));
    let request = untis.subjects_request().unwrap();
    assert_eq!(request.url, untis.base_url);
    assert_eq!(
        request.body,
        "{\"id\":\"ID\",\"method\":\"getSubjects\",\"params\":{},\"jsonrpc\":\"2.0\"}"
    );
    assert_eq!(request.cookie_header.as_deref(), Some("JSESSIONID=token123"));
}

#[test]
fn timetable_request_names_class_and_dates() {
    let mut untis = session();
    untis.accept_session(String::from("t"));
    let request = untis.timetable_request("20260309", "20260310").unwrap();
    assert_eq!(
        request.body,
        "{\"id\":\"ID\",\"method\":\"getTimetable\",\"params\":{\"id\":\"661\",\"type\":1,\
         \"startDate\":\"20260309\",\"endDate\":\"20260310\"},\"jsonrpc\":\"2.0\"}"
    );
    assert_eq!(request.cookie_header.as_deref(), Some("JSESSIONID=t"));
}

#[test]
fn logout_request_has_empty_params() {
    let mut untis = session();
    untis.accept_session(String::from("t"));
    let request = untis.logout_request().unwrap();
    assert_eq!(
        request.body,
        "{\"id\":\"ID\",\"method\":\"logout\",\"params\":{},\"jsonrpc\":\"2.0\"}"
    );
}

#[test]
fn bot_requests_name_token_chat_and_text() {
    assert_eq!(bot_send_url("abc:def"), "https://api.telegram.org/botabc:def/sendMessage");
    assert_eq!(
        bot_send_body("12345", "Heute entfällt:\nMA1\n"),
        "{\"chat_id\":\"12345\",\"text\":\"Heute entfällt:\\nMA1\\n\"}"
    );
}

#[test]
fn json_quoting_escapes_the_delicate_characters() {
    assert_eq!(json_quoted("plain"), "\"plain\"");
    assert_eq!(json_quoted("a\"b"), "\"a\\\"b\"");
    assert_eq!(json_quoted("a\\b"), "\"a\\\\b\"");
    assert_eq!(json_quoted("a\nb\rc\td"), "\"a\\nb\\rc\\td\"");
    assert_eq!(json_quoted(""), "\"\"");
    assert_eq!(json_quoted("umlaut ä"), "\"umlaut ä\"");
}

#[test]
fn control_characters_get_unicode_escapes() {
    assert_eq!(json_quoted("\u{0}"), "\"\\u0000\"");
    assert_eq!(json_quoted("a\u{1}b"), "\"a\\u0001b\"");
    assert_eq!(json_quoted("\u{b}\u{c}"), "\"\\u000b\\u000c\"");
    assert_eq!(json_quoted("\u{10}"), "\"\\u0010\"");
    assert_eq!(json_quoted("\u{1f}"), "\"\\u001f\"");
    assert_eq!(json_quoted("\u{20}"), "\" \"");
}

#[test]
fn credentials_are_escaped_in_the_authenticate_body() {
    let untis = Untis::new(
        String::from("mese"),
        String::from("school"),
        String::from("u\"ser"),
        String::from("pa\\ss"),
        String::from("661"),
    );
    let request = untis.authenticate_request();
    assert_eq!(
        request.body,
        "{\"id\":\"ID\",\"method\":\"authenticate\",\"params\":{\"user\":\"u\\\"ser\",\
         \"password\":\"pa\\\\ss\",\"client\":\"CLIENT\"},\"jsonrpc\":\"2.0\"}"
    );
}

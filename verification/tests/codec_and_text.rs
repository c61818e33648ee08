use session_store::codec::{
    decode_session, encode_session, find_member, frame_session, session_from_members,
};
use session_store::session::{SessionError, StoredSession};
use session_store::shortcut::{on_shortcut, QuickAddAction};
use session_store::text::{is_blank_text, is_whitespace_char};
use session_store::widget::widget_payload;

fn member(name: &str, value: &str) -> (String, String) {
    (name.to_string(), value.to_string())
}

fn session(a: &str, r: &str, u: &str) -> StoredSession {
    StoredSession {
        access_token: a.to_string(),
        refresh_token: r.to_string(),
        user_id: u.to_string(),
    }
}

#[test]
fn white_space_is_what_std_calls_white_space() {
    let mut n: u32 = 0;
    while n <= 0x10FFFF {
        if let Some(c) = char::from_u32(n) {
            assert_eq!(is_whitespace_char(c), c.is_whitespace(), "U+{:04X}", n);
        }
        n += 1;
    }
}

#[test]
fn blank_is_what_trims_to_nothing() {
    let texts = [
        "", " ", "\n", "\t \r\n", "\u{2003}", " a ", "a", "\u{200b}", "\u{feff}", " \u{0} ",
        "  {}  ", "\u{3000}\u{3000}x",
    ];
    for t in texts {
        assert_eq!(is_blank_text(t), t.trim().is_empty(), "{:?}", t);
    }
    assert!(is_blank_text(""));
    assert!(is_blank_text(" \n\t"));
    assert!(!is_blank_text(" x "));
}

#[test]
fn frame_puts_literals_in_fixed_order() {
    assert_eq!(
        frame_session("\"abc\"", "\"def\"", "\"123\""),
        "{\"access_token\":\"abc\",\"refresh_token\":\"def\",\"user_id\":\"123\"}"
    );
    assert_eq!(frame_session("", "", ""), "{\"access_token\":,\"refresh_token\":,\"user_id\":}");
    assert_eq!(frame_session("1", "2", "3"), "{\"access_token\":1,\"refresh_token\":2,\"user_id\":3}");
}

#[test]
fn encode_quotes_each_field() {
    let text = encode_session(&session("tok1", "ref1", "u1"));
    assert_eq!(
        text.ok().as_deref(),
        Some("{\"access_token\":\"tok1\",\"refresh_token\":\"ref1\",\"user_id\":\"u1\"}")
    );
}

#[test]
fn encode_escapes_control_characters() {
    let text = encode_session(&session("\u{1}", "\u{8}\u{c}", "\r"));
    assert_eq!(
        text.ok().as_deref(),
        Some("{\"access_token\":\"\\u0001\",\"refresh_token\":\"\\b\\f\",\"user_id\":\"\\r\"}")
    );
}

#[test]
fn encode_then_decode_gives_the_record() {
    let s = session("a \"quoted\" token", "r\\n", "\u{fc}ser-\u{4e16}\u{754c}");
    let text = match encode_session(&s) {
        Ok(t) => t,
        Err(e) => panic!("{}", e.message()),
    };
    match decode_session(&text) {
        Ok(back) => {
            assert_eq!(back.access_token, s.access_token);
            assert_eq!(back.refresh_token, s.refresh_token);
            assert_eq!(back.user_id, s.user_id);
        }
        Err(e) => panic!("{}", e.message()),
    }
}

#[test]
fn decode_rejects_blank_and_broken_text() {
    assert!(matches!(decode_session(""), Err(SessionError::Deserialization(_))));
    assert!(matches!(decode_session("   "), Err(SessionError::Deserialization(_))));
    assert!(matches!(decode_session("{\"access_token\""), Err(SessionError::Deserialization(_))));
}

#[test]
fn decode_takes_the_last_of_repeated_fields() {
    let text = "{\"access_token\":\"a\",\"access_token\":\"b\",\"refresh_token\":\"r\",\"user_id\":\"u\"}";
    match decode_session(text) {
        Ok(s) => {
            assert_eq!(s.access_token, "b");
            assert_eq!(s.refresh_token, "r");
            assert_eq!(s.user_id, "u");
        }
        Err(e) => panic!("{}", e.message()),
    }
}

#[test]
fn find_member_gives_first_match() {
    let members = vec![member("x", "1"), member("y", "2"), member("x", "3")];
    assert_eq!(find_member(&members, "x").as_deref(), Some("1"));
    assert_eq!(find_member(&members, "y").as_deref(), Some("2"));
    assert_eq!(find_member(&members, "z"), None);
    assert_eq!(find_member(&members, ""), None);
    assert_eq!(find_member(&Vec::new(), "x"), None);
}

#[test]
fn members_in_any_order_give_the_record() {
    let members = vec![member("user_id", "u"), member("refresh_token", "r"), member("access_token", "a")];
    match session_from_members(&members) {
        Some(s) => {
            assert_eq!(s.access_token, "a");
            assert_eq!(s.refresh_token, "r");
            assert_eq!(s.user_id, "u");
        }
        None => panic!("three fields were refused"),
    }
}

#[test]
fn members_of_another_shape_give_none() {
    assert!(session_from_members(&Vec::new()).is_none());
    assert!(session_from_members(&vec![member("access_token", "a")]).is_none());
    assert!(session_from_members(&vec![
        member("access_token", "a"),
        member("refresh_token", "r"),
        member("user", "u"),
    ])
    .is_none());
    assert!(session_from_members(&vec![
        member("access_token", "a"),
        member("access_token", "b"),
        member("refresh_token", "r"),
    ])
    .is_none());
    assert!(session_from_members(&vec![
        member("access_token", "a"),
        member("refresh_token", "r"),
        member("user_id", "u"),
        member("extra", "x"),
    ])
    .is_none());
    assert!(session_from_members(&vec![
        member("Access_token", "a"),
        member("refresh_token", "r"),
        member("user_id", "u"),
    ])
    .is_none());
}

#[test]
fn widget_payload_holds_list_and_flag() {
    assert_eq!(
        widget_payload("[{\"id\":1}]", true),
        "{\"todos\":[{\"id\":1}],\"is_logged_in\":true}"
    );
    assert_eq!(
        widget_payload("[]", false),
        "{\"todos\":[],\"is_logged_in\":false}"
    );
    assert_eq!(
        widget_payload("", false),
        "{\"todos\":,\"is_logged_in\":false}"
    );
}

#[test]
fn shortcut_press_opens_or_focuses() {
    assert_eq!(on_shortcut(true, true, false), QuickAddAction::OpenNew);
    assert_eq!(on_shortcut(true, true, true), QuickAddAction::FocusExisting);
    assert_eq!(on_shortcut(true, false, false), QuickAddAction::Nothing);
    assert_eq!(on_shortcut(true, false, true), QuickAddAction::Nothing);
    assert_eq!(on_shortcut(false, true, false), QuickAddAction::Nothing);
    assert_eq!(on_shortcut(false, true, true), QuickAddAction::Nothing);
    assert_eq!(on_shortcut(false, false, false), QuickAddAction::Nothing);
    assert_eq!(on_shortcut(false, false, true), QuickAddAction::Nothing);
}

use identity_provider::domain::{AuthenticationResponse, Gender};
use identity_provider::extensions::Unit;
use identity_provider::ids::is_valid_session_id;
use identity_provider::session::Session;
use identity_provider::text::{same_text, strip_prefix};
use identity_provider::time::Timestamp;

#[test]
fn gender_is_read_from_its_name() {
    assert_eq!(Gender::from("Male".to_owned()), Gender::Male);
    assert_eq!(Gender::from("Female".to_owned()), Gender::Female);
    assert_eq!(Gender::from("Unknown".to_owned()), Gender::Unknown);
}

#[test]
fn any_other_text_names_no_gender() {
    for text in ["", "male", "FEMALE", "Male ", " Female", "Other", "M"] {
        assert_eq!(Gender::from(text.to_owned()), Gender::Unknown);
    }
}

#[test]
fn gender_is_written_as_its_name() {
    assert_eq!(Gender::Male.to_text(), "Male");
    assert_eq!(Gender::Female.to_text(), "Female");
    assert_eq!(Gender::Unknown.to_text(), "Unknown");
}

#[test]
fn gender_survives_the_round_trip() {
    for gender in [Gender::Male, Gender::Female, Gender::Unknown] {
        assert_eq!(Gender::from(gender.to_text()), gender);
    }
}

#[test]
fn login_answer_tells_of_the_session() {
    let session = Session {
        session_id: "67e55044-10b1-426f-9247-bb680e5fe0c8".to_owned(),
        expires: Timestamp::new(99, 1),
    };
    let response = AuthenticationResponse::of_session(session);
    assert_eq!(response.session_id, "67e55044-10b1-426f-9247-bb680e5fe0c8");
    assert_eq!(response.expires, Timestamp::new(99, 1));
}

#[test]
fn same_text_compares_character_by_character() {
    assert!(same_text("", ""));
    assert!(same_text("abc", "abc"));
    assert!(same_text("\u{e9}t\u{e9}", "\u{e9}t\u{e9}"));
    assert!(!same_text("abc", "abd"));
    assert!(!same_text("abc", "ab"));
    assert!(!same_text("ab", "abc"));
    assert!(!same_text("", "a"));
    assert!(!same_text("e", "\u{e9}"));
}

#[test]
fn strip_prefix_cuts_the_front_off() {
    assert_eq!(strip_prefix("session-id abc", "session-id "), Some("abc"));
    assert_eq!(strip_prefix("abc", ""), Some("abc"));
    assert_eq!(strip_prefix("abc", "abc"), Some(""));
    assert_eq!(strip_prefix("\u{e9}t\u{e9} fini", "\u{e9}t\u{e9} "), Some("fini"));
    assert_eq!(strip_prefix("abc", "abcd"), None);
    assert_eq!(strip_prefix("abc", "b"), None);
    assert_eq!(strip_prefix("", "a"), None);
}

#[test]
fn unit_forgets_what_an_option_holds() {
    assert_eq!(Some(7).unit(), Some(()));
    assert_eq!(Some("text").unit(), Some(()));
    assert_eq!(None::<u8>.unit(), None);
}

#[test]
fn unit_forgets_a_success_and_keeps_an_error() {
    assert_eq!(Ok::<u8, &str>(7).unit(), Ok(()));
    assert_eq!(Err::<u8, &str>("failed").unit(), Err("failed"));
}

#[test]
fn identifier_form_is_checked_character_by_character() {
    assert!(is_valid_session_id("67e55044-10b1-426f-9247-bb680e5fe0c8"));
    assert!(is_valid_session_id("F9168C5E-CEB2-4faa-B6BF-329BF39FA1E4"));
    assert!(is_valid_session_id("00000000-0000-0000-0000-000000000000"));
    assert!(is_valid_session_id("ffffffff-ffff-ffff-ffff-ffffffffffff"));
    assert!(!is_valid_session_id(""));
    assert!(!is_valid_session_id("67e55044-10b1-426f-9247-bb680e5fe0c"));
    assert!(!is_valid_session_id("67e55044-10b1-426f-9247-bb680e5fe0c8a"));
    assert!(!is_valid_session_id("67e55044010b1-426f-9247-bb680e5fe0c8"));
    assert!(!is_valid_session_id("67e55044-10b1-426f-9247-bb680e5fe0cg"));
    assert!(!is_valid_session_id("67e55044-10b1-426f-9247-bb680e5fe0c/"));
    assert!(!is_valid_session_id("67e55044-10b1-426f-9247-bb680e5fe0c:"));
    assert!(!is_valid_session_id("67e55044-10b1-426f-9247-bb680e5fe0c@"));
    assert!(!is_valid_session_id("67e55044-10b1-426f-9247-bb680e5fe0cG"));
    assert!(!is_valid_session_id("67e55044-10b1-426f-9247-bb680e5fe0c`"));
    assert!(!is_valid_session_id("-7e55044-10b1-426f-9247-bb680e5fe0c8"));
    assert!(!is_valid_session_id("67e5504410b1426f9247bb680e5fe0c8"));
    assert!(!is_valid_session_id("{67e55044-10b1-426f-9247-bb680e5fe0c8}"));
    assert!(!is_valid_session_id("urn:uuid:67e55044-10b1-426f-9247-bb680e5fe0c8"));
    assert!(!is_valid_session_id("67e55044-10b1-426f-9247-bb680e5fe0c\u{e9}"));
}

#[test]
fn identifier_form_agrees_with_the_uuid_parser() {
    let texts = [
        "67e55044-10b1-426f-9247-bb680e5fe0c8",
        "F9168C5E-CEB2-4faa-B6BF-329BF39FA1E4",
        "67e55044-10b1-426f-9247-bb680e5fe0cg",
        "67e55044-10b1-426f-9247-bb680e5fe0c",
        "67e55044+10b1-426f-9247-bb680e5fe0c8",
        "67e55044-10b1-426f-9247-bb680e5fe0c\u{e9}",
        "\u{ff16}7e55044-10b1-426f-9247-bb680e5fe0c8",
        "",
    ];
    for text in texts {
        let parsed: Result<uuid::fmt::Hyphenated, uuid::Error> = text.parse();
        assert_eq!(is_valid_session_id(text), parsed.is_ok());
    }
}

use modsecurity::cstr::{check_text, decode_text, find_nul};
use modsecurity::error::decimal_string;
use modsecurity::intervention::RawIntervention;
use modsecurity::msc::CONNECTOR_INFO;
use modsecurity::rules::{load_result, RuleSource};
use modsecurity::transaction::phase_result;
use modsecurity::{Intervention, ModSecurityError};

#[test]
fn nul_bytes_are_found_at_their_byte_position() {
    assert_eq!(find_nul(b""), None);
    assert_eq!(find_nul(b"abc"), None);
    assert_eq!(find_nul(b"\0"), Some(0));
    assert_eq!(find_nul(b"ab\0c\0"), Some(2));
    assert_eq!(check_text("plain text"), Ok(()));
    assert_eq!(check_text(""), Ok(()));
    assert_eq!(check_text("é\0"), Err(ModSecurityError::Nul(2)));
    assert_eq!(
        check_text("invalid\0connector\0info"),
        Err(ModSecurityError::Nul(7))
    );
}

#[test]
fn connector_info_default_has_no_nul() {
    assert_eq!(CONNECTOR_INFO, "rust-modsecurity v0.1.0");
    assert_eq!(check_text(CONNECTOR_INFO), Ok(()));
}

#[test]
fn decimal_notation() {
    assert_eq!(decimal_string(0), "0");
    assert_eq!(decimal_string(7), "7");
    assert_eq!(decimal_string(10), "10");
    assert_eq!(decimal_string(4096), "4096");
    assert_eq!(decimal_string(usize::MAX), usize::MAX.to_string());
}

#[test]
fn error_messages() {
    assert_eq!(
        ModSecurityError::Nul(7).message(),
        "Nul error: nul byte found in provided data at position: 7"
    );
    assert_eq!(ModSecurityError::ProcessConnection.message(), "Error processing connection");
    assert_eq!(ModSecurityError::ProcessUri.message(), "Error processing URI");
    assert_eq!(ModSecurityError::ProcessLogging.message(), "Error processing logging");
    assert_eq!(ModSecurityError::ProcessRequestBody.message(), "Error processing request body");
    assert_eq!(ModSecurityError::ProcessResponseBody.message(), "Error processing response body");
    assert_eq!(
        ModSecurityError::ProcessRequestHeaders.message(),
        "Error processing request headers"
    );
    assert_eq!(
        ModSecurityError::ProcessResponseHeaders.message(),
        "Error processing response headers"
    );
    assert_eq!(ModSecurityError::AddRequestHeader.message(), "Error adding request header");
    assert_eq!(ModSecurityError::AddResponseHeader.message(), "Error adding response header");
    assert_eq!(ModSecurityError::AppendRequestBody.message(), "Error appending to request body");
    assert_eq!(
        ModSecurityError::AppendResponseBody.message(),
        "Error appending to response body"
    );
    assert_eq!(ModSecurityError::Intervention.message(), "Error checking for intervention");
    assert_eq!(
        ModSecurityError::RulesAddFile("no such file".to_string()).message(),
        "Error adding file to rule set: no such file"
    );
    assert_eq!(
        ModSecurityError::RulesAddPlain("bad directive".to_string()).message(),
        "Error adding plain rules to rule set: bad directive"
    );
    assert_eq!(ModSecurityError::UpdateStatusCode.message(), "Error updating status code");
}

#[test]
fn phase_codes() {
    assert_eq!(phase_result(1, ModSecurityError::ProcessUri), Ok(()));
    assert_eq!(phase_result(0, ModSecurityError::ProcessUri), Err(ModSecurityError::ProcessUri));
    assert_eq!(phase_result(2, ModSecurityError::ProcessLogging), Ok(()));
    assert_eq!(phase_result(i32::MAX, ModSecurityError::ProcessLogging), Ok(()));
    assert_eq!(
        phase_result(-1, ModSecurityError::AddRequestHeader),
        Err(ModSecurityError::AddRequestHeader)
    );
}

#[test]
fn load_codes_and_messages() {
    assert_eq!(load_result(0, None, RuleSource::File), Ok(()));
    assert_eq!(load_result(3, Some(b"ignored".to_vec()), RuleSource::Plain), Ok(()));
    assert_eq!(
        load_result(-1, None, RuleSource::File),
        Err(ModSecurityError::RulesAddFile("Unknown error".to_string()))
    );
    assert_eq!(
        load_result(-1, Some(b"Rules error at line 2".to_vec()), RuleSource::Plain),
        Err(ModSecurityError::RulesAddPlain("Rules error at line 2".to_string()))
    );
    assert_eq!(
        load_result(-5, Some(vec![b'a', 0xff, b'b']), RuleSource::Plain),
        Err(ModSecurityError::RulesAddPlain("a\u{fffd}b".to_string()))
    );
}

#[test]
fn decisions_are_copied_from_the_native_record() {
    let raw = RawIntervention {
        status: 302,
        pause: 5,
        url: Some(b"https://example.com/blocked".to_vec()),
        log: Some("Zugriff verweigert: ü".as_bytes().to_vec()),
        disruptive: 1,
    };
    let i = Intervention::from_native(1, raw).unwrap();
    assert_eq!(i.status(), 302);
    assert_eq!(i.pause(), 5);
    assert_eq!(i.url(), Some("https://example.com/blocked"));
    assert_eq!(i.log(), Some("Zugriff verweigert: ü"));
    assert!(i.disruptive());
}

#[test]
fn no_decision_for_non_positive_codes() {
    assert!(Intervention::from_native(0, RawIntervention::empty()).is_none());
    assert!(Intervention::from_native(-1, RawIntervention::empty()).is_none());
    let empty = Intervention::from_native(1, RawIntervention::empty()).unwrap();
    assert_eq!(empty.status(), 200);
    assert_eq!(empty.pause(), 0);
    assert_eq!(empty.url(), None);
    assert_eq!(empty.log(), None);
    assert!(!empty.disruptive());
}

#[test]
fn invalid_text_fields_read_as_absent() {
    let raw = RawIntervention {
        status: 403,
        pause: 0,
        url: Some(vec![0xc3, 0x28]),
        log: Some(vec![0xed, 0xa0, 0x80]),
        disruptive: 7,
    };
    let i = Intervention::new(raw);
    assert_eq!(i.url(), None);
    assert_eq!(i.log(), None);
    assert!(i.disruptive());
}

#[test]
fn echoed_header_text_round_trips() {
    let header = "X-Naïve-Ünicode ✓ 🚀";
    let decoded = decode_text(Some(header.as_bytes().to_vec()));
    assert_eq!(decoded.as_deref(), Some(header));
    assert_eq!(decode_text(None), None);
    assert_eq!(decode_text(Some(vec![0x80])), None);
}

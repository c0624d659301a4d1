use backup_report::collector::{decode_output, status_invocation, Invocation};
use backup_report::text::text_eq;

#[test]
fn asks_the_backup_tool_for_json() {
    assert_eq!(
        status_invocation(),
        Invocation {
            program: "pg_probackup".to_string(),
            arguments: vec![
                "show".to_string(),
                "--instance=odo".to_string(),
                "--format=json".to_string(),
            ],
        }
    );
}

#[test]
fn decodes_text_as_it_is() {
    assert_eq!(decode_output(b""), "");
    assert_eq!(decode_output(b"[]"), "[]");
    assert_eq!(decode_output("Бот \u{1F600}".as_bytes()), "Бот \u{1F600}");
}

#[test]
fn decodes_what_is_no_text_as_the_replacement_character() {
    assert_eq!(decode_output(&[0x66, 0xff, 0x6f]), "f\u{fffd}o");
    assert_eq!(decode_output(&[0xc3]), "\u{fffd}");
    assert_eq!(decode_output(&[0x80, 0x41]), "\u{fffd}A");
}

#[test]
fn compares_texts_by_their_characters() {
    assert!(text_eq("", ""));
    assert!(text_eq("info", "info"));
    assert!(text_eq("Бот", "Бот"));
    assert!(!text_eq("info", "Info"));
    assert!(!text_eq("info", "inf"));
    assert!(!text_eq("inf", "info"));
    assert!(!text_eq("", "a"));
    assert!(!text_eq("abcd", "abce"));
}

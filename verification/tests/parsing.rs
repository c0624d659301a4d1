use backup_report::model::{Backup, Instance, Report};
use backup_report::parser::{parse_report, report_from_json, Field, ParseError};

fn backup(id: &str, recovery_time: &str, backup_mode: &str, status: &str) -> Backup {
    Backup {
        id: id.to_string(),
        recovery_time: recovery_time.to_string(),
        backup_mode: backup_mode.to_string(),
        status: status.to_string(),
    }
}

const ONE_INSTANCE: &str = r#"[{"instance":"odo","backup":[{"id":"B1","recovery-time":"2024-01-01","backup-mode":"full","status":"OK"}]}]"#;

#[test]
fn reads_one_instance_with_one_backup() {
    let report = parse_report(ONE_INSTANCE).unwrap();
    assert_eq!(
        report,
        Report {
            instances: vec![Instance {
                name: "odo".to_string(),
                backups: vec![backup("B1", "2024-01-01", "full", "OK")],
            }],
        }
    );
}

#[test]
fn keeps_the_order_of_instances_and_backups() {
    let raw = r#"[
        {"instance": "second", "backup": [
            {"id": "Z", "recovery-time": "t3", "backup-mode": "PAGE", "status": "RUNNING"},
            {"id": "A", "recovery-time": "t1", "backup-mode": "FULL", "status": "ERROR"},
            {"id": "M", "recovery-time": "t2", "backup-mode": "DELTA", "status": "OK"}
        ]},
        {"instance": "first", "backup": []}
    ]"#;
    let report = parse_report(raw).unwrap();
    assert_eq!(report.instances.len(), 2);
    assert_eq!(report.instances[0].name, "second");
    assert_eq!(
        report.instances[0].backups,
        vec![
            backup("Z", "t3", "PAGE", "RUNNING"),
            backup("A", "t1", "FULL", "ERROR"),
            backup("M", "t2", "DELTA", "OK"),
        ]
    );
    assert_eq!(report.instances[1].name, "first");
    assert!(report.instances[1].backups.is_empty());
}

#[test]
fn reads_an_empty_list_as_an_empty_report() {
    assert_eq!(parse_report("[]"), Ok(Report { instances: vec![] }));
}

#[test]
fn ignores_members_under_other_keys() {
    let raw = r#"[{"instance":"odo","note":1,"backup":[{"id":"B1","parent-backup-id":"B0","recovery-time":"2024-01-01","backup-mode":"full","status":"OK","wal":{"size":7}}],"extra":[true,null]}]"#;
    assert_eq!(parse_report(raw), parse_report(ONE_INSTANCE));
    assert!(parse_report(raw).is_ok());
}

#[test]
fn refuses_a_backup_without_status() {
    let raw = r#"[{"instance":"odo","backup":[{"id":"B1","recovery-time":"2024-01-01","backup-mode":"full"}]}]"#;
    assert_eq!(parse_report(raw), Err(ParseError::MissingField(Field::Status)));
}

#[test]
fn refuses_a_backup_without_each_of_its_members() {
    let cases = [
        (r#"{"recovery-time":"t","backup-mode":"m","status":"s"}"#, Field::Id),
        (r#"{"id":"i","backup-mode":"m","status":"s"}"#, Field::RecoveryTime),
        (r#"{"id":"i","recovery-time":"t","status":"s"}"#, Field::BackupMode),
        (r#"{"id":"i","recovery-time":"t","backup-mode":"m"}"#, Field::Status),
    ];
    for (entry, field) in cases {
        let raw = format!(r#"[{{"instance":"odo","backup":[{}]}}]"#, entry);
        assert_eq!(parse_report(&raw), Err(ParseError::MissingField(field)));
    }
}

#[test]
fn refuses_an_instance_without_its_name_or_its_backups() {
    assert_eq!(
        parse_report(r#"[{"backup":[]}]"#),
        Err(ParseError::MissingField(Field::Instance))
    );
    assert_eq!(
        parse_report(r#"[{"instance":"odo"}]"#),
        Err(ParseError::MissingField(Field::Backup))
    );
    assert_eq!(
        parse_report(r#"[{"instance":"odo","backups":[]}]"#),
        Err(ParseError::MissingField(Field::Backup))
    );
}

#[test]
fn refuses_members_of_another_type() {
    assert_eq!(
        parse_report(r#"[{"instance":7,"backup":[]}]"#),
        Err(ParseError::WrongType(Field::Instance))
    );
    assert_eq!(
        parse_report(r#"[{"instance":"odo","backup":{}}]"#),
        Err(ParseError::WrongType(Field::Backup))
    );
    assert_eq!(
        parse_report(
            r#"[{"instance":"odo","backup":[{"id":"i","recovery-time":null,"backup-mode":"m","status":"s"}]}]"#
        ),
        Err(ParseError::WrongType(Field::RecoveryTime))
    );
}

#[test]
fn refuses_json_that_is_no_list() {
    assert_eq!(parse_report(r#"{"instance":"odo","backup":[]}"#), Err(ParseError::NotAList));
    assert_eq!(parse_report("null"), Err(ParseError::NotAList));
    assert_eq!(parse_report(r#""odo""#), Err(ParseError::NotAList));
}

#[test]
fn refuses_an_element_that_is_no_object() {
    assert_eq!(parse_report("[1]"), Err(ParseError::MissingField(Field::Instance)));
    assert_eq!(
        parse_report(r#"[{"instance":"odo","backup":["B1"]}]"#),
        Err(ParseError::MissingField(Field::Id))
    );
}

#[test]
fn reports_the_first_failure_in_order() {
    let raw = r#"[
        {"instance":"a","backup":[{"id":"1","recovery-time":"t","backup-mode":"m","status":"s"},{"id":"2","recovery-time":"t","status":"s"}]},
        {"backup":[]}
    ]"#;
    assert_eq!(parse_report(raw), Err(ParseError::MissingField(Field::BackupMode)));
}

#[test]
fn refuses_text_that_is_no_json_with_the_readers_message() {
    let expected = serde_json::from_str::<serde_json::Value>("not-json").unwrap_err().to_string();
    assert_eq!(expected, "expected ident at line 1 column 2");
    assert_eq!(parse_report("not-json"), Err(ParseError::Syntax(expected)));
    assert!(matches!(parse_report(""), Err(ParseError::Syntax(_))));
    assert!(matches!(parse_report("[{]"), Err(ParseError::Syntax(_))));
}

#[test]
fn reads_a_report_out_of_a_json_value() {
    let value: serde_json::Value = serde_json::from_str(ONE_INSTANCE).unwrap();
    assert_eq!(report_from_json(&value), parse_report(ONE_INSTANCE));
    assert_eq!(report_from_json(&serde_json::Value::Null), Err(ParseError::NotAList));
    assert_eq!(
        report_from_json(&serde_json::Value::Array(vec![serde_json::Value::Bool(true)])),
        Err(ParseError::MissingField(Field::Instance))
    );
}

#[test]
fn describes_each_error() {
    assert_eq!(ParseError::Syntax("expected value".to_string()).description(), "expected value");
    assert_eq!(
        ParseError::NotAList.description(),
        "invalid type: expected a list of instances"
    );
    assert_eq!(
        ParseError::MissingField(Field::Status).description(),
        "missing field `status`"
    );
    assert_eq!(
        ParseError::MissingField(Field::RecoveryTime).description(),
        "missing field `recovery-time`"
    );
    assert_eq!(
        ParseError::WrongType(Field::BackupMode).description(),
        "invalid type for field `backup-mode`"
    );
}

#[test]
fn names_each_field_by_its_key() {
    assert_eq!(Field::Instance.key(), "instance");
    assert_eq!(Field::Backup.key(), "backup");
    assert_eq!(Field::Id.key(), "id");
    assert_eq!(Field::RecoveryTime.key(), "recovery-time");
    assert_eq!(Field::BackupMode.key(), "backup-mode");
    assert_eq!(Field::Status.key(), "status");
}

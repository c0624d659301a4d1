use backup_report::model::{Backup, Instance, Report};
use backup_report::parser::parse_report;
use backup_report::render::{format_backup, format_instance, format_report};

const DIVIDER: &str = "-------------------------------------------------------";

fn backup(id: &str, recovery_time: &str, backup_mode: &str, status: &str) -> Backup {
    Backup {
        id: id.to_string(),
        recovery_time: recovery_time.to_string(),
        backup_mode: backup_mode.to_string(),
        status: status.to_string(),
    }
}

#[test]
fn renders_a_backup_as_divider_and_four_lines() {
    assert_eq!(DIVIDER.len(), 55);
    assert_eq!(
        format_backup(&backup("B1", "2024-01-01", "full", "OK")),
        format!("{DIVIDER}\nid: B1\nrecovery time: 2024-01-01\nbackup mode: full\nstatus: OK")
    );
}

#[test]
fn renders_an_instance_without_backups_as_its_header() {
    let instance = Instance { name: "odo".to_string(), backups: vec![] };
    assert_eq!(format_instance(&instance), "Instance: <b>odo</b>\n");
}

#[test]
fn renders_the_backups_of_an_instance_in_order() {
    let instance = Instance {
        name: "odo".to_string(),
        backups: vec![backup("B2", "t2", "PAGE", "ERROR"), backup("B1", "t1", "FULL", "OK")],
    };
    let expected = format!(
        "Instance: <b>odo</b>\n{DIVIDER}\nid: B2\nrecovery time: t2\nbackup mode: PAGE\nstatus: ERROR\n{DIVIDER}\nid: B1\nrecovery time: t1\nbackup mode: FULL\nstatus: OK"
    );
    assert_eq!(format_instance(&instance), expected);
}

#[test]
fn renders_one_block_per_instance() {
    let report = Report {
        instances: vec![
            Instance { name: "b".to_string(), backups: vec![backup("1", "t", "m", "s")] },
            Instance { name: "a".to_string(), backups: vec![] },
            Instance {
                name: "c".to_string(),
                backups: vec![backup("2", "t", "m", "s"), backup("3", "t", "m", "s")],
            },
        ],
    };
    let blocks = format_report(&report);
    assert_eq!(blocks.len(), 3);
    for (block, instance) in blocks.iter().zip(report.instances.iter()) {
        assert_eq!(*block, format_instance(instance));
        assert_eq!(block.matches(DIVIDER).count(), instance.backups.len());
    }
    assert!(blocks[0].starts_with("Instance: <b>b</b>\n"));
    assert!(blocks[1].starts_with("Instance: <b>a</b>\n"));
    assert!(blocks[2].starts_with("Instance: <b>c</b>\n"));
    assert!(blocks[2].find("id: 2").unwrap() < blocks[2].find("id: 3").unwrap());
}

#[test]
fn renders_an_empty_report_as_no_block() {
    assert!(format_report(&Report { instances: vec![] }).is_empty());
}

#[test]
fn renders_the_same_report_twice_alike() {
    let report = Report {
        instances: vec![Instance {
            name: "odo".to_string(),
            backups: vec![backup("B1", "2024-01-01", "full", "OK")],
        }],
    };
    assert_eq!(format_report(&report), format_report(&report));
}

#[test]
fn renders_as_many_blocks_and_entries_as_the_text_lists() {
    let raw = r#"[
        {"instance":"one","backup":[
            {"id":"a","recovery-time":"t","backup-mode":"m","status":"s"},
            {"id":"b","recovery-time":"t","backup-mode":"m","status":"s"},
            {"id":"c","recovery-time":"t","backup-mode":"m","status":"s"}]},
        {"instance":"two","backup":[]},
        {"instance":"three","backup":[
            {"id":"d","recovery-time":"t","backup-mode":"m","status":"s"}]}
    ]"#;
    let blocks = format_report(&parse_report(raw).unwrap());
    let counts: Vec<usize> = blocks.iter().map(|block| block.matches(DIVIDER).count()).collect();
    assert_eq!(counts, vec![3, 0, 1]);
    let first = &blocks[0];
    let a = first.find("id: a").unwrap();
    let b = first.find("id: b").unwrap();
    let c = first.find("id: c").unwrap();
    assert!(a < b && b < c);
}

#[test]
fn does_not_escape_the_texts_it_renders() {
    let instance = Instance { name: "<odo>".to_string(), backups: vec![] };
    assert_eq!(format_instance(&instance), "Instance: <b><odo></b>\n");
}

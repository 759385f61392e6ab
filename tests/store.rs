use vrc_log_unrotate::classifier::{LogDate, VRCLogfile};
use vrc_log_unrotate::path::{FsPath, IoFailure};
use vrc_log_unrotate::store::{link_result, padded_decimal_bytes, LinkOutcome, UnrotateCollection};

fn parts(p: &FsPath) -> Vec<String> {
    p.parts.iter().map(|b| String::from_utf8(b.clone()).unwrap()).collect()
}

fn collection() -> UnrotateCollection {
    UnrotateCollection::new(FsPath::new(b"C".to_vec()))
}

#[test]
fn partition_path_of_a_date() {
    let d = LogDate { year: 2024, month: 3, day: 7 };
    let c = collection();
    assert_eq!(parts(&c.partition_folder_path(d)), vec!["C", "2024-03", "07"]);
    assert_eq!(parts(&c.partition_folder_path(d)), vec!["C", "2024-03", "07"]);
}

#[test]
fn partition_path_pads_small_years() {
    let d = LogDate { year: 7, month: 12, day: 31 };
    assert_eq!(parts(&collection().partition_folder_path(d)), vec!["C", "0007-12", "31"]);
}

#[test]
fn padded_decimal_keeps_width() {
    assert_eq!(padded_decimal_bytes(5, 2), b"05".to_vec());
    assert_eq!(padded_decimal_bytes(2024, 4), b"2024".to_vec());
    assert_eq!(padded_decimal_bytes(0, 3), b"000".to_vec());
}

#[test]
fn with_locallow_path_joins_template() {
    let root = FsPath::new(b"L".to_vec());
    let c = UnrotateCollection::with_locallow_path(&root, b"KOBA789".to_vec(), b"VRCLogUnrotate".to_vec(), b"Logs".to_vec());
    assert_eq!(parts(&c.collection_path), vec!["L", "KOBA789", "VRCLogUnrotate", "Logs"]);
}

#[test]
fn link_plan_uses_source_name() {
    let f = VRCLogfile {
        path: FsPath::new(b"W".to_vec()).join(b"output_log_24-03-07.txt".to_vec()),
        date: LogDate { year: 2024, month: 3, day: 7 },
    };
    let plan = collection().link_plan(&f);
    assert_eq!(parts(&plan.source), vec!["W", "output_log_24-03-07.txt"]);
    assert_eq!(parts(&plan.dir), vec!["C", "2024-03", "07"]);
    assert_eq!(parts(&plan.dest), vec!["C", "2024-03", "07", "output_log_24-03-07.txt"]);
    let again = collection().link_plan(&f);
    assert_eq!(parts(&again.dest), parts(&plan.dest));
}

#[test]
fn existing_destination_is_success() {
    assert!(link_result(LinkOutcome::Linked).is_ok());
    assert!(link_result(LinkOutcome::AlreadyExists).is_ok());
    let e = link_result(LinkOutcome::Failed(IoFailure { message: "denied".to_string() }));
    assert_eq!(e.unwrap_err().message, "denied");
}

#[test]
fn different_dates_get_different_directories() {
    let c = collection();
    let a = parts(&c.partition_folder_path(LogDate { year: 2024, month: 3, day: 7 }));
    let b = parts(&c.partition_folder_path(LogDate { year: 2024, month: 3, day: 8 }));
    let d = parts(&c.partition_folder_path(LogDate { year: 2023, month: 3, day: 7 }));
    assert_ne!(a, b);
    assert_ne!(a, d);
    assert_eq!(b, vec!["C", "2024-03", "08"]);
}

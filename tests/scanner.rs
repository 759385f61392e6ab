use vrc_log_unrotate::path::FsPath;
use vrc_log_unrotate::scanner::{is_log_file_name, EntryInfo, LocalLowVRChat};

fn parts(p: &FsPath) -> Vec<String> {
    p.parts.iter().map(|b| String::from_utf8(b.clone()).unwrap()).collect()
}

#[test]
fn log_name_accepts_exact_pattern() {
    assert!(is_log_file_name(b"output_log_24-03-07.txt"));
    assert!(is_log_file_name(b"output_log_00-00-00.txt"));
}

#[test]
fn log_name_rejects_near_misses() {
    assert!(!is_log_file_name(b"notalog.txt"));
    assert!(!is_log_file_name(b"Output_log_24-03-07.txt"));
    assert!(!is_log_file_name(b"output_log_24-03-07.TXT"));
    assert!(!is_log_file_name(b"output_log_24-03-7.txt"));
    assert!(!is_log_file_name(b"output_log_24-03-0a.txt"));
    assert!(!is_log_file_name(b"xoutput_log_24-03-07.txt"));
    assert!(!is_log_file_name(b"output_log_24-03-07.txt.bak"));
    assert!(!is_log_file_name(b"output_log_24_03_07.txt"));
    assert!(!is_log_file_name(b""));
}

#[test]
fn from_locallow_path_joins_vendor_and_app() {
    let root = FsPath::new(b"C:\\Users\\u\\AppData\\LocalLow".to_vec());
    let v = LocalLowVRChat::from_locallow_path(&root, b"VRChat".to_vec(), b"VRChat".to_vec());
    assert_eq!(parts(&v.vrchat_path), vec!["C:\\Users\\u\\AppData\\LocalLow", "VRChat", "VRChat"]);
}

#[test]
fn listing_keeps_regular_log_files_only() {
    let v = LocalLowVRChat::new(FsPath::new(b"W".to_vec()));
    let entries = vec![
        EntryInfo { name: b"output_log_24-03-07.txt".to_vec(), is_file: true },
        EntryInfo { name: b"notalog.txt".to_vec(), is_file: true },
        EntryInfo { name: b"output_log_24-03-08.txt".to_vec(), is_file: false },
        EntryInfo { name: b"output_log_24-03-09.txt".to_vec(), is_file: true },
    ];
    let r = v.list_logfile_paths(&entries);
    let got: Vec<Vec<String>> = r.iter().map(parts).collect();
    assert_eq!(
        got,
        vec![
            vec!["W".to_string(), "output_log_24-03-07.txt".to_string()],
            vec!["W".to_string(), "output_log_24-03-09.txt".to_string()],
        ]
    );
}

#[test]
fn listing_of_empty_directory_is_empty() {
    let v = LocalLowVRChat::new(FsPath::new(b"W".to_vec()));
    assert!(v.list_logfile_paths(&Vec::new()).is_empty());
}

use mmfplace::checker::Checker;
use mmfplace::dupf::process;

#[test]
fn test_checker() {
    let path = "/tmp/mmfplace-tests/simple.jpg";
    let checker = Checker::new(path, true, false);
    assert!(!checker.is_ignore());
    assert!(!checker.is_placed());
    assert!(!checker.is_skip());

    let placed = Checker::new(path, true, true);
    assert!(placed.is_placed());
    assert!(placed.is_skip());
}

#[test]
fn marker_files_are_ignored() {
    let marker = Checker::new("/tmp/mmfplace-tests/simple.jpg.MMFPlace", true, false);
    assert!(marker.is_ignore());
    assert!(marker.is_skip());
    let directory = Checker::new("/tmp/mmfplace-tests", false, false);
    assert!(directory.is_ignore());
}

#[test]
fn test_get_dup_files() {
    let entries = vec![
        ("hash1".to_string(), "tests/a.jpg".to_string()),
        ("hash2".to_string(), "tests/b.jpg".to_string()),
        ("hash1".to_string(), "tests/c.jpg".to_string()),
        ("hash3".to_string(), "tests/d.jpg".to_string()),
        ("hash1".to_string(), "tests/e.jpg".to_string()),
    ];
    let dup = process(&entries);
    println!("dup: {:#?}", dup);
    assert_eq!(dup.len(), 1);
    assert_eq!(dup[0].hash, "hash1");
    assert_eq!(
        dup[0].paths,
        vec![
            "tests/a.jpg".to_string(),
            "tests/c.jpg".to_string(),
            "tests/e.jpg".to_string()
        ]
    );
}

#[test]
fn no_duplicates_no_groups() {
    let entries = vec![
        ("hash1".to_string(), "tests/a.jpg".to_string()),
        ("hash2".to_string(), "tests/b.jpg".to_string()),
    ];
    assert!(process(&entries).is_empty());
}

use mmfplace::datetime::FileDateTime;
use mmfplace::target::{output_gen, Target};
use mmfplace::PlaceError;

// 2024-01-01T00:00:00Z
const ATTR_2024: i64 = 1704067200;

fn resolved_target(path: &str, hash: &str) -> Target {
    let mut t = Target::new(path, hash, ATTR_2024, ATTR_2024, None);
    // 2002-11-16T15:27:01Z
    t.add_parsedtime(FileDateTime::from_parts(2002, 11, 16, 15, 27, 1, 1037460421));
    t.set_earliest(None).unwrap();
    t
}

#[test]
fn test_get_name() {
    let target = Target::new(
        "tests/2025/07/\u{5c0f}\u{9e21}\u{52a8}\u{753b}.gif",
        "a6cc791ccd13f0dea507b0eb0f2c1b47",
        ATTR_2024,
        ATTR_2024,
        None,
    );
    assert_eq!(target.extension, "gif");
    assert_eq!(target.get_name(1, Some("abc")), "abc_01.gif");
}

#[test]
fn test_output_gen() {
    let parts = vec![
        "2025".to_string(),
        "07".to_string(),
        "\u{5c0f}\u{9e21}\u{52a8}\u{753b}.gif".to_string(),
    ];
    let output = output_gen("tests", &parts);
    println!("general output: {:?}", output);
    assert_eq!(output, "tests/2025/07/\u{5c0f}\u{9e21}\u{52a8}\u{753b}.gif");
}

#[test]
fn collision_indices_in_commit_order() {
    // Three files with distinct content but identical resolved name and
    // date get the names name.ext, name_01.ext, name_02.ext in the order
    // they are committed.
    let mut existing: Vec<String> = Vec::new();

    let mut t1 = resolved_target("in/photo.jpg", "hash1");
    t1.set_output("out", false, &existing).unwrap();
    assert_eq!(t1.output, "out/2002/11/photo.jpg");
    existing.push(t1.output.clone());

    let mut t2 = resolved_target("in/other/photo.jpg", "hash2");
    t2.set_output("out", false, &existing).unwrap();
    assert_eq!(t2.output, "out/2002/11/photo_01.jpg");
    existing.push(t2.output.clone());

    let mut t3 = resolved_target("in/third/photo.jpg", "hash3");
    t3.set_output("out", false, &existing).unwrap();
    assert_eq!(t3.output, "out/2002/11/photo_02.jpg");

    assert_eq!(
        t3.get_parts().unwrap(),
        &vec!["2002".to_string(), "11".to_string(), "photo_02.jpg".to_string()]
    );
}

#[test]
fn rename_with_date_stem() {
    let mut t = resolved_target("in/photo.jpg", "hash1");
    let existing: Vec<String> = Vec::new();
    t.set_output("out", true, &existing).unwrap();
    assert_eq!(t.output, "out/2002/11/2002-11-16.jpg");
}

#[test]
fn dealt_target_reuses_recorded_parts() {
    let mut t = Target::new("in/photo.jpg", "hash1", ATTR_2024, ATTR_2024, None);
    t.dealt = true;
    t.set_parts(Some(vec![
        "2002".to_string(),
        "11".to_string(),
        "photo.jpg".to_string(),
    ]));
    let existing: Vec<String> = Vec::new();
    t.set_output("out", false, &existing).unwrap();
    assert_eq!(t.output, "out/2002/11/photo.jpg");
}

#[test]
fn earliest_prefers_parsed_over_attributes() {
    let t = resolved_target("in/photo.jpg", "hash1");
    let e = t.get_earliest().unwrap();
    assert_eq!(e.get_year(), 2002);
    assert_eq!(e.get_timestamp(), 1037460421);
}

#[test]
fn attributes_fill_in_when_nothing_parsed() {
    let mut t = Target::new("in/photo.jpg", "hash1", ATTR_2024 + 60, ATTR_2024, None);
    t.set_earliest(None).unwrap();
    let e = t.get_earliest().unwrap();
    assert_eq!(e.get_timestamp(), ATTR_2024);
    assert_eq!(e.get_year(), 2024);
}

#[test]
fn historical_timestamp_adopted() {
    let mut t = Target::new("in/photo.jpg", "hash1", ATTR_2024, ATTR_2024, None);
    t.dealt = true;
    t.set_parts(Some(vec!["x".to_string()]));
    t.set_earliest(Some(1037460421)).unwrap();
    let e = t.get_earliest().unwrap();
    assert_eq!(e.get_year(), 2002);
    assert_eq!(e.get_month(), 11);
    assert_eq!(e.get_day(), 16);
    assert_eq!(e.get_hour(), 15);
}

#[test]
fn unresolved_earliest_is_an_error() {
    let mut t = Target::new("in/photo.jpg", "hash1", ATTR_2024, ATTR_2024, None);
    assert_eq!(t.get_earliest().err(), Some(PlaceError::EarliestNotSet));
    assert_eq!(t.get_parts().err(), Some(PlaceError::PartsNotSet));
    let existing: Vec<String> = Vec::new();
    assert_eq!(
        t.set_output("out", false, &existing).err(),
        Some(PlaceError::EarliestNotSet)
    );
}

#[test]
fn collision_cap_is_fatal() {
    // Every index below the cap is taken: placement fails loudly.
    let mut existing: Vec<String> = Vec::new();
    existing.push("out/2002/11/photo.jpg".to_string());
    for i in 1..1000 {
        existing.push(format!("out/2002/11/photo_{:02}.jpg", i));
    }
    let mut t = resolved_target("in/photo.jpg", "hash1");
    assert_eq!(
        t.set_output("out", false, &existing).err(),
        Some(PlaceError::TooManyCollisions)
    );
}

#[test]
fn extension_defaults_and_lowering() {
    let t = Target::new("in/IMG.JPG", "h", ATTR_2024, ATTR_2024, None);
    assert_eq!(t.extension, "jpg");
    assert_eq!(t.name, "img");
    let t = Target::new("in/noextension", "h", ATTR_2024, ATTR_2024, None);
    assert_eq!(t.extension, "bin");
    assert_eq!(t.name, "noextension");
    let t = Target::new("in/", "h", ATTR_2024, ATTR_2024, None);
    assert_eq!(t.name, "NoName");
    let t = Target::new("in/archive.tar.gz", "h", ATTR_2024, ATTR_2024, None);
    assert_eq!(t.extension, "gz");
    assert_eq!(t.name, "archive.tar");
}

#[test]
fn need_copy_decision() {
    let t = resolved_target("in/photo.jpg", "hash1");
    assert!(!t.need_copy(true, true));
    assert!(t.need_copy(true, false));
    assert!(t.need_copy(false, false));
}

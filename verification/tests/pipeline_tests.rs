use mmfplace::config::Config;
use mmfplace::db::{place_decision, FileInfo, PlaceAction};
use mmfplace::pipeline::{do_parse, target_record};
use mmfplace::target::Target;

// 2024-01-01T00:00:00Z
const ATTR_2024: i64 = 1704067200;

fn record(hash: &str, earliest: i64) -> FileInfo {
    FileInfo {
        parts: vec!["2002".to_string(), "11".to_string(), "photo.jpg".to_string()],
        hash: hash.to_string(),
        earliest,
    }
}

#[test]
fn same_hash_reconcile_either_order() {
    // Two sources with identical bytes and resolved instants t1 < t2 end,
    // in either processing order, with the record of t1 and one file.
    let t1: i64 = 1037460421;
    let t2: i64 = 1104000000;

    // t1 placed first: the later arrival keeps history, nothing is copied.
    let first = record("hash1", t1);
    assert_eq!(place_decision(&None, t1, true), PlaceAction::InsertNew);
    assert_eq!(
        place_decision(&Some(first), t2, true),
        PlaceAction::KeepHistory { restore: false }
    );

    // t2 placed first: the earlier arrival replaces it.
    let second = record("hash1", t2);
    assert_eq!(place_decision(&None, t2, true), PlaceAction::InsertNew);
    assert_eq!(place_decision(&Some(second), t1, true), PlaceAction::ReplaceOlder);
}

#[test]
fn missing_duplicate_is_restored() {
    let h = record("hash1", 1037460421);
    assert_eq!(
        place_decision(&Some(h), 1104000000, false),
        PlaceAction::KeepHistory { restore: true }
    );
}

#[test]
fn idempotent_rerun_skips_everything() {
    // The second run finds the hash in the index: the target is already
    // known, reuses the recorded parts, and the unchanged copy is skipped.
    let cfg = Config::new();
    let history = record("hash1", 1037460421);
    let fresh = Target::new("in/photo.jpg", "hash1", ATTR_2024, ATTR_2024, None);
    let texts: Vec<String> = Vec::new();
    let mut t = do_parse(fresh, Some(history), &texts, &cfg).unwrap();
    assert!(t.dealt);
    let existing: Vec<String> = Vec::new();
    t.set_output("out", false, &existing).unwrap();
    assert_eq!(t.output, "out/2002/11/photo.jpg");
    assert!(!t.need_copy(true, true));
}

#[test]
fn parse_resolves_and_corrects_type() {
    let cfg = Config::new();
    let fresh = Target::new("in/simple.png", "hash1", ATTR_2024, ATTR_2024, None);
    let texts = vec![
        "> [File Type] Expected File Name Extension = jpg".to_string(),
        "[Exif SubIFD] Date/Time Original = 2002:11:16 15:27:01".to_string(),
    ];
    let t = do_parse(fresh, None, &texts, &cfg).unwrap();
    assert!(!t.dealt);
    assert_eq!(t.ftype, Some("jpg".to_string()));
    assert_eq!(t.tinfo.parsedtimes.len(), 1);
    let e = t.get_earliest().unwrap();
    assert_eq!(e.get_timestamp(), 1037460421);
}

#[test]
fn blacklisted_lines_are_skipped_in_parse() {
    let cfg = Config::new();
    let fresh = Target::new("in/simple.jpg", "hash1", ATTR_2024, ATTR_2024, None);
    let texts = vec![
        "[File] File Modified Date = 1999:01:01 10:00:00".to_string(),
        "[GPS] Date Stamp = 0000:00:00".to_string(),
    ];
    let t = do_parse(fresh, None, &texts, &cfg).unwrap();
    assert_eq!(t.tinfo.parsedtimes.len(), 0);
    // Resolution fell through to the attribute times.
    assert_eq!(t.get_earliest().unwrap().get_year(), 2024);
}

#[test]
fn record_written_for_resolved_target() {
    let cfg = Config::new();
    let fresh = Target::new("in/photo.jpg", "hash1", ATTR_2024, ATTR_2024, None);
    let texts = vec!["[Exif SubIFD] Date/Time Original = 2002:11:16 15:27:01".to_string()];
    let mut t = do_parse(fresh, None, &texts, &cfg).unwrap();
    let existing: Vec<String> = Vec::new();
    t.set_output("out", false, &existing).unwrap();
    let rec = target_record(&t).unwrap();
    assert_eq!(rec.hash, "hash1");
    assert_eq!(rec.earliest, 1037460421);
    assert_eq!(
        rec.parts,
        vec!["2002".to_string(), "11".to_string(), "photo.jpg".to_string()]
    );
}

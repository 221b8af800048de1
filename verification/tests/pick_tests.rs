use mmfplace::pick::PickFile;
use mmfplace::settings::Parser;

// 2024-01-01T00:00:00Z
const ATTR_2024: i64 = 1704067200;

#[test]
fn end_to_end_exif_beats_attributes() {
    // A file whose embedded metadata says 2002 while every filesystem
    // timestamp lies in 2024 resolves to the embedded instant.
    let pf = PickFile::new("input/simple.jpg", 1, 1);
    let texts = vec!["[Exif SubIFD] Date/Time Original = 2002:11:16 15:27:01".to_string()];
    let picked = pf
        .create(&Parser::new(), &texts, ATTR_2024, ATTR_2024, Some(ATTR_2024))
        .unwrap();
    assert_eq!(picked.fi.datetime.get_year(), 2002);
    assert_eq!(picked.fi.datetime.get_month(), 11);
    assert_eq!(picked.fi.datetime.get_day(), 16);
    assert_eq!(picked.fi.datetime.get_hour(), 15);
    assert_eq!(picked.fi.datetime.get_minute(), 27);
    assert_eq!(picked.fi.datetime.get_second(), 1);
    assert_eq!(picked.fi.datetime.get_timestamp(), 1037460421);
    assert_eq!(picked.fi.suffix, "jpg");
    assert_eq!(picked.index, 1);
    assert_eq!(picked.total, 1);
}

#[test]
fn pre_1975_candidate_falls_through_to_attributes() {
    // A 1970 metadata date is discarded; resolution falls through to the
    // filesystem attribute source.
    let pf = PickFile::new("input/old.jpg", 1, 1);
    let texts = vec!["[Exif SubIFD] Date/Time Original = 1970:01:01 10:00:00".to_string()];
    let picked = pf
        .create(&Parser::new(), &texts, ATTR_2024, ATTR_2024, None)
        .unwrap();
    assert_eq!(picked.fi.datetime.get_year(), 2024);
    assert_eq!(picked.fi.datetime.get_timestamp(), ATTR_2024);
}

#[test]
fn suffix_corrected_from_metadata() {
    // The extension says png, the metadata says jpg: the corrected type
    // wins when the extension is not on the retain list.
    let pf = PickFile::new("input/simple.xyz", 1, 1);
    let texts = vec![
        "> [File Type] Expected File Name Extension = JPG".to_string(),
        "[Exif SubIFD] Date/Time Original = 2002:11:16 15:27:01".to_string(),
    ];
    let picked = pf
        .create(&Parser::new(), &texts, ATTR_2024, ATTR_2024, None)
        .unwrap();
    assert_eq!(picked.fi.suffix, "jpg");
}

#[test]
fn retained_suffix_overrides_correction() {
    // png sits on the retain list of the default settings: the original
    // extension stands even though the metadata claims another type.
    let pf = PickFile::new("input/simple.PNG", 1, 1);
    let texts = vec![
        "> [File Type] Expected File Name Extension = JPG".to_string(),
        "[Exif SubIFD] Date/Time Original = 2002:11:16 15:27:01".to_string(),
    ];
    let picked = pf
        .create(&Parser::new(), &texts, ATTR_2024, ATTR_2024, None)
        .unwrap();
    assert_eq!(picked.fi.suffix, "png");
}

#[test]
fn blacklisted_line_contributes_nothing() {
    let mut pf = PickFile::new("input/a.jpg", 1, 1);
    let texts = vec!["[File] File Modified Date = 1999:01:01 10:00:00".to_string()];
    let r = pf.date_from_metedata(&texts, &Parser::new());
    assert!(r.is_none());
}

#[test]
fn date_from_metedata_applies_midnight_walk() {
    let mut pf = PickFile::new("input/a.jpg", 1, 1);
    let texts = vec![
        "[Exif IFD0] Date/Time = 2002:11:16".to_string(),
        "[Exif SubIFD] Date/Time Original = 2002:11:16 15:27:01".to_string(),
    ];
    let r = pf.date_from_metedata(&texts, &Parser::new()).unwrap();
    // The date-only candidate is placeholder midnight; the same-day full
    // instant wins although it is later.
    assert_eq!(r.get_hour(), 15);
    assert_eq!(r.get_timestamp(), 1037460421);
}

#[test]
fn filename_candidate_parsed() {
    let pf = PickFile::new("input/IMG_2018-05-02-13-13-39-01-0001.jpg", 1, 1);
    let settings = Parser::new();
    let r = pf.date_from_additional(&settings.additionals).unwrap();
    assert_eq!(r.get_year(), 2018);
    assert_eq!(r.get_hour(), 13);
    assert_eq!(r.get_second(), 39);
}

#[test]
fn no_candidate_at_all_is_fatal() {
    // Attribute times far outside chrono's range yield no candidate either:
    // resolution fails with the no-timestamp error.
    let pf = PickFile::new("input/a.jpg", 1, 1);
    let texts: Vec<String> = Vec::new();
    let r = pf.create(&Parser::new(), &texts, i64::MAX, i64::MAX, None);
    assert_eq!(r.err(), Some(mmfplace::PlaceError::NoTimestampFound));
}

use mmfplace::config::Config;
use mmfplace::parse::{
    capture_date, capture_type, fuzzy_strptime, get_datetime_from_additional,
    get_datetime_from_string, get_datetime_with_striptimes,
};

#[test]
fn test_capture_date() {
    let test = "[Exif SubIFD] Date/Time Digitized = 2002:11:16 15:27:01";
    let dt = capture_date(test, &Config::new());
    println!("dt: {:?}", dt);
    assert!(dt.is_some());
}

#[test]
fn test_capture_type() {
    let test = "> [File Type] Expected File Name Extension = jpg";
    let dt = capture_type(test, &Config::new());
    println!("dt: {:?}", dt);
    assert_eq!(dt, Some("jpg".to_string()));
}

#[test]
fn test_get_datetime_from_string() {
    let test = "[Exif SubIFD] Date/Time Digitized = 2002:11:16 15:27:01";
    let config = Config::new();
    let dt = capture_date(test, &config);
    println!("dt: {:?}", dt);
    assert!(dt.is_some());

    let dt = get_datetime_from_string(test, &config);
    println!("dt: {:?}", dt);
    assert!(dt.is_some());
}

#[test]
fn test_get_datetime_from_additional() {
    let config = Config::new();
    let dt = get_datetime_from_additional("./tests/test.jpg", &config);
    println!("dt: {:?}", dt);
    assert!(dt.is_none());
    let dt = get_datetime_from_additional(
        "./tests/IMG_2018-05-02-13-13-39-01-0001.sha.md5.xxx.jpg.jpg",
        &config,
    );
    println!("dt: {:?}", dt);
    assert!(dt.is_some());
    let dt = dt.unwrap();
    assert_eq!(dt.get_year(), 2018);
    assert_eq!(dt.get_second(), 39);
}

#[test]
fn datetime_from_string_exact_fields() {
    let test = "[Exif SubIFD] Date/Time Original = 2002:11:16 15:27:01";
    let dt = get_datetime_from_string(test, &Config::new()).unwrap();
    assert_eq!(dt.get_year(), 2002);
    assert_eq!(dt.get_month(), 11);
    assert_eq!(dt.get_day(), 16);
    assert_eq!(dt.get_hour(), 15);
    assert_eq!(dt.get_minute(), 27);
    assert_eq!(dt.get_second(), 1);
    assert_eq!(dt.get_timestamp(), 1037460421);
}

#[test]
fn fuzzy_strptime_date_only_is_midnight() {
    let dt = fuzzy_strptime("2020-04-12", "%Y-%m-%d").unwrap();
    assert_eq!(dt.get_year(), 2020);
    assert_eq!(dt.get_month(), 4);
    assert_eq!(dt.get_day(), 12);
    assert_eq!(dt.get_hour(), 0);
    assert_eq!(dt.get_minute(), 0);
    assert_eq!(dt.get_second(), 0);
    assert_eq!(dt.get_timestamp(), 1586649600);
    assert!(fuzzy_strptime("2020-04-12", "%Y:%m:%d").is_none());
}

#[test]
fn striptimes_non_ascii_fallback() {
    let config = Config::new();
    // A non-breaking space separates date and time; the fallback replaces it
    // with a plain space before retrying the formats.
    let dt = get_datetime_with_striptimes("2002:11:16\u{00a0}15:27:01", &config.dateparse.list);
    println!("dt: {:?}", dt);
    let dt = dt.unwrap();
    assert_eq!(dt.get_year(), 2002);
    assert_eq!(dt.get_hour(), 15);
}

#[test]
fn fuzzy_strptime_with_offset() {
    // 2017-08-16T12:18:36+02:00 is 10:18:36 UTC; the fields are kept as
    // written while the timestamp reflects the offset.
    let dt = fuzzy_strptime("2017-08-16 12:18:36+02:00", "%Y-%m-%d %H:%M:%S%:z").unwrap();
    assert_eq!(dt.get_hour(), 12);
    assert_eq!(dt.get_timestamp(), 1502878716);
}

#[test]
fn fuzzy_strptime_utc_reading() {
    // An eighteen-byte value misses the date-and-time length gate and no
    // offset is present, so the UTC reading parses it.
    let dt = fuzzy_strptime("2017-8-16 12:18:36", "%Y-%m-%d %H:%M:%S").unwrap();
    assert_eq!(dt.get_year(), 2017);
    assert_eq!(dt.get_month(), 8);
    assert_eq!(dt.get_timestamp(), 1502885916);
}

#[test]
fn unparseable_line_is_skipped() {
    let config = Config::new();
    assert!(get_datetime_from_string("no date here at all", &config).is_none());
    assert!(get_datetime_with_striptimes("not a date", &config.dateparse.list).is_none());
}

use mmfplace::datetime::FileDateTime;
use mmfplace::filemeta::FileMeta;
use mmfplace::splits::{get_copy_path, CopyProbe};
use mmfplace::PlaceError;

fn meta_with(year: u16) -> FileMeta {
    let mut fm = FileMeta::new("in/simple.jpg");
    fm.set_suffix("jpg");
    fm.set_datetime(FileDateTime::from_parts(year, 11, 16, 15, 27, 1, 1037460421));
    fm
}

#[test]
fn file_meta_name_formatting() {
    let fm = meta_with(2002);
    assert_eq!(fm.get_name(0), "2002-11-16-15-27-01.jpg");
    assert_eq!(fm.get_name(1), "2002-11-16-15-27-01_01.jpg");
    assert_eq!(fm.get_name(12), "2002-11-16-15-27-01_12.jpg");
}

#[test]
fn datetime_to_string_format() {
    let dt = FileDateTime::from_parts(2002, 11, 16, 15, 27, 1, 1037460421);
    assert_eq!(dt.to_string(), "2002:11:16 15:27:01, 1037460421");
    let negative = FileDateTime::from_parts(1969, 12, 31, 23, 59, 59, -1);
    assert_eq!(negative.to_string(), "1969:12:31 23:59:59, -1");
}

#[test]
fn copy_path_takes_first_free_index() {
    let fm = meta_with(2002);
    let probes = vec![
        CopyProbe { file_exists: true, same_hash: false },
        CopyProbe { file_exists: true, same_hash: false },
        CopyProbe { file_exists: false, same_hash: false },
    ];
    let p = get_copy_path(&fm, "out", 3, true, &probes).unwrap();
    assert_eq!(p, "out/2002/2002-11-16-15-27-01_02.jpg");
}

#[test]
fn copy_path_skips_to_same_hash() {
    let fm = meta_with(2002);
    let probes = vec![
        CopyProbe { file_exists: true, same_hash: false },
        CopyProbe { file_exists: true, same_hash: true },
        CopyProbe { file_exists: false, same_hash: false },
    ];
    let p = get_copy_path(&fm, "out", 3, true, &probes).unwrap();
    assert_eq!(p, "out/2002/2002-11-16-15-27-01_01.jpg");
}

#[test]
fn copy_path_missing_directory_takes_first_name() {
    let fm = meta_with(2002);
    // The year directory does not exist, so no probe is consulted at all.
    let probes = vec![CopyProbe { file_exists: true, same_hash: false }];
    let p = get_copy_path(&fm, "out", 1, false, &probes).unwrap();
    assert_eq!(p, "out/2002/2002-11-16-15-27-01.jpg");
}

#[test]
fn copy_path_cap_exhausted() {
    let fm = meta_with(2002);
    let probes = vec![
        CopyProbe { file_exists: true, same_hash: false },
        CopyProbe { file_exists: true, same_hash: false },
    ];
    assert_eq!(
        get_copy_path(&fm, "out", 2, true, &probes).err(),
        Some(PlaceError::TooManyCollisions)
    );
}

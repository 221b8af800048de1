use mmfplace::datetime::FileDateTime;
use mmfplace::resolver::{dedup_candidates, resolve_earliest, sort_candidates};

fn midnight(year: u16, month: u8, day: u8, ts: i64) -> FileDateTime {
    FileDateTime::from_parts(year, month, day, 0, 0, 0, ts)
}

#[test]
fn tie_break_midnight_loses_same_day() {
    // 2020-01-01T00:00:00Z and 2020-01-01T08:30:00Z: the midnight instant is
    // a placeholder, so the later same-day instant wins.
    let a = midnight(2020, 1, 1, 1577836800);
    let b = FileDateTime::from_parts(2020, 1, 1, 8, 30, 0, 1577867400);
    let cands = vec![a, b];
    let winner = resolve_earliest(&cands).unwrap();
    assert_eq!(winner.get_timestamp(), 1577867400);
    assert_eq!(winner.get_hour(), 8);

    // The arrival order does not matter: the pool is sorted first.
    let cands = vec![b, a];
    let winner = resolve_earliest(&cands).unwrap();
    assert_eq!(winner.get_timestamp(), 1577867400);
}

#[test]
fn tie_break_earliest_wins_across_days() {
    // 2020-01-01T00:00:00Z and 2020-01-02T00:00:00Z fall on different days:
    // the earliest wins even at midnight.
    let a = midnight(2020, 1, 1, 1577836800);
    let b = midnight(2020, 1, 2, 1577923200);
    let cands = vec![a, b];
    let winner = resolve_earliest(&cands).unwrap();
    assert_eq!(winner.get_timestamp(), 1577836800);
    assert_eq!(winner.get_day(), 1);
}

#[test]
fn resolve_empty_is_none() {
    let cands: Vec<FileDateTime> = Vec::new();
    assert!(resolve_earliest(&cands).is_none());
}

#[test]
fn resolve_single_candidate() {
    let a = midnight(1999, 12, 31, 946598400);
    let winner = resolve_earliest(&vec![a]).unwrap();
    assert_eq!(winner.get_timestamp(), 946598400);
}

#[test]
fn duplicate_instants_collapse() {
    let a = midnight(2020, 1, 1, 1577836800);
    let b = midnight(2020, 1, 1, 1577836800);
    let c = FileDateTime::from_parts(2020, 1, 1, 8, 30, 0, 1577867400);
    let sorted = sort_candidates(&vec![c, a, b]);
    assert_eq!(sorted.len(), 3);
    assert_eq!(sorted[0].get_timestamp(), 1577836800);
    assert_eq!(sorted[2].get_timestamp(), 1577867400);
    let unique = dedup_candidates(&sorted);
    assert_eq!(unique.len(), 2);
    assert_eq!(unique[0].get_timestamp(), 1577836800);
    assert_eq!(unique[1].get_timestamp(), 1577867400);
}

#[test]
fn all_midnights_keep_earliest_date() {
    // No candidate carries a real time of day: the earliest available date
    // is kept. Within one day the walk settles on its final candidate.
    let a = midnight(2020, 1, 1, 1577836800);
    let b = midnight(2020, 1, 1, 1577836801);
    let c = midnight(2020, 1, 3, 1578009600);
    let winner = resolve_earliest(&vec![c, b, a]).unwrap();
    assert_eq!(winner.get_year(), 2020);
    assert_eq!(winner.get_month(), 1);
    assert_eq!(winner.get_day(), 1);
    assert_eq!(winner.get_timestamp(), 1577836801);
}

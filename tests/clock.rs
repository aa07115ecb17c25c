use typst::syntax::{FileId, VirtualPath};
use typst::foundations::Datetime;
use typst_docker::clock::{date, timestamp, Clock, Moment, Stamp};
use typst_docker::fonts::FontDb;
use typst_docker::store::DocumentFile;
use typst_docker::world::DockerWorld;

fn id(name: &str) -> FileId {
    FileId::new(None, VirtualPath::new(name))
}

fn stamp(year: i32, month: u32, day: u32, hour: u32, minute: u32, second: u32) -> Stamp {
    Stamp { year, month, day, hour, minute, second }
}

fn world() -> DockerWorld {
    let (fonts, _) = FontDb::new(vec![]);
    DockerWorld::new(DocumentFile::new(id("main.typ"), b"hi".to_vec()), vec![], fonts)
}

#[test]
fn timestamp_of_a_reading() {
    assert_eq!(timestamp(stamp(2024, 2, 29, 13, 5, 59)), Datetime::from_ymd_hms(2024, 2, 29, 13, 5, 59));
    assert!(timestamp(stamp(2024, 2, 29, 13, 5, 59)).is_some());
}

#[test]
fn out_of_range_fields_give_no_timestamp() {
    assert_eq!(timestamp(stamp(2023, 2, 29, 0, 0, 0)), None);
    assert_eq!(timestamp(stamp(2023, 13, 1, 0, 0, 0)), None);
    assert_eq!(timestamp(stamp(2023, 0, 1, 0, 0, 0)), None);
    assert_eq!(timestamp(stamp(2023, 1, 1, 24, 0, 0)), None);
    assert_eq!(timestamp(stamp(2023, 1, 1, 0, 0, 300)), None);
    assert_eq!(date(stamp(2023, 1, 256 + 1, 0, 0, 0)), None);
    assert_eq!(date(stamp(2023, 4, 31, 0, 0, 0)), None);
}

#[test]
fn clock_keeps_its_first_moment() {
    let first = Moment { local: stamp(2024, 5, 1, 9, 0, 0), utc: stamp(2024, 5, 1, 7, 0, 0) };
    let later = Moment { local: stamp(2024, 5, 2, 10, 0, 0), utc: stamp(2024, 5, 2, 8, 0, 0) };
    let mut clock = Clock::new();
    assert_eq!(clock.moment(first), first);
    assert_eq!(clock.moment(later), first);
    assert_eq!(clock.now(later), Datetime::from_ymd_hms(2024, 5, 1, 9, 0, 0));
}

#[test]
fn now_and_today_report_one_moment() {
    let first = Moment { local: stamp(2024, 5, 1, 9, 0, 0), utc: stamp(2024, 5, 1, 7, 0, 0) };
    let later = Moment { local: stamp(2024, 5, 2, 10, 0, 0), utc: stamp(2024, 5, 2, 8, 0, 0) };
    let mut w = world();
    let a = w.now(first);
    let b = w.today(None, later);
    let c = w.now(later);
    let d = w.today(None, later);
    assert_eq!(a, Datetime::from_ymd_hms(2024, 5, 1, 9, 0, 0));
    assert_eq!(a, c);
    assert_eq!(b, Datetime::from_ymd(2024, 5, 1));
    assert_eq!(b, d);
}

#[test]
fn today_with_offset_crosses_midnight() {
    let m = Moment { local: stamp(2024, 3, 31, 20, 30, 0), utc: stamp(2024, 3, 31, 23, 30, 0) };
    let mut w = world();
    assert_eq!(w.today(Some(1), m), Datetime::from_ymd(2024, 4, 1));
    assert_eq!(w.today(None, m), Datetime::from_ymd(2024, 3, 31));
}

#[test]
fn today_with_offset_five_hours() {
    let m = Moment { local: stamp(2023, 12, 31, 19, 0, 0), utc: stamp(2023, 12, 31, 21, 0, 0) };
    let mut clock = Clock::new();
    assert_eq!(clock.today(Some(5), m), Datetime::from_ymd(2024, 1, 1));
    assert_eq!(clock.today(Some(2), m), Datetime::from_ymd(2023, 12, 31));
    assert_eq!(clock.today(Some(-22), m), Datetime::from_ymd(2023, 12, 30));
}

#[test]
fn today_with_offset_across_leap_day() {
    let m = Moment { local: stamp(2024, 2, 28, 22, 0, 0), utc: stamp(2024, 2, 28, 22, 0, 0) };
    let mut clock = Clock::new();
    assert_eq!(clock.today(Some(3), m), Datetime::from_ymd(2024, 2, 29));
    assert_eq!(clock.today(Some(27), m), Datetime::from_ymd(2024, 3, 1));
}

#[test]
fn today_with_huge_offset_gives_no_date() {
    let m = Moment { local: stamp(2024, 1, 1, 0, 0, 0), utc: stamp(2024, 1, 1, 0, 0, 0) };
    let mut clock = Clock::new();
    assert_eq!(clock.today(Some(i64::MAX), m), None);
    assert_eq!(clock.today(Some(100_000_000), m), None);
}

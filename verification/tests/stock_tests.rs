use gwmc_admin::forms::RiseFallPost;
use gwmc_admin::stock::{days_from_monday, new_rise_fall_on, new_rise_fall_record, noon_or_evening_update, week_name, NewStockRiseFall, StockRiseFall};

fn day_of(y: i32, m: u32, d: u32) -> i32 {
    chrono::Datelike::num_days_from_ce(&chrono::NaiveDate::from_ymd_opt(y, m, d).unwrap())
}

fn date() -> i32 {
    day_of(2023, 2, 6)
}

fn post(kind: &str, rise: i32) -> RiseFallPost {
    RiseFallPost { stock_type: kind.to_string(), rise, fall: 2, rise_limit: 3, limit_drop: 4 }
}

#[test]
fn week_names() {
    assert_eq!(week_name(0), "星期一");
    assert_eq!(week_name(4), "星期五");
    assert_eq!(week_name(6), "星期日");
}

#[test]
fn morning_record_fills_morning_only() {
    let r = new_rise_fall_record(&post("morning", 2475), date(), 0).unwrap();
    assert_eq!(r.week, Some("星期一".to_string()));
    assert_eq!(r.record_date, date());
    assert_eq!((r.m_rise, r.m_fall, r.m_rise_limit, r.m_limit_drop), (Some(2475), Some(2), Some(3), Some(4)));
    assert_eq!((r.n_rise, r.e_rise), (None, None));
    assert!(r.create_time.is_none() && r.last_time.is_none());
}

#[test]
fn noon_and_evening_records() {
    let n = new_rise_fall_record(&post("noon", 1), date(), 2).unwrap();
    assert_eq!((n.m_rise, n.n_rise, n.e_rise), (None, Some(1), None));
    assert_eq!(n.week, Some("星期三".to_string()));
    let e = new_rise_fall_record(&post("evening", 1), date(), 2).unwrap();
    assert_eq!((e.m_rise, e.n_rise, e.e_limit_drop), (None, None, Some(4)));
}

#[test]
fn unknown_session_or_bad_form_inserts_nothing() {
    assert!(new_rise_fall_record(&post("night", 1), date(), 0).is_none());
    assert!(new_rise_fall_record(&post("morning", -1), date(), 0).is_none());
}

fn stored() -> StockRiseFall {
    StockRiseFall {
        id: 1,
        record_date: date(),
        week: Some("星期一".to_string()),
        m_rise: Some(10),
        m_fall: Some(11),
        m_rise_limit: Some(12),
        m_limit_drop: Some(13),
        n_rise: Some(20),
        n_fall: Some(21),
        n_rise_limit: Some(22),
        n_limit_drop: Some(23),
        e_rise: Some(30),
        e_fall: Some(31),
        e_rise_limit: Some(32),
        e_limit_drop: Some(33),
        create_time: chrono::NaiveDate::from_ymd_opt(2023, 2, 6).unwrap().and_hms_opt(9, 0, 0),
        last_time: None,
    }
}

#[test]
fn noon_update_keeps_morning_and_clears_evening() {
    let u = noon_or_evening_update(stored(), &post("noon", 5)).unwrap();
    assert_eq!((u.m_rise, u.m_limit_drop), (Some(10), Some(13)));
    assert_eq!((u.n_rise, u.n_fall, u.n_rise_limit, u.n_limit_drop), (Some(5), Some(2), Some(3), Some(4)));
    assert_eq!((u.e_rise, u.e_limit_drop), (None, None));
    assert!(u.create_time.is_none());
}

#[test]
fn evening_update_keeps_morning_noon_and_creation() {
    let u = noon_or_evening_update(stored(), &post("evening", 6)).unwrap();
    assert_eq!((u.m_rise, u.n_rise, u.n_limit_drop), (Some(10), Some(20), Some(23)));
    assert_eq!((u.e_rise, u.e_fall), (Some(6), Some(2)));
    assert_eq!(u.create_time, stored().create_time);
    assert!(noon_or_evening_update(stored(), &post("morning", 6)).is_none());
}

#[test]
fn insert_stamps_last_time_without_creation_time() {
    let now = chrono::NaiveDate::from_ymd_opt(2023, 2, 6).unwrap().and_hms_opt(12, 0, 0).unwrap();
    let mut r: NewStockRiseFall = new_rise_fall_record(&post("morning", 1), date(), 0).unwrap();
    r.stamp_for_insert(now);
    assert_eq!(r.last_time, Some(now));
    assert!(r.create_time.is_none());
    let mut u = noon_or_evening_update(stored(), &post("evening", 6)).unwrap();
    u.stamp_for_insert(now);
    assert_eq!(u.last_time, None);
}

#[test]
fn weekday_comes_from_the_date() {
    let r = new_rise_fall_on(&post("morning", 1), date()).unwrap();
    assert_eq!(r.week, Some("星期一".to_string()));
    assert_eq!(r.record_date, date());
    let sunday = day_of(2023, 2, 12);
    let r = new_rise_fall_on(&post("noon", 1), sunday).unwrap();
    assert_eq!(r.week, Some("星期日".to_string()));
    assert!(new_rise_fall_on(&post("night", 1), sunday).is_none());
}

#[test]
fn weekdays_agree_with_chrono() {
    let dates = [(1, 1, 1), (2023, 2, 6), (2023, 2, 12), (2000, 2, 29), (1970, 1, 1), (0, 1, 1), (-308, 3, 14), (9999, 12, 31)];
    for (y, m, d) in dates {
        let date = chrono::NaiveDate::from_ymd_opt(y, m, d).unwrap();
        let expected = chrono::Datelike::weekday(&date).num_days_from_monday();
        assert_eq!(days_from_monday(chrono::Datelike::num_days_from_ce(&date)), expected);
    }
    assert_eq!(days_from_monday(1), 0);
    assert_eq!(days_from_monday(0), 6);
    assert_eq!(days_from_monday(i32::MIN), days_from_monday(i32::MIN + 7));
}

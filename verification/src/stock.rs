//! Daily rise and fall counts of the stock market, recorded up to three times
//! a day (morning, noon, evening).
use vstd::prelude::*;
use crate::forms::RiseFallPost;
use crate::text::text_eq;
use crate::text::push_str;

verus! {

#[verifier::external_type_specification]
#[verifier::external_body]
pub struct ExNaiveDateTime(chrono::NaiveDateTime);

/// A stored day of counts.
#[derive(Debug)]
pub struct StockRiseFall {
    pub id: i32,
    /// The day, numbered as `day_weekday` explains.
    pub record_date: i32,
    pub week: Option<String>,
    pub m_rise: Option<i32>,
    pub m_fall: Option<i32>,
    pub m_rise_limit: Option<i32>,
    pub m_limit_drop: Option<i32>,
    pub n_rise: Option<i32>,
    pub n_fall: Option<i32>,
    pub n_rise_limit: Option<i32>,
    pub n_limit_drop: Option<i32>,
    pub e_rise: Option<i32>,
    pub e_fall: Option<i32>,
    pub e_rise_limit: Option<i32>,
    pub e_limit_drop: Option<i32>,
    pub create_time: Option<chrono::NaiveDateTime>,
    pub last_time: Option<chrono::NaiveDateTime>,
}

/// A day of counts to insert, or the new values of a stored day.
#[derive(Debug)]
pub struct NewStockRiseFall {
    /// The day, numbered as `day_weekday` explains.
    pub record_date: i32,
    pub week: Option<String>,
    pub m_rise: Option<i32>,
    pub m_fall: Option<i32>,
    pub m_rise_limit: Option<i32>,
    pub m_limit_drop: Option<i32>,
    pub n_rise: Option<i32>,
    pub n_fall: Option<i32>,
    pub n_rise_limit: Option<i32>,
    pub n_limit_drop: Option<i32>,
    pub e_rise: Option<i32>,
    pub e_fall: Option<i32>,
    pub e_rise_limit: Option<i32>,
    pub e_limit_drop: Option<i32>,
    pub create_time: Option<chrono::NaiveDateTime>,
    pub last_time: Option<chrono::NaiveDateTime>,
}

impl NewStockRiseFall {
    /// Fills in the time of an insert: a record without a creation time gets
    /// `now` as its last time (the creation time itself is left to the
    /// store).
    pub fn stamp_for_insert(&mut self, now: chrono::NaiveDateTime)
        ensures
            old(self).create_time is None ==> *final(self) == (NewStockRiseFall {
                last_time: Some(now),
                ..*old(self)
            }),
            old(self).create_time is Some ==> *final(self) == *old(self),
    {
        if self.create_time.is_none() {
            self.last_time = Some(now);
        }
    }
}


/// The four counts of one session: rising, falling, rising to the limit,
/// falling to the limit.
pub type Counts = (Option<i32>, Option<i32>, Option<i32>, Option<i32>);

/// No counts recorded.
pub open spec fn no_counts() -> Counts {
    (None, None, None, None)
}

/// The counts that a form posts.
pub open spec fn posted_counts(post: RiseFallPost) -> Counts {
    (Some(post.rise), Some(post.fall), Some(post.rise_limit), Some(post.limit_drop))
}

/// The morning counts of a record.
pub open spec fn morning(r: NewStockRiseFall) -> Counts {
    (r.m_rise, r.m_fall, r.m_rise_limit, r.m_limit_drop)
}

/// The noon counts of a record.
pub open spec fn noon(r: NewStockRiseFall) -> Counts {
    (r.n_rise, r.n_fall, r.n_rise_limit, r.n_limit_drop)
}

/// The evening counts of a record.
pub open spec fn evening(r: NewStockRiseFall) -> Counts {
    (r.e_rise, r.e_fall, r.e_rise_limit, r.e_limit_drop)
}

/// The morning counts of a stored record.
pub open spec fn stored_morning(r: StockRiseFall) -> Counts {
    (r.m_rise, r.m_fall, r.m_rise_limit, r.m_limit_drop)
}

/// The noon counts of a stored record.
pub open spec fn stored_noon(r: StockRiseFall) -> Counts {
    (r.n_rise, r.n_fall, r.n_rise_limit, r.n_limit_drop)
}

proof fn lemma_session_names_differ()
    ensures
        "morning"@ != "noon"@,
        "morning"@ != "evening"@,
        "noon"@ != "evening"@,
{
    reveal_strlit("morning");
    reveal_strlit("noon");
    reveal_strlit("evening");
    assert("morning"@.len() != "noon"@.len());
    assert("morning"@[0] != "evening"@[0]);
    assert("noon"@.len() != "evening"@.len());
}

/// The Chinese name of a weekday counted from Monday (0) to Sunday (6).
pub open spec fn week_name_spec(days_from_monday: int) -> Seq<char> {
    if days_from_monday == 0 {
        "星期一"@
    } else if days_from_monday == 1 {
        "星期二"@
    } else if days_from_monday == 2 {
        "星期三"@
    } else if days_from_monday == 3 {
        "星期四"@
    } else if days_from_monday == 4 {
        "星期五"@
    } else if days_from_monday == 5 {
        "星期六"@
    } else {
        "星期日"@
    }
}

/// The Chinese name of a weekday counted from Monday (0).
pub fn week_name(days_from_monday: u32) -> (r: String)
    requires
        days_from_monday < 7,
    ensures
        r@ == week_name_spec(days_from_monday as int),
        r@ == seq!["星期一"@, "星期二"@, "星期三"@, "星期四"@, "星期五"@, "星期六"@, "星期日"@][days_from_monday as int],
{
    let name = if days_from_monday == 0 {
        "星期一"
    } else if days_from_monday == 1 {
        "星期二"
    } else if days_from_monday == 2 {
        "星期三"
    } else if days_from_monday == 3 {
        "星期四"
    } else if days_from_monday == 4 {
        "星期五"
    } else if days_from_monday == 5 {
        "星期六"
    } else {
        "星期日"
    };
    let mut r = String::new();
    push_str(&mut r, name);
    r
}

/// The day of counts to insert for a posted form, on `record_date`, whose
/// weekday counted from Monday is `days_from_monday`. Only the session that
/// the form names is filled; a form that fails its check, or names no known
/// session, inserts nothing.
pub fn new_rise_fall_record(post: &RiseFallPost, record_date: i32, days_from_monday: u32) -> (r: Option<NewStockRiseFall>)
    requires
        days_from_monday < 7,
    ensures
        post.rise < 0 ==> r is None,
        post.rise >= 0 && post.stock_type@ != "morning"@ && post.stock_type@ != "noon"@
            && post.stock_type@ != "evening"@ ==> r is None,
        r is Some ==> {
            let v = r->0;
            &&& v.record_date == record_date
            &&& v.week matches Some(w) && w@ == week_name_spec(days_from_monday as int)
            &&& v.create_time is None
            &&& v.last_time is None
            &&& morning(v) == (if post.stock_type@ == "morning"@ { posted_counts(*post) } else { no_counts() })
            &&& noon(v) == (if post.stock_type@ == "noon"@ { posted_counts(*post) } else { no_counts() })
            &&& evening(v) == (if post.stock_type@ == "evening"@ { posted_counts(*post) } else { no_counts() })
        },
        post.rise >= 0 && (post.stock_type@ == "morning"@ || post.stock_type@ == "noon"@
            || post.stock_type@ == "evening"@) ==> r is Some,
{
    proof {
        lemma_session_names_differ();
    }
    if post.validate().is_err() {
        return None;
    }
    let week = week_name(days_from_monday);
    let is_morning = text_eq(post.stock_type.as_str(), "morning");
    let is_noon = text_eq(post.stock_type.as_str(), "noon");
    let is_evening = text_eq(post.stock_type.as_str(), "evening");
    if is_morning {
        Some(NewStockRiseFall {
            record_date,
            week: Some(week),
            m_rise: Some(post.rise),
            m_fall: Some(post.fall),
            m_rise_limit: Some(post.rise_limit),
            m_limit_drop: Some(post.limit_drop),
            n_rise: None,
            n_fall: None,
            n_rise_limit: None,
            n_limit_drop: None,
            e_rise: None,
            e_fall: None,
            e_rise_limit: None,
            e_limit_drop: None,
            create_time: None,
            last_time: None,
        })
    } else if is_noon {
        Some(NewStockRiseFall {
            record_date,
            week: Some(week),
            m_rise: None,
            m_fall: None,
            m_rise_limit: None,
            m_limit_drop: None,
            n_rise: Some(post.rise),
            n_fall: Some(post.fall),
            n_rise_limit: Some(post.rise_limit),
            n_limit_drop: Some(post.limit_drop),
            e_rise: None,
            e_fall: None,
            e_rise_limit: None,
            e_limit_drop: None,
            create_time: None,
            last_time: None,
        })
    } else if is_evening {
        Some(NewStockRiseFall {
            record_date,
            week: Some(week),
            m_rise: None,
            m_fall: None,
            m_rise_limit: None,
            m_limit_drop: None,
            n_rise: None,
            n_fall: None,
            n_rise_limit: None,
            n_limit_drop: None,
            e_rise: Some(post.rise),
            e_fall: Some(post.fall),
            e_rise_limit: Some(post.rise_limit),
            e_limit_drop: Some(post.limit_drop),
            create_time: None,
            last_time: None,
        })
    } else {
        None
    }
}

/// The new values of a stored day when the noon or the evening counts are
/// posted for it. Noon counts keep the morning's and leave the evening's empty;
/// evening counts keep the morning's and the noon's and the creation time.
/// Any other session changes nothing (`None`).
pub fn noon_or_evening_update(stored: StockRiseFall, post: &RiseFallPost) -> (r: Option<NewStockRiseFall>)
    ensures
        post.stock_type@ != "noon"@ && post.stock_type@ != "evening"@ ==> r is None,
        post.stock_type@ == "noon"@ ==> r is Some && ({
            let v = r->0;
            &&& v.record_date == stored.record_date
            &&& v.week == stored.week
            &&& morning(v) == stored_morning(stored)
            &&& noon(v) == posted_counts(*post)
            &&& evening(v) == no_counts()
            &&& v.create_time is None
            &&& v.last_time is None
        }),
        post.stock_type@ == "evening"@ ==> r is Some && ({
            let v = r->0;
            &&& v.record_date == stored.record_date
            &&& v.week == stored.week
            &&& morning(v) == stored_morning(stored)
            &&& noon(v) == stored_noon(stored)
            &&& evening(v) == posted_counts(*post)
            &&& v.create_time == stored.create_time
            &&& v.last_time is None
        }),
{
    proof {
        lemma_session_names_differ();
    }
    if text_eq(post.stock_type.as_str(), "noon") {
        Some(NewStockRiseFall {
            record_date: stored.record_date,
            week: stored.week,
            m_rise: stored.m_rise,
            m_fall: stored.m_fall,
            m_rise_limit: stored.m_rise_limit,
            m_limit_drop: stored.m_limit_drop,
            n_rise: Some(post.rise),
            n_fall: Some(post.fall),
            n_rise_limit: Some(post.rise_limit),
            n_limit_drop: Some(post.limit_drop),
            e_rise: None,
            e_fall: None,
            e_rise_limit: None,
            e_limit_drop: None,
            create_time: None,
            last_time: None,
        })
    } else if text_eq(post.stock_type.as_str(), "evening") {
        Some(NewStockRiseFall {
            record_date: stored.record_date,
            week: stored.week,
            m_rise: stored.m_rise,
            m_fall: stored.m_fall,
            m_rise_limit: stored.m_rise_limit,
            m_limit_drop: stored.m_limit_drop,
            n_rise: stored.n_rise,
            n_fall: stored.n_fall,
            n_rise_limit: stored.n_rise_limit,
            n_limit_drop: stored.n_limit_drop,
            e_rise: Some(post.rise),
            e_fall: Some(post.fall),
            e_rise_limit: Some(post.rise_limit),
            e_limit_drop: Some(post.limit_drop),
            create_time: stored.create_time,
            last_time: None,
        })
    } else {
        None
    }
}


/// The weekday of a day counted from Monday (0) to Sunday (6). Days are
/// numbered in the proleptic Gregorian calendar with 1 January of year 1 as
/// day 1 (chrono's `num_days_from_ce`); that day was a Monday, and the
/// weekdays repeat every seven days.
pub open spec fn day_weekday(day: int) -> int {
    (day - 1) % 7
}

/// The weekday of `day` counted from Monday (see `day_weekday`).
pub fn days_from_monday(day: i32) -> (r: u32)
    ensures
        r == day_weekday(day as int),
        r < 7,
{
    // Shifted by a multiple of 7 so that the remainder is taken of a
    // non-negative number.
    let shifted: i64 = day as i64 - 1 + 7 * 400_000_000;
    let r: i64 = shifted % 7;
    assert(r == day_weekday(day as int)) by (nonlinear_arith)
        requires
            shifted == day as int - 1 + 7 * 400_000_000,
            shifted >= 0,
            r == shifted % 7,
    {
    }
    r as u32
}

/// The day of counts to insert for a posted form on `record_date`, named by
/// that day's weekday: as `new_rise_fall_record` with `day_weekday`.
pub fn new_rise_fall_on(post: &RiseFallPost, record_date: i32) -> (r: Option<NewStockRiseFall>)
    ensures
        post.rise < 0 ==> r is None,
        post.rise >= 0 && post.stock_type@ != "morning"@ && post.stock_type@ != "noon"@
            && post.stock_type@ != "evening"@ ==> r is None,
        r is Some ==> {
            let v = r->0;
            &&& v.record_date == record_date
            &&& v.week matches Some(w) && w@ == week_name_spec(day_weekday(record_date as int))
            &&& v.week matches Some(w) && w@ == seq!["星期一"@, "星期二"@, "星期三"@, "星期四"@, "星期五"@, "星期六"@, "星期日"@][(record_date - 1) % 7]
            &&& v.create_time is None
            &&& v.last_time is None
            &&& morning(v) == (if post.stock_type@ == "morning"@ { posted_counts(*post) } else { no_counts() })
            &&& noon(v) == (if post.stock_type@ == "noon"@ { posted_counts(*post) } else { no_counts() })
            &&& evening(v) == (if post.stock_type@ == "evening"@ { posted_counts(*post) } else { no_counts() })
        },
        post.rise >= 0 && (post.stock_type@ == "morning"@ || post.stock_type@ == "noon"@
            || post.stock_type@ == "evening"@) ==> r is Some,
{
    let days = days_from_monday(record_date);
    proof {
        lemma_record_day_names(record_date as int);
    }
    new_rise_fall_record(post, record_date, days)
}

/// The weekday names in order from Monday: Monday (0) is 星期一, Tuesday (1)
/// 星期二, and so on to Sunday (6), 星期日.
pub proof fn lemma_week_name_table(d: int)
    requires
        0 <= d < 7,
    ensures
        week_name_spec(d) == seq!["星期一"@, "星期二"@, "星期三"@, "星期四"@, "星期五"@, "星期六"@, "星期日"@][d],
{
}

/// Day 1 (1 January of year 1) is a Monday, and each following day is the
/// next weekday, Sunday wrapping round to Monday; so a record on day `n` is
/// named by entry `(n - 1) mod 7` of the list from 星期一 to 星期日.
pub proof fn lemma_record_day_names(day: int)
    ensures
        day_weekday(1) == 0,
        0 <= day_weekday(day) < 7,
        day_weekday(day + 1) == (if day_weekday(day) == 6 { 0 } else { day_weekday(day) + 1 }),
        day_weekday(day + 7) == day_weekday(day),
        week_name_spec(day_weekday(day)) == seq!["星期一"@, "星期二"@, "星期三"@, "星期四"@, "星期五"@, "星期六"@, "星期日"@][(day - 1) % 7],
{
    lemma_week_name_table(day_weekday(day));
}

} // verus!

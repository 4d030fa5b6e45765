//! Recommended cars: the records made from a scraped auction and from the
//! recommendation form. Prices are in cents; the web side converts the
//! form's yuan.
use vstd::prelude::*;
use crate::text::{trim_spec, trim_white_space};

verus! {

/// The recommendation form without its prices (which the web side converts
/// to cents).
#[derive(Debug, Clone)]
pub struct CarForm {
    pub title: String,
    pub list_img: String,
    pub recommend: i16,
    pub license: String,
    pub violating: String,
    pub universal_model: String,
    pub gearbox: String,
    pub fuel_type: String,
    pub kilometer: i32,
    pub autocar_model: String,
    pub vim: String,
    pub engine_number: String,
    pub emission: String,
    pub address: String,
    pub disposal_unit: String,
    pub external_url: String,
    pub belong: i16,
    pub stage: String,
    pub push: bool,
    pub summary: String,
}

/// The prices of a car, in cents.
#[derive(Debug, Clone, Copy)]
pub struct CarPrices {
    pub price_base: i64,
    pub current_price: i64,
    pub assess_price: i64,
    pub margin: i64,
    pub recommended_price: i64,
}

/// A date and time as chrono holds a `NaiveDateTime`: the day (numbered as
/// `crate::stock::day_weekday` explains), the second since midnight, and the
/// nanosecond within that second (1_000_000_000 and up for a leap second).
#[derive(Debug, Clone, Copy, PartialEq, Eq, Structural)]
pub struct CalendarTime {
    pub day: i32,
    pub second: u32,
    pub nano: u32,
}

/// The parts of a time, as integers.
pub open spec fn time_parts(t: CalendarTime) -> (int, int, int) {
    (t.day as int, t.second as int, t.nano as int)
}

/// A recommended car ready to be stored.
#[derive(Debug)]
pub struct NewLawsuitAutocar {
    pub title: String,
    pub summary: String,
    pub list_img: Option<String>,
    pub license: Option<String>,
    pub violating: Option<String>,
    pub universal_model: Option<String>,
    pub gearbox: Option<String>,
    pub fuel_type: Option<String>,
    pub kilometer: Option<i32>,
    /// Days numbered as `crate::stock::day_weekday` explains.
    pub registration: Option<i32>,
    pub production_date: Option<i32>,
    pub autocar_model: Option<String>,
    pub vim: Option<String>,
    pub engine_number: Option<String>,
    pub emission: Option<String>,
    pub price_base: i64,
    pub current_price: i64,
    pub assess_price: i64,
    pub margin: i64,
    pub recommended_price: i64,
    pub start_time: Option<CalendarTime>,
    pub end_time: Option<CalendarTime>,
    pub recommend: i16,
    pub address: Option<String>,
    pub disposal_unit: Option<String>,
    pub external_url: Option<String>,
    pub belong: Option<i16>,
    pub stage: Option<String>,
    pub status: i16,
    pub show: Option<bool>,
    pub create_time: Option<chrono::NaiveDateTime>,
}

/// The record `r` is the car of `form` with these prices and dates: the
/// title trimmed, the texts kept, the mileage only when positive, waiting to
/// open (status 1), shown when the form pushes it, no creation time yet.
pub open spec fn car_record_of(
    r: NewLawsuitAutocar,
    form: CarForm,
    prices: CarPrices,
    start_time: Option<CalendarTime>,
    end_time: Option<CalendarTime>,
    registration: Option<i32>,
    production_date: Option<i32>,
) -> bool {
    &&& r.title@ == trim_spec(form.title@)
    &&& r.summary == form.summary
    &&& r.list_img == Some(form.list_img)
    &&& r.license == Some(form.license)
    &&& r.violating == Some(form.violating)
    &&& r.universal_model == Some(form.universal_model)
    &&& r.gearbox == Some(form.gearbox)
    &&& r.fuel_type == Some(form.fuel_type)
    &&& r.kilometer == (if form.kilometer > 0 { Some(form.kilometer) } else { None::<i32> })
    &&& r.registration == registration
    &&& r.production_date == production_date
    &&& r.autocar_model == Some(form.autocar_model)
    &&& r.vim == Some(form.vim)
    &&& r.engine_number == Some(form.engine_number)
    &&& r.emission == Some(form.emission)
    &&& r.price_base == prices.price_base
    &&& r.current_price == prices.current_price
    &&& r.assess_price == prices.assess_price
    &&& r.margin == prices.margin
    &&& r.recommended_price == prices.recommended_price
    &&& r.start_time == start_time
    &&& r.end_time == end_time
    &&& r.recommend == form.recommend
    &&& r.address == Some(form.address)
    &&& r.disposal_unit == Some(form.disposal_unit)
    &&& r.external_url == Some(form.external_url)
    &&& r.belong == Some(form.belong)
    &&& r.stage == Some(form.stage)
    &&& r.status == 1
    &&& r.show == Some(form.push)
    &&& r.create_time is None
}

/// A car recorded from a form keeps each posted price under its own name
/// (starting price as starting price, appraised as appraised, and so on),
/// is shown exactly when the form pushes it, waits to open (status 1), has
/// no creation time yet, keeps the given dates, keeps a positive mileage
/// and drops any other, and keeps every text of the form under its own name.
pub proof fn lemma_car_record_prices_and_show(
    r: NewLawsuitAutocar,
    form: CarForm,
    prices: CarPrices,
    start_time: Option<CalendarTime>,
    end_time: Option<CalendarTime>,
    registration: Option<i32>,
    production_date: Option<i32>,
)
    requires
        car_record_of(r, form, prices, start_time, end_time, registration, production_date),
    ensures
        r.price_base == prices.price_base,
        r.current_price == prices.current_price,
        r.assess_price == prices.assess_price,
        r.margin == prices.margin,
        r.recommended_price == prices.recommended_price,
        r.show == Some(form.push),
        form.push <==> r.show == Some(true),
        r.status == 1,
        r.create_time is None,
        r.start_time == start_time && r.end_time == end_time,
        r.registration == registration && r.production_date == production_date,
        form.kilometer > 0 ==> r.kilometer == Some(form.kilometer),
        form.kilometer <= 0 ==> r.kilometer is None,
        r.summary == form.summary && r.list_img == Some(form.list_img),
        r.license == Some(form.license) && r.violating == Some(form.violating),
        r.universal_model == Some(form.universal_model) && r.gearbox == Some(form.gearbox),
        r.fuel_type == Some(form.fuel_type) && r.autocar_model == Some(form.autocar_model),
        r.vim == Some(form.vim) && r.engine_number == Some(form.engine_number),
        r.emission == Some(form.emission) && r.recommend == form.recommend,
        r.address == Some(form.address) && r.disposal_unit == Some(form.disposal_unit),
        r.external_url == Some(form.external_url) && r.belong == Some(form.belong),
        r.stage == Some(form.stage),
{
}

/// The car recommended by a form: the title trimmed, the texts kept, the
/// mileage only when positive, waiting to open (status 1), shown when the
/// form pushes it, its creation time left to the insert.
pub fn recommended_car(
    form: &CarForm,
    prices: CarPrices,
    start_time: Option<CalendarTime>,
    end_time: Option<CalendarTime>,
    registration: Option<i32>,
    production_date: Option<i32>,
) -> (r: NewLawsuitAutocar)
    ensures
        car_record_of(r, *form, prices, start_time, end_time, registration, production_date),
        r.price_base == prices.price_base,
        r.current_price == prices.current_price,
        r.assess_price == prices.assess_price,
        r.margin == prices.margin,
        r.recommended_price == prices.recommended_price,
        r.show == Some(form.push),
        r.status == 1,
{
    NewLawsuitAutocar {
        title: trim_white_space(form.title.as_str()),
        summary: form.summary.clone(),
        list_img: Some(form.list_img.clone()),
        license: Some(form.license.clone()),
        violating: Some(form.violating.clone()),
        universal_model: Some(form.universal_model.clone()),
        gearbox: Some(form.gearbox.clone()),
        fuel_type: Some(form.fuel_type.clone()),
        kilometer: crate::reptile::kilometer_value(form.kilometer),
        registration,
        production_date,
        autocar_model: Some(form.autocar_model.clone()),
        vim: Some(form.vim.clone()),
        engine_number: Some(form.engine_number.clone()),
        emission: Some(form.emission.clone()),
        price_base: prices.price_base,
        current_price: prices.current_price,
        assess_price: prices.assess_price,
        margin: prices.margin,
        recommended_price: prices.recommended_price,
        start_time,
        end_time,
        recommend: form.recommend,
        address: Some(form.address.clone()),
        disposal_unit: Some(form.disposal_unit.clone()),
        external_url: Some(form.external_url.clone()),
        belong: Some(form.belong),
        stage: Some(form.stage.clone()),
        status: 1,
        show: Some(form.push),
        create_time: None,
    }
}

impl NewLawsuitAutocar {
    /// Fills in the creation time of an insert when the record has none.
    pub fn stamp_for_insert(&mut self, now: chrono::NaiveDateTime)
        ensures
            old(self).create_time is None ==> *final(self) == (NewLawsuitAutocar {
                create_time: Some(now),
                ..*old(self)
            }),
            old(self).create_time is Some ==> *final(self) == *old(self),
    {
        if self.create_time.is_none() {
            self.create_time = Some(now);
        }
    }
}

/// The edited values of a recommended car.
#[derive(Debug, Clone)]
pub struct UpdateLawsuitAutocar {
    pub title: String,
    pub summary: String,
    pub license: String,
    pub violating: String,
    pub universal_model: String,
    pub gearbox: String,
    pub fuel_type: String,
    pub kilometer: i32,
    pub autocar_model: Option<String>,
    pub vim: Option<String>,
    pub engine_number: Option<String>,
    pub emission: Option<String>,
    pub current_price: i64,
    pub recommended_price: i64,
    pub recommend: i16,
    pub show: Option<bool>,
}

/// The edit of a recommended car: its texts as posted, its current and
/// recommended prices in cents, shown or not.
pub fn car_update(form: &CarForm, current_price: i64, recommended_price: i64, show: bool) -> (r: UpdateLawsuitAutocar)
    ensures
        r == (UpdateLawsuitAutocar {
            title: form.title,
            summary: form.summary,
            license: form.license,
            violating: form.violating,
            universal_model: form.universal_model,
            gearbox: form.gearbox,
            fuel_type: form.fuel_type,
            kilometer: form.kilometer,
            autocar_model: Some(form.autocar_model),
            vim: Some(form.vim),
            engine_number: Some(form.engine_number),
            emission: Some(form.emission),
            current_price: current_price,
            recommended_price: recommended_price,
            recommend: form.recommend,
            show: Some(show),
        }),
{
    UpdateLawsuitAutocar {
        title: form.title.clone(),
        summary: form.summary.clone(),
        license: form.license.clone(),
        violating: form.violating.clone(),
        universal_model: form.universal_model.clone(),
        gearbox: form.gearbox.clone(),
        fuel_type: form.fuel_type.clone(),
        kilometer: form.kilometer,
        autocar_model: Some(form.autocar_model.clone()),
        vim: Some(form.vim.clone()),
        engine_number: Some(form.engine_number.clone()),
        emission: Some(form.emission.clone()),
        current_price,
        recommended_price,
        recommend: form.recommend,
        show: Some(show),
    }
}

/// What the scraper reads from an auction page (prices already in cents,
/// times in milliseconds).
#[derive(Debug, Clone)]
pub struct ScrapedAuction {
    pub title: String,
    pub current_price: i64,
    pub price_base: i64,
    pub assess_price: i64,
    pub margin: i64,
    pub start_time: i64,
    pub end_time: i64,
    pub address: String,
    pub disposal_unit: String,
    pub belong: i16,
    pub stage: String,
}

/// A scraped auction ready to be stored; its times are in seconds (UTC+8).
#[derive(Debug)]
pub struct NewLawsuitReptile {
    pub title: String,
    pub price_base: i64,
    pub current_price: i64,
    pub assess_price: i64,
    pub margin: i64,
    pub start_time: Option<i64>,
    pub end_time: Option<i64>,
    pub address: Option<String>,
    pub disposal_unit: Option<String>,
    pub external_url: Option<String>,
    pub belong: Option<i16>,
    pub stage: Option<String>,
    pub status: i16,
    pub create_time: Option<chrono::NaiveDateTime>,
}

/// The stored record of a scraped auction found at `url` at time `now`:
/// waiting to open (status 1), its times moved to seconds in UTC+8, created
/// `now`.
pub fn scraped_auction_record(data: ScrapedAuction, url: &str, now: chrono::NaiveDateTime) -> (r: NewLawsuitReptile)
    ensures
        r.title == data.title,
        r.price_base == data.price_base,
        r.current_price == data.current_price,
        r.assess_price == data.assess_price,
        r.margin == data.margin,
        r.start_time is Some && r.start_time->0 == crate::reptile::div_toward_zero(data.start_time as int, 1000) + 8 * 3600,
        r.end_time is Some && r.end_time->0 == crate::reptile::div_toward_zero(data.end_time as int, 1000) + 8 * 3600,
        r.address == Some(data.address),
        r.disposal_unit == Some(data.disposal_unit),
        r.external_url matches Some(u) && u@ == url@,
        r.belong == Some(data.belong),
        r.stage == Some(data.stage),
        r.status == 1,
        r.create_time == Some(now),
{
    let mut external_url = String::new();
    crate::text::push_str(&mut external_url, url);
    NewLawsuitReptile {
        title: data.title,
        price_base: data.price_base,
        current_price: data.current_price,
        assess_price: data.assess_price,
        margin: data.margin,
        start_time: Some(crate::reptile::auction_seconds(data.start_time)),
        end_time: Some(crate::reptile::auction_seconds(data.end_time)),
        address: Some(data.address),
        disposal_unit: Some(data.disposal_unit),
        external_url: Some(external_url),
        belong: Some(data.belong),
        stage: Some(data.stage),
        status: 1,
        create_time: Some(now),
    }
}


/// What `chrono::NaiveDateTime::parse_from_str(text, "%Y-%m-%dT%H:%M:%S")`
/// reads from `text`: the parts of the time (as in `time_parts`), or `None`
/// for a text it refuses.
pub uninterp spec fn form_time_parsed(text: Seq<char>) -> Option<(int, int, int)>;

/// What `chrono::NaiveDate::parse_from_str(text, "%Y-%m-%d")` reads from
/// `text`: the day (numbered as `crate::stock::day_weekday` explains), or
/// `None` for a text it refuses.
pub uninterp spec fn form_date_parsed(text: Seq<char>) -> Option<int>;

/// `chrono::NaiveDateTime::parse_from_str` with the form's format
/// `%Y-%m-%dT%H:%M:%S`, the time read taken apart into day, second and
/// nanosecond (`Datelike::num_days_from_ce`, `Timelike::num_seconds_from_midnight`,
/// `Timelike::nanosecond`). Claimed: the result is `form_time_parsed` of the
/// text (chrono's format parser depends on the text alone). The error's text
/// (chrono's `ParseError` message, only logged) is not stated.
#[verifier::external_body]
fn parse_date_time(text: &str) -> (r: Result<CalendarTime, String>)
    ensures
        r is Ok <==> form_time_parsed(text@) is Some,
        r matches Ok(t) ==> form_time_parsed(text@) == Some(time_parts(t)),
{
    match chrono::NaiveDateTime::parse_from_str(text, "%Y-%m-%dT%H:%M:%S") {
        Ok(t) => Ok(CalendarTime {
            day: chrono::Datelike::num_days_from_ce(&t),
            second: chrono::Timelike::num_seconds_from_midnight(&t),
            nano: chrono::Timelike::nanosecond(&t),
        }),
        Err(e) => Err(e.to_string()),
    }
}

/// `chrono::NaiveDate::parse_from_str` with the form's format `%Y-%m-%d`,
/// the date read given as its day number (`Datelike::num_days_from_ce`).
/// Claimed: the result is `form_date_parsed` of the text. The error's text
/// (only logged) is not stated.
#[verifier::external_body]
fn parse_date(text: &str) -> (r: Result<i32, String>)
    ensures
        r is Ok <==> form_date_parsed(text@) is Some,
        r matches Ok(d) ==> form_date_parsed(text@) == Some(d as int),
{
    match chrono::NaiveDate::parse_from_str(text, "%Y-%m-%d") {
        Ok(d) => Ok(chrono::Datelike::num_days_from_ce(&d)),
        Err(e) => Err(e.to_string()),
    }
}

/// What a form field gives once its text was read: the value, or no value
/// and the reason it could not be read.
pub fn parsed_field<T>(parsed: Result<T, String>) -> (r: (Option<T>, Option<String>))
    ensures
        match parsed {
            Ok(v) => r.0 == Some(v) && r.1 is None,
            Err(e) => r.0 is None && r.1 == Some(e),
        },
{
    match parsed {
        Ok(v) => (Some(v), None),
        Err(e) => (None, Some(e)),
    }
}

/// How the date-time field `text` became `value`, with `error` the reason
/// it could not be read: an empty field gives neither; otherwise the time
/// that chrono reads, or no time and a reason when it refuses the text.
pub open spec fn time_field(text: Seq<char>, value: Option<CalendarTime>, error: Option<String>) -> bool {
    if text.len() == 0 {
        value is None && error is None
    } else {
        match form_time_parsed(text) {
            Some(p) => value matches Some(t) && time_parts(t) == p && error is None,
            None => value is None && error is Some,
        }
    }
}

/// How the date field `text` became `value` (see `time_field`).
pub open spec fn date_field(text: Seq<char>, value: Option<i32>, error: Option<String>) -> bool {
    if text.len() == 0 {
        value is None && error is None
    } else {
        match form_date_parsed(text) {
            Some(p) => value matches Some(d) && d as int == p && error is None,
            None => value is None && error is Some,
        }
    }
}

/// A date-time field of the recommendation form (`2022-07-26T10:00:00`):
/// an empty field gives no time; otherwise either the time read or, when the
/// text cannot be read, no time and the reason (for the log).
pub fn form_date_time(text: &str) -> (r: (Option<CalendarTime>, Option<String>))
    ensures
        time_field(text@, r.0, r.1),
{
    if text.is_empty() {
        return (None, None);
    }
    parsed_field(parse_date_time(text))
}

/// A date field of the recommendation form (`2019-05-01`): an empty field
/// gives no date; otherwise either the date read or, when the text cannot be
/// read, no date and the reason (for the log).
pub fn form_date(text: &str) -> (r: (Option<i32>, Option<String>))
    ensures
        date_field(text@, r.0, r.1),
{
    if text.is_empty() {
        return (None, None);
    }
    parsed_field(parse_date(text))
}

/// The date fields of the recommendation form, as posted.
#[derive(Debug, Clone)]
pub struct CarDates {
    pub start_time: String,
    pub end_time: String,
    pub registration: String,
    pub production_date: String,
}

/// Why date fields of the recommendation form could not be read.
#[derive(Debug, Clone)]
pub struct CarDateErrors {
    pub start_time: Option<String>,
    pub end_time: Option<String>,
    pub registration: Option<String>,
    pub production_date: Option<String>,
}

/// The car recommended by a form whose dates are still text: each date is
/// read as `form_date_time` / `form_date` read it, the rest is as in
/// `recommended_car`.
pub fn recommended_car_from_form(form: &CarForm, prices: CarPrices, dates: &CarDates) -> (r: (NewLawsuitAutocar, CarDateErrors))
    ensures
        car_record_of(r.0, *form, prices, r.0.start_time, r.0.end_time, r.0.registration, r.0.production_date),
        r.0.price_base == prices.price_base,
        r.0.current_price == prices.current_price,
        r.0.assess_price == prices.assess_price,
        r.0.margin == prices.margin,
        r.0.recommended_price == prices.recommended_price,
        r.0.show == Some(form.push),
        r.0.status == 1,
        time_field(dates.start_time@, r.0.start_time, r.1.start_time),
        time_field(dates.end_time@, r.0.end_time, r.1.end_time),
        date_field(dates.registration@, r.0.registration, r.1.registration),
        date_field(dates.production_date@, r.0.production_date, r.1.production_date),
{
    let (start_time, start_err) = form_date_time(dates.start_time.as_str());
    let (end_time, end_err) = form_date_time(dates.end_time.as_str());
    let (registration, registration_err) = form_date(dates.registration.as_str());
    let (production_date, production_err) = form_date(dates.production_date.as_str());
    let car = recommended_car(form, prices, start_time, end_time, registration, production_date);
    let errors = CarDateErrors {
        start_time: start_err,
        end_time: end_err,
        registration: registration_err,
        production_date: production_err,
    };
    (car, errors)
}

} // verus!

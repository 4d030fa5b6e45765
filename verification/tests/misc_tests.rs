use gwmc_admin::cache::menus_cache_file;
use gwmc_admin::chat::{broadcast_targets, chat_line};
use gwmc_admin::forms::NewReptile;
use gwmc_admin::paging::page_window;
use gwmc_admin::reptile::{
    article_for, auction_seconds, autocar_photo_rows, kilometer_value, plan_reptile,
    reptile_photo_rows, taobao_item_url, LawsuitReptilePhoto, ReptilePlan, ScrapedPhoto,
};
use gwmc_admin::upload::summernote_reply;
use gwmc_admin::visits::{visit_message, VisitCounts};

#[test]
fn pages() {
    assert_eq!(page_window(None, None), (50, 0));
    assert_eq!(page_window(Some(1), Some(8)), (8, 0));
    assert_eq!(page_window(Some(0), Some(8)), (8, 0));
    assert_eq!(page_window(Some(3), Some(8)), (8, 16));
    assert_eq!(page_window(Some(4), Some(8)).1, page_window(Some(3), Some(8)).1 + 8);
}

#[test]
fn menus_cache_files() {
    assert_eq!(menus_cache_file("./cache/", 1), "./cache/menus_1.json");
    assert_eq!(menus_cache_file("", -12), "menus_-12.json");
}

#[test]
fn chat_lines_and_receivers() {
    assert_eq!(chat_line(3, "你好"), "<用户#3>: 你好");
    assert_eq!(broadcast_targets(2, &vec![1, 2, 3, 2]), vec![1, 3]);
    assert_eq!(broadcast_targets(9, &vec![1, 2]), vec![1, 2]);
}

#[test]
fn taobao_urls_and_plans() {
    assert_eq!(taobao_item_url("680123"), "https://sf-item.taobao.com/sf_item/680123.htm");
    let r = |belong: &str, html: &str| NewReptile {
        paimai_id: "680123".to_string(),
        belong: belong.to_string(),
        html_string: html.to_string(),
    };
    match plan_reptile(&r("1", "<p>")) {
        ReptilePlan::Taobao { url, html } => {
            assert_eq!(url, "https://sf-item.taobao.com/sf_item/680123.htm");
            assert_eq!(html, "<p>");
        }
        _ => panic!(),
    }
    match plan_reptile(&r("2", "")) {
        ReptilePlan::Jingdong { paimai_id, belong } => {
            assert_eq!(paimai_id, "680123");
            assert_eq!(belong, "2");
        }
        _ => panic!(),
    }
    match plan_reptile(&r("9", "")) {
        ReptilePlan::Refused(m) => assert_eq!(m, "所属平台（1.淘宝、2.京东）"),
        _ => panic!(),
    }
    match plan_reptile(&r("1", "")) {
        ReptilePlan::Refused(m) => assert_eq!(m, "淘宝平台请输入html"),
        _ => panic!(),
    }
}

#[test]
fn auction_times() {
    assert_eq!(auction_seconds(1658800800000), 1658800800 + 28800);
    assert_eq!(auction_seconds(1999), 1 + 28800);
    assert_eq!(auction_seconds(-1999), -1 + 28800);
    assert_eq!(auction_seconds(0), 28800);
}

#[test]
fn first_scraped_photo_is_cover() {
    let p = |n: &str| ScrapedPhoto {
        external_small: format!("{}s", n),
        external_middle: format!("{}m", n),
        external_original: format!("{}o", n),
    };
    let rows = reptile_photo_rows(9, vec![p("a"), p("b"), p("c")]);
    assert_eq!(rows.len(), 3);
    assert_eq!(rows[0].front_cover, Some(true));
    assert_eq!(rows[1].front_cover, Some(false));
    assert_eq!(rows[2].front_cover, Some(false));
    assert_eq!(rows[1].lrid, 9);
    assert_eq!(rows[1].external_middle, Some("bm".to_string()));
    assert!(reptile_photo_rows(9, vec![]).is_empty());
}

#[test]
fn autocar_photos_copy_reptile_photos() {
    let ph = LawsuitReptilePhoto {
        lrpid: 1,
        lrid: 2,
        external_small: Some("s".to_string()),
        external_middle: None,
        external_original: Some("o".to_string()),
        front_cover: Some(true),
    };
    let rows = autocar_photo_rows(5, Some(vec![ph.clone(), ph]));
    assert_eq!(rows.len(), 2);
    assert_eq!(rows[0].laid, 5);
    assert_eq!(rows[0].external_small, Some("s".to_string()));
    assert_eq!(rows[0].external_middle, None);
    assert_eq!(rows[1].front_cover, Some(true));
    assert!(autocar_photo_rows(5, None).is_empty());
}

#[test]
fn kilometers_and_articles() {
    assert_eq!(kilometer_value(0), None);
    assert_eq!(kilometer_value(-3), None);
    assert_eq!(kilometer_value(12000), Some(12000));
    assert!(article_for(1, String::new()).is_none());
    let a = article_for(4, "好车".to_string()).unwrap();
    assert_eq!(a.laid, 4);
    assert_eq!(a.article_content, Some("好车".to_string()));
}

#[test]
fn upload_replies() {
    let none = summernote_reply(None, "http://img/");
    assert_eq!((none.status, none.message.as_str(), none.image), (408, "没有选择文件上传", None));
    let wrong = summernote_reply(Some(("image".to_string(), "a.jpg".to_string())), "http://img/");
    assert_eq!((wrong.status, wrong.message.as_str()), (408, "408请求超时"));
    let empty = summernote_reply(Some(("file".to_string(), String::new())), "http://img/");
    assert_eq!(empty.status, 408);
    let ok = summernote_reply(Some(("file".to_string(), "static/uploads/a.jpg".to_string())), "http://img/");
    assert_eq!(ok.status, 200);
    assert_eq!(ok.message, "图片上传成功");
    assert_eq!(ok.image, Some("http://img/static/uploads/a.jpg".to_string()));
}

#[test]
fn visits_count_from_zero() {
    let mut v = VisitCounts::new();
    assert_eq!(v.record_visit("/login_url"), 0);
    assert_eq!(v.record_visit("/login_url"), 1);
    assert_eq!(v.record_visit("/login_url/a"), 0);
    assert_eq!(v.record_visit("/login_url"), 2);
    assert_eq!(visit_message(2), "This is the 2th visit to this URL!");
}

use gwmc_admin::autocar::{
    car_update, form_date, form_date_time, recommended_car, recommended_car_from_form, scraped_auction_record, CalendarTime, CarDates, CarForm,
    CarPrices, ScrapedAuction,
};

fn car_form() -> CarForm {
    CarForm {
        title: "  宝马 X5 \t".to_string(),
        list_img: "img".to_string(),
        recommend: 8,
        license: "粤A".to_string(),
        violating: "无".to_string(),
        universal_model: "X5".to_string(),
        gearbox: "自动档".to_string(),
        fuel_type: "汽油".to_string(),
        kilometer: 0,
        autocar_model: "BMW".to_string(),
        vim: "VIN".to_string(),
        engine_number: "E1".to_string(),
        emission: "国六".to_string(),
        address: "广州".to_string(),
        disposal_unit: "法院".to_string(),
        external_url: "http://x".to_string(),
        belong: 1,
        stage: "一拍".to_string(),
        push: true,
        summary: "摘要".to_string(),
    }
}

#[test]
fn recommended_car_record() {
    let prices = CarPrices { price_base: 100, current_price: 200, assess_price: 300, margin: 40, recommended_price: 500 };
    let mut car = recommended_car(&car_form(), prices, None, None, None, None);
    assert_eq!(car.title, "宝马 X5");
    assert_eq!(car.kilometer, None);
    assert_eq!(car.status, 1);
    assert_eq!(car.show, Some(true));
    assert_eq!(car.recommended_price, 500);
    assert_eq!(car.belong, Some(1));
    assert!(car.create_time.is_none());
    let now = chrono::NaiveDate::from_ymd_opt(2022, 7, 26).unwrap().and_hms_opt(10, 0, 0).unwrap();
    car.stamp_for_insert(now);
    assert_eq!(car.create_time, Some(now));
    let u = car_update(&car_form(), 7, 9, false);
    assert_eq!((u.current_price, u.recommended_price, u.show), (7, 9, Some(false)));
    assert_eq!(u.title, "  宝马 X5 \t");
}

#[test]
fn scraped_auction_rows() {
    let a = ScrapedAuction {
        title: "车".to_string(),
        current_price: 24100,
        price_base: 1,
        assess_price: 2,
        margin: 3,
        start_time: 1658800800000,
        end_time: 1658887200000,
        address: "a".to_string(),
        disposal_unit: "d".to_string(),
        belong: 1,
        stage: "一拍".to_string(),
    };
    let now = chrono::NaiveDate::from_ymd_opt(2022, 7, 26).unwrap().and_hms_opt(10, 0, 0).unwrap();
    let r = scraped_auction_record(a, "https://sf-item.taobao.com/sf_item/1.htm", now);
    assert_eq!(r.create_time, Some(now));
    assert_eq!(r.start_time, Some(1658800800 + 28800));
    assert_eq!(r.end_time, Some(1658887200 + 28800));
    assert_eq!(r.external_url, Some("https://sf-item.taobao.com/sf_item/1.htm".to_string()));
    assert_eq!(r.status, 1);
    assert_eq!(r.current_price, 24100);
}

#[test]
fn form_date_fields() {
    let t = chrono::NaiveDate::from_ymd_opt(2022, 7, 26).unwrap();
    let day = chrono::Datelike::num_days_from_ce(&t);
    assert_eq!(form_date_time(""), (None, None));
    assert_eq!(form_date_time("2022-07-26T10:00:00"), (Some(CalendarTime { day, second: 36000, nano: 0 }), None));
    let (v, e) = form_date_time("2022-07-26 10:00");
    assert!(v.is_none() && e.is_some());
    assert_eq!(form_date(""), (None, None));
    assert_eq!(form_date("2022-07-26"), (Some(day), None));
    assert_eq!(form_date("0001-01-01"), (Some(1), None));
    let (d, e) = form_date("bad");
    assert!(d.is_none() && e.is_some());
}

#[test]
fn recommended_car_reads_form_dates() {
    let prices = CarPrices { price_base: 100, current_price: 200, assess_price: 300, margin: 40, recommended_price: 500 };
    let dates = CarDates {
        start_time: "2022-07-26T10:00:00".to_string(),
        end_time: "tomorrow".to_string(),
        registration: "2019-05-01".to_string(),
        production_date: String::new(),
    };
    let (car, errors) = recommended_car_from_form(&car_form(), prices, &dates);
    let day = chrono::Datelike::num_days_from_ce(&chrono::NaiveDate::from_ymd_opt(2022, 7, 26).unwrap());
    assert_eq!(car.start_time, Some(CalendarTime { day, second: 36000, nano: 0 }));
    assert_eq!(car.end_time, None);
    let reg = chrono::Datelike::num_days_from_ce(&chrono::NaiveDate::from_ymd_opt(2019, 5, 1).unwrap());
    assert_eq!(car.registration, Some(reg));
    assert_eq!(car.production_date, None);
    assert!(errors.start_time.is_none());
    assert!(errors.end_time.is_some());
    assert!(errors.registration.is_none());
    assert!(errors.production_date.is_none());
    assert_eq!(car.title, "宝马 X5");
}

#[test]
fn visits_of_one_path_ignore_other_paths() {
    let mut v = VisitCounts::new();
    let seq = ["/login_url/a", "/login_url/b", "/login_url/a", "/login_url/c", "/login_url/a", "/login_url/b"];
    let replies: Vec<i32> = seq.iter().map(|p| v.record_visit(p)).collect();
    assert_eq!(replies, vec![0, 0, 1, 0, 2, 1]);
    assert_eq!(v.visits("/login_url/a"), Some(2));
    assert_eq!(v.visits("/login_url/b"), Some(1));
    assert_eq!(v.visits("/login_url/c"), Some(0));
    assert_eq!(v.visits("/login_url/d"), None);
}

use gwmc_admin::ids::{delete_ids, parse_id_list};
use gwmc_admin::text::{chars_of, parse_i32, trim_white_space};

#[test]
fn batch_delete_ids() {
    assert_eq!(parse_id_list("13,12,11,4,2"), Some(vec![13, 12, 11, 4, 2]));
    assert_eq!(delete_ids(Some("13,12,11,4,2")), Some(vec![13, 12, 11, 4, 2]));
    assert_eq!(delete_ids(None), Some(vec![]));
}

#[test]
fn bad_ids_are_refused() {
    assert_eq!(parse_id_list(""), None);
    assert_eq!(parse_id_list("1,,2"), None);
    assert_eq!(parse_id_list("1, 2"), None);
    assert_eq!(parse_id_list("a"), None);
    assert_eq!(parse_id_list("1,"), None);
}

#[test]
fn ids_join_and_parse_back() {
    let ids = vec![-7, 0, 2147483647, -2147483648, 42];
    let joined: Vec<String> = ids.iter().map(|i| i.to_string()).collect();
    assert_eq!(parse_id_list(&joined.join(",")), Some(ids));
}

#[test]
fn i32_reading_matches_std() {
    for s in ["0", "+5", "-5", "007", "2147483647", "-2147483648", "2147483648", "-2147483649", "", "+", "-", "1a", " 1", "99999999999999999999", "+-1"] {
        let cs = chars_of(s);
        assert_eq!(parse_i32(&cs), s.parse::<i32>().ok(), "{}", s);
    }
}

#[test]
fn trimming_matches_std() {
    for s in ["  a b  ", "\u{3000}标题\t\n", "", "   ", "x", "\u{85}y\u{a0}"] {
        assert_eq!(trim_white_space(s), s.trim(), "{:?}", s);
    }
}

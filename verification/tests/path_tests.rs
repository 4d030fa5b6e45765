use gwmc_admin::path::check_full_path;

fn key(p: &str) -> String {
    check_full_path(p.to_string())
}

#[test]
fn root_path_stays() {
    assert_eq!(key("/"), "/");
    assert_eq!(key("x"), "x");
}

#[test]
fn page_number_is_dropped() {
    assert_eq!(key("/menus/index/3"), "menus/index");
    assert_eq!(key("/menus/index/42"), "menus/index");
    assert_eq!(key("/menus/index"), "menus/index");
    assert_eq!(key("/menus/index/"), "menus/index");
}

#[test]
fn single_segment_and_edge_cases() {
    assert_eq!(key("/menus"), "menus");
    assert_eq!(key("//"), "");
    assert_eq!(key(""), "");
    assert_eq!(key("/a//b"), "a/");
    assert_eq!(key("é"), "é");
    assert_eq!(key("/角色/列表/2"), "角色/列表");
}

#[test]
fn key_of_a_key_is_itself() {
    for p in ["/menus/index/3", "/menus", "/", "", "/角色/列表/2", "menus/index", "/a/b/c/d"] {
        let k = key(p);
        assert_eq!(key(&k), k);
    }
    // A path with `//` is outside the law: its key is not its own key.
    assert_eq!(key("/a//b"), "a/");
    assert_eq!(key("a/"), "a");
}

use gwmc_admin::forms::{
    AdminPost, ArticlePost, LoginForm, MenuPost, NavbarPost, NewReptile, RightPost, RiseFallPost,
    RolePost,
};

fn admin(username: &str) -> AdminPost {
    AdminPost {
        username: username.to_string(),
        password: "pw".to_string(),
        email: "a@b.c".to_string(),
        mobile: "139".to_string(),
        role: 2,
        status: 0,
    }
}

#[test]
fn admin_post_requires_username() {
    assert_eq!(admin("").validate().unwrap_err(), "登录必填");
    let ok = admin("luck").validate().unwrap();
    assert_eq!(ok.username, "luck");
    assert_eq!(ok.role, 2);
}

#[test]
fn admin_post_to_new_admin() {
    let a = admin("luck").to_new_admin("salt".to_string(), "hash".to_string());
    assert_eq!(a.username, "luck");
    assert_eq!(a.password, "hash");
    assert_eq!(a.salt, "salt");
    assert_eq!(a.email, Some("a@b.c".to_string()));
    assert_eq!(a.mobile, Some("139".to_string()));
    assert_eq!(a.role, Some(2));
    assert_eq!(a.status, Some(0));
}

fn article(title: &str, content: &str) -> ArticlePost {
    ArticlePost {
        title: title.to_string(),
        seo_title: "t".to_string(),
        seo_keywords: "k".to_string(),
        seo_description: "d".to_string(),
        content: content.to_string(),
    }
}

#[test]
fn article_post_requires_title_and_content() {
    assert_eq!(article("", "x").validate().unwrap_err(), "标题或文章内容不能为空");
    assert_eq!(article("x", "").validate().unwrap_err(), "标题或文章内容不能为空");
    assert!(article("x", "y").validate().is_ok());
    let n = article("x", "y").to_introduction();
    assert_eq!(n.title, "x");
    assert_eq!(n.seo_keywords, Some("k".to_string()));
    assert_eq!(n.content, Some("y".to_string()));
}

#[test]
fn login_form_checks_name_then_password() {
    let f = |u: &str, p: &str| LoginForm { username: u.to_string(), passwd: p.to_string() };
    assert_eq!(f("", "").validate().unwrap_err(), "登录名不能为空");
    assert_eq!(f("", "x").validate().unwrap_err(), "登录名不能为空");
    assert_eq!(f("u", "").validate().unwrap_err(), "密码不能为空");
    let ok = f("u", "p").validate().unwrap();
    assert_eq!(ok.username, "u");
    assert_eq!(ok.passwd, "p");
}

#[test]
fn menu_post_requires_name() {
    let m = |name: &str| MenuPost {
        order_by: 3,
        path_full: "/menus/index".to_string(),
        name: name.to_string(),
        level: 1,
        parent: 0,
        icon: "fa".to_string(),
        department: 1,
        is_show: true,
    };
    assert_eq!(m("").validate().unwrap_err(), "菜单名必填");
    assert!(m("菜单").validate().is_ok());
    let n = m("菜单").to_new_menu();
    assert_eq!(n.order_by, 3);
    assert_eq!(n.path_full, Some("/menus/index".to_string()));
    assert_eq!(n.level, Some(1));
    assert_eq!(n.parent, Some(0));
    assert_eq!(n.icon, Some("fa".to_string()));
    assert_eq!(n.department, Some(1));
    assert!(n.is_show);
}

#[test]
fn navbar_post_requires_menu_then_link() {
    let n = |menu: &str, link: &str| NavbarPost {
        menu: menu.to_string(),
        link: link.to_string(),
        show: false,
        sort_order: 4,
    };
    assert_eq!(n("", "").validate().unwrap_err(), "导航栏按纽名不能为空");
    assert_eq!(n("首页", "").validate().unwrap_err(), "导航栏链接");
    assert!(n("首页", "/").validate().is_ok());
    let bar = n("首页", "/").to_new_navbar();
    assert_eq!(bar.menu, "首页");
    assert_eq!(bar.link, "/");
    assert_eq!(bar.show, Some(false));
    assert_eq!(bar.sort_order, 4);
}

#[test]
fn new_reptile_checks_platform_and_html() {
    let r = |belong: &str, html: &str| NewReptile {
        paimai_id: "123".to_string(),
        belong: belong.to_string(),
        html_string: html.to_string(),
    };
    assert_eq!(r("3", "x").validate().unwrap_err(), "所属平台（1.淘宝、2.京东）");
    assert_eq!(r("", "x").validate().unwrap_err(), "所属平台（1.淘宝、2.京东）");
    assert_eq!(r("1", "").validate().unwrap_err(), "淘宝平台请输入html");
    assert!(r("1", "<html>").validate().is_ok());
    assert!(r("2", "").validate().is_ok());
}

#[test]
fn right_post_requires_path_and_maps() {
    let r = |path: &str| RightPost {
        right_name: "name".to_string(),
        path_full: path.to_string(),
        right_detail: "detail".to_string(),
    };
    assert_eq!(r("").validate().unwrap_err(), "路径必填");
    assert!(r("menus/index").validate().is_ok());
    let created = r("menus/index").to_new_rights();
    assert_eq!(created.right_detail, Some("name".to_string()));
    let updated = r("menus/index").to_update_rights();
    assert_eq!(updated.right_detail, Some("detail".to_string()));
    assert_eq!(updated.right_name, Some("name".to_string()));
    assert_eq!(updated.path_full, "menus/index");
}

#[test]
fn role_post_checks_and_reads_rights() {
    let r = |name: &str, rights: &str| RolePost {
        name: name.to_string(),
        rights: rights.to_string(),
        default: "/".to_string(),
    };
    assert_eq!(r("", "1").validate().unwrap_err(), "角色名必填");
    assert_eq!(r("admin", "").validate().unwrap_err(), "权限不能为空");
    assert!(r("admin", "5,6,9").validate().is_ok());
    let role = r("admin", "5,6,9").to_new_role().unwrap();
    assert_eq!(role.name, "admin");
    assert_eq!(role.rights, Some(vec![5, 6, 9]));
    assert_eq!(role.default, Some("/".to_string()));
    assert!(r("admin", "5,x").to_new_role().is_none());
}

#[test]
fn rise_fall_post_refuses_negative_rise() {
    let p = |rise: i32| RiseFallPost {
        stock_type: "morning".to_string(),
        rise,
        fall: 2,
        rise_limit: 3,
        limit_drop: 4,
    };
    assert_eq!(p(-1).validate().unwrap_err(), "导航栏按纽名不能为空");
    assert_eq!(p(0).validate().unwrap().rise, 0);
}

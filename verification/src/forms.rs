//! The forms that the back office posts, and the checks run on them before
//! anything is stored.
use vstd::prelude::*;
use crate::text::text_eq;

verus! {

/// A back-office account as posted by the account form.
#[derive(Debug, Clone)]
pub struct AdminPost {
    pub username: String,
    pub password: String,
    pub email: String,
    pub mobile: String,
    pub role: i32,
    pub status: i64,
}

impl AdminPost {
    /// A copy field by field.
    pub fn duplicate(&self) -> (r: Self)
        ensures
            r == *self,
    {
        AdminPost {
            username: self.username.clone(),
            password: self.password.clone(),
            email: self.email.clone(),
            mobile: self.mobile.clone(),
            role: self.role,
            status: self.status,
        }
    }

    /// The login name is required.
    pub fn validate(&self) -> (r: Result<Self, &'static str>)
        ensures
            match r {
                Ok(v) => self.username@.len() > 0 && v == *self,
                Err(m) => self.username@.len() == 0 && m@ == "登录必填"@,
            },
    {
        if self.username.as_str().is_empty() {
            return Err("登录必填");
        }
        Ok(self.duplicate())
    }
}


/// A new account ready to be stored: the password already hashed with `salt`.
#[derive(Debug, Clone)]
pub struct NewAdmin {
    pub username: String,
    pub password: String,
    pub salt: String,
    pub email: Option<String>,
    pub mobile: Option<String>,
    pub role: Option<i32>,
    pub status: Option<i64>,
}

impl AdminPost {
    /// The account to store for this form, given a fresh salt and the
    /// password hashed with it.
    pub fn to_new_admin(&self, salt: String, hashed_password: String) -> (r: NewAdmin)
        ensures
            r == (NewAdmin {
                username: self.username,
                password: hashed_password,
                salt: salt,
                email: Some(self.email),
                mobile: Some(self.mobile),
                role: Some(self.role),
                status: Some(self.status),
            }),
    {
        NewAdmin {
            username: self.username.clone(),
            password: hashed_password,
            salt: salt,
            email: Some(self.email.clone()),
            mobile: Some(self.mobile.clone()),
            role: Some(self.role),
            status: Some(self.status),
        }
    }
}

/// A site introduction article as posted.
#[derive(Debug, Clone)]
pub struct ArticlePost {
    pub title: String,
    pub seo_title: String,
    pub seo_keywords: String,
    pub seo_description: String,
    pub content: String,
}

/// An introduction article ready to be stored.
#[derive(Debug, Clone)]
pub struct NewIntroduction {
    pub title: String,
    pub seo_title: Option<String>,
    pub seo_keywords: Option<String>,
    pub seo_description: Option<String>,
    pub content: Option<String>,
}

impl ArticlePost {
    /// A copy field by field.
    pub fn duplicate(&self) -> (r: Self)
        ensures
            r == *self,
    {
        ArticlePost {
            title: self.title.clone(),
            seo_title: self.seo_title.clone(),
            seo_keywords: self.seo_keywords.clone(),
            seo_description: self.seo_description.clone(),
            content: self.content.clone(),
        }
    }

    /// Both the title and the content are required.
    pub fn validate(&self) -> (r: Result<Self, &'static str>)
        ensures
            match r {
                Ok(v) => self.title@.len() > 0 && self.content@.len() > 0 && v == *self,
                Err(m) => (self.title@.len() == 0 || self.content@.len() == 0) && m@
                    == "标题或文章内容不能为空"@,
            },
    {
        if self.title.as_str().is_empty() || self.content.as_str().is_empty() {
            return Err("标题或文章内容不能为空");
        }
        Ok(self.duplicate())
    }

    /// The article to store for this form.
    pub fn to_introduction(&self) -> (r: NewIntroduction)
        ensures
            r == (NewIntroduction {
                title: self.title,
                seo_title: Some(self.seo_title),
                seo_keywords: Some(self.seo_keywords),
                seo_description: Some(self.seo_description),
                content: Some(self.content),
            }),
    {
        NewIntroduction {
            title: self.title.clone(),
            seo_title: Some(self.seo_title.clone()),
            seo_keywords: Some(self.seo_keywords.clone()),
            seo_description: Some(self.seo_description.clone()),
            content: Some(self.content.clone()),
        }
    }
}

/// The login form.
#[derive(Debug, Clone)]
pub struct LoginForm {
    pub username: String,
    pub passwd: String,
}

impl LoginForm {
    /// A copy field by field.
    pub fn duplicate(&self) -> (r: Self)
        ensures
            r == *self,
    {
        LoginForm { username: self.username.clone(), passwd: self.passwd.clone() }
    }

    /// The login name, then the password, are required.
    pub fn validate(&self) -> (r: Result<Self, &'static str>)
        ensures
            match r {
                Ok(v) => self.username@.len() > 0 && self.passwd@.len() > 0 && v == *self,
                Err(m) => if self.username@.len() == 0 {
                    m@ == "登录名不能为空"@
                } else {
                    self.passwd@.len() == 0 && m@ == "密码不能为空"@
                },
            },
    {
        if self.username.as_str().is_empty() {
            Err("登录名不能为空")
        } else if self.passwd.as_str().is_empty() {
            Err("密码不能为空")
        } else {
            Ok(self.duplicate())
        }
    }
}

/// A left-menu entry as posted.
#[derive(Debug, Clone)]
pub struct MenuPost {
    pub order_by: i16,
    pub path_full: String,
    pub name: String,
    pub level: i16,
    pub parent: i32,
    pub icon: String,
    pub department: i32,
    pub is_show: bool,
}

/// A menu entry ready to be stored.
#[derive(Debug, Clone)]
pub struct NewMenu {
    pub order_by: i16,
    pub path_full: Option<String>,
    pub name: String,
    pub level: Option<i16>,
    pub parent: Option<i32>,
    pub icon: Option<String>,
    pub department: Option<i32>,
    pub is_show: bool,
}

impl MenuPost {
    /// A copy field by field.
    pub fn duplicate(&self) -> (r: Self)
        ensures
            r == *self,
    {
        MenuPost {
            order_by: self.order_by,
            path_full: self.path_full.clone(),
            name: self.name.clone(),
            level: self.level,
            parent: self.parent,
            icon: self.icon.clone(),
            department: self.department,
            is_show: self.is_show,
        }
    }

    /// The menu name is required.
    pub fn validate(&self) -> (r: Result<Self, &'static str>)
        ensures
            match r {
                Ok(v) => self.name@.len() > 0 && v == *self,
                Err(m) => self.name@.len() == 0 && m@ == "菜单名必填"@,
            },
    {
        if self.name.as_str().is_empty() {
            return Err("菜单名必填");
        }
        Ok(self.duplicate())
    }

    /// The menu entry to store (or to update with) for this form.
    pub fn to_new_menu(&self) -> (r: NewMenu)
        ensures
            r == (NewMenu {
                order_by: self.order_by,
                path_full: Some(self.path_full),
                name: self.name,
                level: Some(self.level),
                parent: Some(self.parent),
                icon: Some(self.icon),
                department: Some(self.department),
                is_show: self.is_show,
            }),
    {
        NewMenu {
            order_by: self.order_by,
            path_full: Some(self.path_full.clone()),
            name: self.name.clone(),
            level: Some(self.level),
            parent: Some(self.parent),
            icon: Some(self.icon.clone()),
            department: Some(self.department),
            is_show: self.is_show,
        }
    }
}

/// A navigation bar button as posted.
#[derive(Debug, Clone)]
pub struct NavbarPost {
    pub menu: String,
    pub link: String,
    pub show: bool,
    pub sort_order: i16,
}

/// A navigation bar button ready to be stored.
#[derive(Debug, Clone)]
pub struct NewNavbar {
    pub menu: String,
    pub link: String,
    pub show: Option<bool>,
    pub sort_order: i16,
}

impl NavbarPost {
    /// A copy field by field.
    pub fn duplicate(&self) -> (r: Self)
        ensures
            r == *self,
    {
        NavbarPost {
            menu: self.menu.clone(),
            link: self.link.clone(),
            show: self.show,
            sort_order: self.sort_order,
        }
    }

    /// The button name, then the link, are required.
    pub fn validate(&self) -> (r: Result<Self, &'static str>)
        ensures
            match r {
                Ok(v) => self.menu@.len() > 0 && self.link@.len() > 0 && v == *self,
                Err(m) => if self.menu@.len() == 0 {
                    m@ == "导航栏按纽名不能为空"@
                } else {
                    self.link@.len() == 0 && m@ == "导航栏链接"@
                },
            },
    {
        if self.menu.as_str().is_empty() {
            return Err("导航栏按纽名不能为空");
        }
        if self.link.as_str().is_empty() {
            return Err("导航栏链接");
        }
        Ok(self.duplicate())
    }

    /// The button to store (or to update with) for this form.
    pub fn to_new_navbar(&self) -> (r: NewNavbar)
        ensures
            r == (NewNavbar {
                menu: self.menu,
                link: self.link,
                show: Some(self.show),
                sort_order: self.sort_order,
            }),
    {
        NewNavbar {
            menu: self.menu.clone(),
            link: self.link.clone(),
            show: Some(self.show),
            sort_order: self.sort_order,
        }
    }
}

/// The query of the scraped-car list: a title and whether it was pushed.
#[derive(Debug, Clone)]
pub struct GetQuery {
    pub title: String,
    pub push: bool,
}

/// A request to scrape an auction: its id, its platform (`1` Taobao, `2`
/// JD) and, for Taobao, the page's HTML.
#[derive(Debug, Clone)]
pub struct NewReptile {
    pub paimai_id: String,
    pub belong: String,
    pub html_string: String,
}

impl NewReptile {
    /// A copy field by field.
    pub fn duplicate(&self) -> (r: Self)
        ensures
            r == *self,
    {
        NewReptile {
            paimai_id: self.paimai_id.clone(),
            belong: self.belong.clone(),
            html_string: self.html_string.clone(),
        }
    }

    /// The platform must be `1` or `2`; a Taobao request must carry HTML.
    pub fn validate(&self) -> (r: Result<Self, &'static str>)
        ensures
            match r {
                Ok(v) => (self.belong@ == "1"@ || self.belong@ == "2"@) && !(self.belong@ == "1"@
                    && self.html_string@.len() == 0) && v == *self,
                Err(m) => if self.belong@ != "1"@ && self.belong@ != "2"@ {
                    m@ == "所属平台（1.淘宝、2.京东）"@
                } else {
                    self.belong@ == "1"@ && self.html_string@.len() == 0 && m@ == "淘宝平台请输入html"@
                },
            },
    {
        let is_taobao = text_eq(self.belong.as_str(), "1");
        let is_jd = text_eq(self.belong.as_str(), "2");
        if !is_taobao && !is_jd {
            return Err("所属平台（1.淘宝、2.京东）");
        }
        if is_taobao && self.html_string.as_str().is_empty() {
            return Err("淘宝平台请输入html");
        }
        Ok(self.duplicate())
    }
}

/// An access right as posted.
#[derive(Debug, Clone)]
pub struct RightPost {
    pub right_name: String,
    pub path_full: String,
    pub right_detail: String,
}

/// An access right ready to be stored, or the new values of one.
#[derive(Debug, Clone)]
pub struct NewRights {
    pub right_name: Option<String>,
    pub path_full: String,
    pub right_detail: Option<String>,
}

impl RightPost {
    /// A copy field by field.
    pub fn duplicate(&self) -> (r: Self)
        ensures
            r == *self,
    {
        RightPost {
            right_name: self.right_name.clone(),
            path_full: self.path_full.clone(),
            right_detail: self.right_detail.clone(),
        }
    }

    /// The path is required.
    pub fn validate(&self) -> (r: Result<Self, &'static str>)
        ensures
            match r {
                Ok(v) => self.path_full@.len() > 0 && v == *self,
                Err(m) => self.path_full@.len() == 0 && m@ == "路径必填"@,
            },
    {
        if self.path_full.as_str().is_empty() {
            return Err("路径必填");
        }
        Ok(self.duplicate())
    }

    /// The right stored for a new-right form: its detail is filled with the
    /// right's name, as the creation page does.
    pub fn to_new_rights(&self) -> (r: NewRights)
        ensures
            r == (NewRights {
                right_name: Some(self.right_name),
                path_full: self.path_full,
                right_detail: Some(self.right_name),
            }),
    {
        NewRights {
            right_name: Some(self.right_name.clone()),
            path_full: self.path_full.clone(),
            right_detail: Some(self.right_name.clone()),
        }
    }

    /// The new values of an edited right.
    pub fn to_update_rights(&self) -> (r: NewRights)
        ensures
            r == (NewRights {
                right_name: Some(self.right_name),
                path_full: self.path_full,
                right_detail: Some(self.right_detail),
            }),
    {
        NewRights {
            right_name: Some(self.right_name.clone()),
            path_full: self.path_full.clone(),
            right_detail: Some(self.right_detail.clone()),
        }
    }
}

/// A role as posted: its name, its rights as comma-separated ids, and its
/// default page.
#[derive(Debug, Clone)]
pub struct RolePost {
    pub name: String,
    pub rights: String,
    pub default: String,
}

/// A role ready to be stored, or the new values of one.
#[derive(Debug, Clone)]
pub struct NewRole {
    pub name: String,
    pub rights: Option<Vec<i32>>,
    pub default: Option<String>,
}

impl RolePost {
    /// A copy field by field.
    pub fn duplicate(&self) -> (r: Self)
        ensures
            r == *self,
    {
        RolePost {
            name: self.name.clone(),
            rights: self.rights.clone(),
            default: self.default.clone(),
        }
    }

    /// The name, then the rights, are required.
    pub fn validate(&self) -> (r: Result<Self, &'static str>)
        ensures
            match r {
                Ok(v) => self.name@.len() > 0 && self.rights@.len() > 0 && v == *self,
                Err(m) => if self.name@.len() == 0 {
                    m@ == "角色名必填"@
                } else {
                    self.rights@.len() == 0 && m@ == "权限不能为空"@
                },
            },
    {
        if self.name.as_str().is_empty() {
            return Err("角色名必填");
        }
        if self.rights.as_str().is_empty() {
            return Err("权限不能为空");
        }
        Ok(self.duplicate())
    }

    /// The role to store for this form; `None` when a right id is not a
    /// number.
    pub fn to_new_role(&self) -> (r: Option<NewRole>)
        ensures
            match crate::ids::id_list_spec(self.rights@) {
                Some(ids) => r is Some && r->0.name == self.name && r->0.rights is Some
                    && r->0.rights->0@ == ids && r->0.default == Some(self.default),
                None => r is None,
            },
    {
        match crate::ids::parse_id_list(self.rights.as_str()) {
            Some(ids) => Some(
                NewRole { name: self.name.clone(), rights: Some(ids), default: Some(self.default.clone()) },
            ),
            None => None,
        }
    }
}

/// Rise and fall counts of the stock market, as posted for one session of the
/// day (`stock_type`: `morning`, `noon` or `evening`).
#[derive(Debug, Clone)]
pub struct RiseFallPost {
    pub stock_type: String,
    pub rise: i32,
    pub fall: i32,
    pub rise_limit: i32,
    pub limit_drop: i32,
}

impl RiseFallPost {
    /// A copy field by field.
    pub fn duplicate(&self) -> (r: Self)
        ensures
            r == *self,
    {
        RiseFallPost {
            stock_type: self.stock_type.clone(),
            rise: self.rise,
            fall: self.fall,
            rise_limit: self.rise_limit,
            limit_drop: self.limit_drop,
        }
    }

    /// The number of rising stocks may not be negative.
    pub fn validate(&self) -> (r: Result<Self, &'static str>)
        ensures
            match r {
                Ok(v) => self.rise >= 0 && v == *self,
                Err(m) => self.rise < 0 && m@ == "导航栏按纽名不能为空"@,
            },
    {
        if self.rise < 0 {
            return Err("导航栏按纽名不能为空");
        }
        Ok(self.duplicate())
    }
}

} // verus!

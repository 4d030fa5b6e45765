//! Court-auction cars: what a scrape request does, and how scraped auctions
//! and their photos become stored records.
use vstd::prelude::*;
use crate::forms::NewReptile;
use crate::text::{push_str, text_eq};

verus! {

/// The Taobao auction page of an auction id.
pub open spec fn taobao_item_url_spec(paimai_id: Seq<char>) -> Seq<char> {
    "https://sf-item.taobao.com/sf_item/"@ + paimai_id + ".htm"@
}

/// The Taobao auction page of an auction id (the id put in the place of `{}`
/// in `https://sf-item.taobao.com/sf_item/{}.htm`).
pub fn taobao_item_url(paimai_id: &str) -> (r: String)
    ensures
        r@ == taobao_item_url_spec(paimai_id@),
{
    let mut r = String::new();
    push_str(&mut r, "https://sf-item.taobao.com/sf_item/");
    push_str(&mut r, paimai_id);
    push_str(&mut r, ".htm");
    r
}

/// What a scrape request leads to.
#[derive(Debug, Clone)]
pub enum ReptilePlan {
    /// A Taobao auction: its page address, and the HTML to read it from.
    Taobao { url: String, html: String },
    /// A JD auction: the external scraper is run with the id and platform.
    Jingdong { paimai_id: String, belong: String },
    /// The form was refused; the reply is this message.
    Refused(&'static str),
}

/// Decides a scrape request.
pub fn plan_reptile(form: &NewReptile) -> (r: ReptilePlan)
    ensures
        form.belong@ != "1"@ && form.belong@ != "2"@ ==> (r matches ReptilePlan::Refused(m) && m@
            == "所属平台（1.淘宝、2.京东）"@),
        form.belong@ == "1"@ && form.html_string@.len() == 0 ==> (r matches ReptilePlan::Refused(m)
            && m@ == "淘宝平台请输入html"@),
        form.belong@ == "1"@ && form.html_string@.len() > 0 ==> (r matches ReptilePlan::Taobao { url, html }
            && url@ == taobao_item_url_spec(form.paimai_id@) && html == form.html_string),
        form.belong@ == "2"@ ==> r == (ReptilePlan::Jingdong {
            paimai_id: form.paimai_id,
            belong: form.belong,
        }),
{
    proof {
        reveal_strlit("1");
        reveal_strlit("2");
        assert("1"@[0] != "2"@[0]);
    }
    match form.validate() {
        Err(m) => ReptilePlan::Refused(m),
        Ok(post) => {
            if text_eq(post.belong.as_str(), "1") {
                ReptilePlan::Taobao { url: taobao_item_url(post.paimai_id.as_str()), html: post.html_string }
            } else {
                ReptilePlan::Jingdong { paimai_id: post.paimai_id, belong: post.belong }
            }
        },
    }
}


/// Integer division as Rust does it: rounded toward zero.
pub open spec fn div_toward_zero(a: int, b: int) -> int {
    if a >= 0 {
        a / b
    } else {
        -((-a) / b)
    }
}

/// The auction times that the scraper reports are milliseconds; they are
/// stored as seconds, moved by eight hours (UTC+8).
pub fn auction_seconds(millis: i64) -> (r: i64)
    ensures
        r == div_toward_zero(millis as int, 1000) + 8 * 3600,
{
    let s: i64 = if millis >= 0 {
        millis / 1000
    } else {
        let m: i128 = 0i128 - (millis as i128);
        let q: i128 = m / 1000;
        (0i128 - q) as i64
    };
    s + 8 * 3600
}

/// A photo as the scraper finds it.
#[derive(Debug, Clone)]
pub struct ScrapedPhoto {
    pub external_small: String,
    pub external_middle: String,
    pub external_original: String,
}

/// A photo of a scraped auction, ready to be stored.
#[derive(Debug, Clone)]
pub struct NewLawsuitReptilePhoto {
    pub lrid: i32,
    pub external_small: Option<String>,
    pub external_middle: Option<String>,
    pub external_original: Option<String>,
    pub front_cover: Option<bool>,
}

/// A stored photo of a scraped auction.
#[derive(Debug, Clone)]
pub struct LawsuitReptilePhoto {
    pub lrpid: i32,
    pub lrid: i32,
    pub external_small: Option<String>,
    pub external_middle: Option<String>,
    pub external_original: Option<String>,
    pub front_cover: Option<bool>,
}

/// A photo of a recommended car, ready to be stored.
#[derive(Debug, Clone)]
pub struct NewLawsuitAutocarPhoto {
    pub laid: i32,
    pub external_small: Option<String>,
    pub external_middle: Option<String>,
    pub external_original: Option<String>,
    pub front_cover: Option<bool>,
}

/// The rows of a scraped auction's photos, in the scraper's order: the first
/// one is the cover, the others are not.
pub fn reptile_photo_rows(lrid: i32, photos: Vec<ScrapedPhoto>) -> (r: Vec<NewLawsuitReptilePhoto>)
    ensures
        r@.len() == photos@.len(),
        forall|k: int|
            0 <= k < photos@.len() ==> #[trigger] r@[k] == (NewLawsuitReptilePhoto {
                lrid: lrid,
                external_small: Some(photos@[k].external_small),
                external_middle: Some(photos@[k].external_middle),
                external_original: Some(photos@[k].external_original),
                front_cover: Some(k == 0),
            }),
{
    let mut rows: Vec<NewLawsuitReptilePhoto> = Vec::new();
    let mut i: usize = 0;
    while i < photos.len()
        invariant
            i <= photos@.len(),
            rows@.len() == i,
            forall|k: int|
                0 <= k < i ==> #[trigger] rows@[k] == (NewLawsuitReptilePhoto {
                    lrid: lrid,
                    external_small: Some(photos@[k].external_small),
                    external_middle: Some(photos@[k].external_middle),
                    external_original: Some(photos@[k].external_original),
                    front_cover: Some(k == 0),
                }),
        decreases photos@.len() - i,
    {
        let photo = &photos[i];
        rows.push(
            NewLawsuitReptilePhoto {
                lrid,
                external_small: Some(photo.external_small.clone()),
                external_middle: Some(photo.external_middle.clone()),
                external_original: Some(photo.external_original.clone()),
                front_cover: Some(i == 0),
            },
        );
        i += 1;
    }
    rows
}

/// The photo rows of a recommended car, copied in order from the photos of
/// the scraped auction it comes from (none when those could not be read).
pub fn autocar_photo_rows(laid: i32, photos: Option<Vec<LawsuitReptilePhoto>>) -> (r: Vec<NewLawsuitAutocarPhoto>)
    ensures
        photos is None ==> r@.len() == 0,
        photos matches Some(ps) ==> r@.len() == ps@.len() && forall|k: int|
            0 <= k < ps@.len() ==> #[trigger] r@[k] == (NewLawsuitAutocarPhoto {
                laid: laid,
                external_small: ps@[k].external_small,
                external_middle: ps@[k].external_middle,
                external_original: ps@[k].external_original,
                front_cover: ps@[k].front_cover,
            }),
{
    let mut rows: Vec<NewLawsuitAutocarPhoto> = Vec::new();
    match photos {
        None => rows,
        Some(ps) => {
            let mut i: usize = 0;
            while i < ps.len()
                invariant
                    i <= ps@.len(),
                    rows@.len() == i,
                    forall|k: int|
                        0 <= k < i ==> #[trigger] rows@[k] == (NewLawsuitAutocarPhoto {
                            laid: laid,
                            external_small: ps@[k].external_small,
                            external_middle: ps@[k].external_middle,
                            external_original: ps@[k].external_original,
                            front_cover: ps@[k].front_cover,
                        }),
                decreases ps@.len() - i,
            {
                let p = &ps[i];
                rows.push(
                    NewLawsuitAutocarPhoto {
                        laid,
                        external_small: p.external_small.clone(),
                        external_middle: p.external_middle.clone(),
                        external_original: p.external_original.clone(),
                        front_cover: p.front_cover,
                    },
                );
                i += 1;
            }
            rows
        },
    }
}

/// The mileage stored for a form: only a positive number of kilometres.
pub fn kilometer_value(kilometer: i32) -> (r: Option<i32>)
    ensures
        r == (if kilometer > 0 { Some(kilometer) } else { None::<i32> }),
{
    if kilometer > 0 {
        Some(kilometer)
    } else {
        None
    }
}

/// The article of a recommended car.
#[derive(Debug, Clone)]
pub struct LawsuitAutocarArticle {
    pub laid: i32,
    pub article_content: Option<String>,
}

/// The article stored with a recommended car: only a non-empty description
/// gives one.
pub fn article_for(laid: i32, description: String) -> (r: Option<LawsuitAutocarArticle>)
    ensures
        description@.len() == 0 ==> r is None,
        description@.len() > 0 ==> r == Some(
            LawsuitAutocarArticle { laid: laid, article_content: Some(description) },
        ),
{
    if description.as_str().is_empty() {
        None
    } else {
        Some(LawsuitAutocarArticle { laid, article_content: Some(description) })
    }
}

} // verus!

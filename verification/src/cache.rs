//! Where the left menus of a role are cached.
use vstd::prelude::*;
use crate::text::{decimal_int, push_decimal_i64, push_str};

verus! {

/// The cache file of a role's menus inside the cache directory `dir`
/// (which ends with its separator).
pub open spec fn menus_cache_file_spec(dir: Seq<char>, role_id: int) -> Seq<char> {
    dir + "menus_"@ + decimal_int(role_id) + ".json"@
}

/// The cache file of a role's menus: `{dir}menus_{role_id}.json`.
pub fn menus_cache_file(dir: &str, role_id: i32) -> (r: String)
    ensures
        r@ == menus_cache_file_spec(dir@, role_id as int),
{
    let mut r = String::new();
    push_str(&mut r, dir);
    push_str(&mut r, "menus_");
    push_decimal_i64(&mut r, role_id as i64);
    push_str(&mut r, ".json");
    r
}

} // verus!

//! Access rights and the check boxes of the role editor.
use vstd::prelude::*;

verus! {

/// An access right: a path of the back office that a role may open.
#[derive(Debug, Clone)]
pub struct Rights {
    pub right_id: i32,
    pub right_name: Option<String>,
    pub path_full: String,
    pub right_detail: Option<String>,
}

/// One check box of the role editor: a right, and whether the role has it.
#[derive(Debug, Clone)]
pub struct CheckboxData {
    pub right_id: i32,
    pub right_name: Option<String>,
    pub path_full: String,
    pub right_detail: Option<String>,
    pub is_checked: bool,
}

/// The check box shown for `right` when the role's ids are `checked`.
pub open spec fn checkbox_for(right: Rights, checked: Option<Seq<Option<i32>>>) -> CheckboxData {
    CheckboxData {
        right_id: right.right_id,
        right_name: right.right_name,
        path_full: right.path_full,
        right_detail: right.right_detail,
        is_checked: checked matches Some(ids) && ids.contains(Some(right.right_id)),
    }
}

/// Whether `seach` is one of the ids present in `arr` (absent entries are
/// skipped).
pub fn is_in_vec(arr: &Vec<Option<i32>>, seach: i32) -> (r: bool)
    ensures
        r == arr@.contains(Some(seach)),
{
    let mut i: usize = 0;
    while i < arr.len()
        invariant
            i <= arr@.len(),
            forall|k: int| 0 <= k < i ==> arr@[k] != Some(seach),
        decreases arr@.len() - i,
    {
        match arr[i] {
            None => {},
            Some(x) => {
                if x == seach {
                    assert(arr@[i as int] == Some(seach));
                    return true;
                }
            },
        }
        i += 1;
    }
    false
}

/// One check box per right, in the same order, checked where the role's
/// rights hold the right's id.
pub fn checkbox_is_checked(all: Vec<Rights>, checked: &Option<Vec<Option<i32>>>) -> (r: Vec<CheckboxData>)
    ensures
        r@.len() == all@.len(),
        forall|k: int|
            0 <= k < all@.len() ==> #[trigger] r@[k] == checkbox_for(
                all@[k],
                match checked {
                    Some(v) => Some(v@),
                    None => None,
                },
            ),
        forall|k: int|
            0 <= k < all@.len() ==> (#[trigger] r@[k]).is_checked == (checked matches Some(v)
                && v@.contains(Some(all@[k].right_id))) && r@[k].right_id == all@[k].right_id,
{
    let ghost ids = match checked {
        Some(v) => Some(v@),
        None => None,
    };
    let mut data: Vec<CheckboxData> = Vec::new();
    let mut i: usize = 0;
    while i < all.len()
        invariant
            i <= all@.len(),
            data@.len() == i,
            ids == match checked {
                Some(v) => Some(v@),
                None => None,
            },
            forall|k: int| 0 <= k < i ==> #[trigger] data@[k] == checkbox_for(all@[k], ids),
        decreases all@.len() - i,
    {
        let rights = &all[i];
        let is_checked = match checked {
            Some(v) => is_in_vec(v, rights.right_id),
            None => false,
        };
        data.push(
            CheckboxData {
                right_id: rights.right_id,
                right_name: rights.right_name.clone(),
                path_full: rights.path_full.clone(),
                right_detail: rights.right_detail.clone(),
                is_checked,
            },
        );
        i += 1;
    }
    data
}

/// A right's box is checked exactly when the role's list holds the right's
/// id at some position (absent entries never match), and the box shows the
/// right's own id; a role with no list has every box unchecked.
pub proof fn lemma_checkbox_checked_iff_held(right: Rights, checked: Option<Seq<Option<i32>>>)
    ensures
        checkbox_for(right, checked).right_id == right.right_id,
        checkbox_for(right, checked).is_checked <==> (checked matches Some(v) && exists|i: int|
            0 <= i < v.len() && v[i] == Some(right.right_id)),
        checked is None ==> !checkbox_for(right, checked).is_checked,
{
    if let Some(v) = checked {
        if checkbox_for(right, checked).is_checked {
            let i = choose|i: int| 0 <= i < v.len() && v[i] == Some(right.right_id);
            assert(v[i] == Some(right.right_id));
        }
    }
}

} // verus!

use gwmc_admin::rights::{checkbox_is_checked, is_in_vec, Rights};

fn right(id: i32) -> Rights {
    Rights {
        right_id: id,
        right_name: Some(format!("r{}", id)),
        path_full: format!("p/{}", id),
        right_detail: None,
    }
}

#[test]
fn finds_present_ids_only() {
    let arr = vec![None, Some(3), Some(5)];
    assert!(is_in_vec(&arr, 5));
    assert!(is_in_vec(&arr, 3));
    assert!(!is_in_vec(&arr, 4));
    assert!(!is_in_vec(&vec![], 1));
}

#[test]
fn check_boxes_follow_role_rights() {
    let all = vec![right(1), right(2), right(3)];
    let boxes = checkbox_is_checked(all, &Some(vec![Some(3), None, Some(1)]));
    assert_eq!(boxes.len(), 3);
    assert_eq!(boxes[0].right_id, 1);
    assert!(boxes[0].is_checked);
    assert!(!boxes[1].is_checked);
    assert!(boxes[2].is_checked);
    assert_eq!(boxes[1].path_full, "p/2");
    assert_eq!(boxes[1].right_name, Some("r2".to_string()));
}

#[test]
fn no_role_rights_means_nothing_checked() {
    let boxes = checkbox_is_checked(vec![right(1), right(2)], &None);
    assert!(boxes.iter().all(|b| !b.is_checked));
}

use talan::combobox;

fn labels() -> Vec<String> {
    vec!["A".to_string(), "B".to_string(), "C".to_string()]
}

#[test]
fn combobox_pick_changes_index() {
    let items = labels();
    let mut pos: i32 = 1;
    let changed = combobox(&mut pos, Some(2), &items);
    assert!(changed);
    assert_eq!(pos, 2);

    let changed_again = combobox(&mut pos, None, &items);
    assert!(!changed_again);
    assert_eq!(pos, 2);
}

#[test]
fn combobox_same_index_is_no_change() {
    let items = labels();
    let mut pos: i32 = 1;
    let changed = combobox(&mut pos, Some(1), &items);
    assert!(!changed);
    assert_eq!(pos, 1);
}

#[test]
fn combobox_out_of_range_pick_is_ignored() {
    let items = labels();
    let mut pos: i32 = 0;
    assert!(!combobox(&mut pos, Some(3), &items));
    assert_eq!(pos, 0);
    assert!(!combobox(&mut pos, Some(-1), &items));
    assert_eq!(pos, 0);
}

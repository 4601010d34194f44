use pipe::widget::list_view;

fn strings(items: &[&str]) -> Vec<String> {
    items.iter().map(|item| item.to_string()).collect()
}

#[test]
fn the_list_widget_holds_each_label_with_its_index() {
    let labels = strings(&["0123456 - 2024-03-02 - Second", "89abcde - 2024-03-01 - First", ""]);
    let list = list_view(&labels);
    assert_eq!(list.len(), 3);
    assert_eq!(list.get_item(0), Some(("0123456 - 2024-03-02 - Second", &0)));
    assert_eq!(list.get_item(1), Some(("89abcde - 2024-03-01 - First", &1)));
    assert_eq!(list.get_item(2), Some(("", &2)));
    assert_eq!(list.get_item(3), None);
}

#[test]
fn the_list_widget_of_no_labels_is_empty() {
    let list = list_view(&Vec::new());
    assert!(list.is_empty());
    assert_eq!(list.len(), 0);
}

#[test]
fn the_list_widget_keeps_the_order_of_equal_labels() {
    let list = list_view(&strings(&["same", "same", "other", "same"]));
    let held: Vec<(String, usize)> =
        list.iter().map(|(label, value)| (label.to_string(), *value)).collect();
    assert_eq!(
        held,
        vec![
            ("same".to_string(), 0),
            ("same".to_string(), 1),
            ("other".to_string(), 2),
            ("same".to_string(), 3),
        ]
    );
}

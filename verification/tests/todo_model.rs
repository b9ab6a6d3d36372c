//! The todo list model with store answers given by hand.

use calendar::models::{TodoItem, TodoModel};

fn item(id: u32, text: &str, completed: bool) -> TodoItem {
    TodoItem { id, text: text.to_string(), completed }
}

#[test]
fn todo_list_follows_the_store() {
    let mut m = TodoModel::new();
    assert!(m.current_items().is_empty());
    assert!(!m.accepts_new_todo(&"a".to_string()));
    let r = m.add_todo("a".to_string(), Some(1));
    assert!(!r.changed && !r.todo_dates_changed);
    assert!(m.current_items().is_empty());

    let r = m.select_date("2026-01-01".to_string(), vec![item(3, "x", false), item(4, "y", true)]);
    assert!(r.changed && !r.todo_dates_changed);
    assert_eq!(m.selected_date, "2026-01-01");
    assert!(m.accepts_new_todo(&"a".to_string()));
    assert!(!m.accepts_new_todo(&String::new()));

    let r = m.add_todo("z".to_string(), Some(5));
    assert!(r.changed && r.todo_dates_changed);
    let r = m.add_todo("w".to_string(), None);
    assert!(!r.changed && !r.todo_dates_changed);
    let texts: Vec<String> = m.current_items().into_iter().map(|t| t.text).collect();
    assert_eq!(texts, vec!["x", "y", "z"]);

    let r = m.toggle_todo(4, true);
    assert!(r.changed);
    assert!(!m.current_items()[1].completed);
    let r = m.toggle_todo(4, false);
    assert!(!r.changed);
    assert!(!m.current_items()[1].completed);

    let r = m.delete_todo(3, true);
    assert!(r.changed && !r.todo_dates_changed);
    let r = m.delete_todo(4, false);
    assert!(!r.changed);
    assert_eq!(m.current_items().len(), 2);
    m.delete_todo(4, true);
    let r = m.delete_todo(5, true);
    assert!(r.changed && r.todo_dates_changed);
    assert!(m.current_items().is_empty());
    let r = m.delete_todo(5, true);
    assert!(r.changed && !r.todo_dates_changed);
}

#[test]
fn toggle_flips_only_the_first_match() {
    let mut m = TodoModel::new();
    m.select_date("d".to_string(), vec![item(1, "a", false), item(1, "b", false)]);
    m.toggle_todo(1, true);
    let items = m.current_items();
    assert!(items[0].completed);
    assert!(!items[1].completed);
    m.toggle_todo(1, true);
    assert!(!m.current_items()[0].completed);
    m.toggle_todo(9, true);
    assert_eq!(m.current_items().len(), 2);
    m.delete_todo(1, true);
    assert!(m.current_items().is_empty());
}

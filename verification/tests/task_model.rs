//! The task list tests, run against a SQLite store with the application's
//! schema and queries; the store answers are handed to the model.

use std::collections::HashSet;

use calendar::models::task_model::UpdateResult;
use calendar::models::{TaskItem, TaskModel};
use rusqlite::Connection;

struct Session {
    conn: Connection,
    model: TaskModel,
}

impl Session {
    fn new() -> Self {
        let conn = Connection::open_in_memory().unwrap();
        conn.execute_batch(
            "CREATE TABLE IF NOT EXISTS tasks (
                id INTEGER PRIMARY KEY,
                date TEXT NOT NULL,
                text TEXT NOT NULL,
                completed BOOLEAN NOT NULL DEFAULT 0
            );",
        )
        .unwrap();
        Session { conn, model: TaskModel::new() }
    }

    fn load_by_date(&self, date: &str) -> Vec<TaskItem> {
        let mut stmt = self
            .conn
            .prepare("SELECT id, text, completed FROM tasks WHERE date = ?1 ORDER BY id")
            .unwrap();
        stmt.query_map((date,), |row| {
            Ok(TaskItem { id: row.get(0)?, text: row.get(1)?, completed: row.get(2)? })
        })
        .unwrap()
        .filter_map(|r| r.ok())
        .collect()
    }

    fn select_date(&mut self, date: String) -> UpdateResult {
        let loaded = self.load_by_date(&date);
        self.model.select_date(date, loaded)
    }

    fn add_task(&mut self, text: String) -> UpdateResult {
        let id = if self.model.accepts_new_task(&text) {
            self.conn
                .execute(
                    "INSERT INTO tasks (date, text, completed) VALUES (?1, ?2, 0)",
                    (&self.model.selected_date, &text),
                )
                .ok()
                .map(|_| self.conn.last_insert_rowid() as u32)
        } else {
            None
        };
        self.model.add_task(text, id)
    }

    fn toggle_task(&mut self, id: u32) -> UpdateResult {
        let rows = self
            .conn
            .execute("UPDATE tasks SET completed = NOT completed WHERE id = ?1", (id,))
            .unwrap_or(0);
        self.model.toggle_task(id, rows > 0)
    }

    fn delete_task(&mut self, id: u32) -> UpdateResult {
        let rows = self.conn.execute("DELETE FROM tasks WHERE id = ?1", (id,)).unwrap_or(0);
        self.model.delete_task(id, rows > 0)
    }

    fn task_date_set(&self) -> HashSet<String> {
        let mut stmt = self.conn.prepare("SELECT DISTINCT date FROM tasks").unwrap();
        stmt.query_map([], |row| row.get::<_, String>(0)).unwrap().filter_map(|r| r.ok()).collect()
    }

    fn current_items(&self) -> Vec<TaskItem> {
        self.model.current_items()
    }
}

fn new_test_model() -> Session {
    Session::new()
}

#[test]
fn test_add_task() {
    let mut model = new_test_model();
    model.select_date("2026-01-01".into());

    let result = model.add_task("买菜".into());
    assert!(result.changed);
    assert!(result.task_dates_changed);
    assert_eq!(model.current_items().len(), 1);
    assert_eq!(model.current_items()[0].text, "买菜");
}

#[test]
fn test_add_task_without_date() {
    let mut model = new_test_model();
    let result = model.add_task("买菜".into());
    assert!(!result.changed);
    assert!(!result.task_dates_changed);
}

#[test]
fn test_add_empty_text() {
    let mut model = new_test_model();
    model.select_date("2026-01-01".into());

    let result = model.add_task("".into());
    assert!(!result.changed);
}

#[test]
fn task_model_test_toggle_task() {
    let mut model = new_test_model();
    model.select_date("2026-01-01".into());
    model.add_task("任务".into());

    let id = model.current_items()[0].id;
    let result = model.toggle_task(id);
    assert!(result.changed);
    assert!(model.current_items()[0].completed);

    model.toggle_task(id);
    assert!(!model.current_items()[0].completed);
}

#[test]
fn task_model_test_toggle_nonexistent_task() {
    let mut model = new_test_model();
    let result = model.toggle_task(999);
    assert!(!result.changed);
}

#[test]
fn task_model_test_delete_task() {
    let mut model = new_test_model();
    model.select_date("2026-01-01".into());
    model.add_task("任务".into());

    let id = model.current_items()[0].id;
    let result = model.delete_task(id);
    assert!(result.changed);
    assert!(result.task_dates_changed);
    assert!(model.current_items().is_empty());
}

#[test]
fn task_model_test_delete_nonexistent_task() {
    let mut model = new_test_model();
    let result = model.delete_task(999);
    assert!(!result.changed);
}

#[test]
fn test_select_date_loads_items() {
    let mut model = new_test_model();
    model.select_date("2026-01-01".into());
    model.add_task("任务A".into());

    model.select_date("2026-02-15".into());
    assert!(model.current_items().is_empty());
    assert_eq!(model.model.selected_date, "2026-02-15");

    model.select_date("2026-01-01".into());
    assert_eq!(model.current_items().len(), 1);
}

#[test]
fn test_task_date_set() {
    let mut model = new_test_model();
    model.select_date("2026-01-01".into());
    model.add_task("A".into());
    model.select_date("2026-02-15".into());
    model.add_task("B".into());

    let dates = model.task_date_set();
    assert_eq!(dates.len(), 2);
    assert!(dates.contains("2026-01-01"));
    assert!(dates.contains("2026-02-15"));
}

#[test]
fn test_delete_last_task_clears_date() {
    let mut model = new_test_model();
    model.select_date("2026-01-01".into());
    model.add_task("唯一任务".into());

    let id = model.current_items()[0].id;
    let result = model.delete_task(id);
    assert!(result.task_dates_changed);
    assert!(model.task_date_set().is_empty());
}

#[test]
fn test_delete_one_of_many_keeps_remaining() {
    let mut model = new_test_model();
    model.select_date("2026-01-01".into());
    model.add_task("任务A".into());
    model.add_task("任务B".into());
    model.add_task("任务C".into());

    let id_b = model.current_items()[1].id;
    let result = model.delete_task(id_b);

    assert!(result.changed);
    assert!(result.task_dates_changed);
    assert_eq!(model.current_items().len(), 2);
    assert_eq!(model.current_items()[0].text, "任务A");
    assert_eq!(model.current_items()[1].text, "任务C");
    assert!(model.task_date_set().contains("2026-01-01"));
}

#[test]
fn test_toggle_task_from_other_date() {
    let mut model = new_test_model();
    model.select_date("2026-01-01".into());
    model.add_task("A".into());
    model.select_date("2026-02-15".into());
    model.add_task("B".into());

    let id_a = 1;
    let result = model.toggle_task(id_a);

    assert!(result.changed);
    assert_eq!(model.current_items().len(), 1);
    assert!(!model.current_items()[0].completed);
    model.select_date("2026-01-01".into());
    assert!(model.current_items()[0].completed);
}

//! The task list of the selected date.
//!
//! The tasks themselves live in a database that the application queries;
//! this model keeps the selected date and the cached list of its tasks, and
//! takes what the database answered as arguments: the rows loaded for a
//! date, the id of an inserted row, whether an update or a delete touched a
//! row.

use vstd::prelude::*;

use super::list::{
    flipped, has_id, is_first_with_id, keeps, lemma_first_with_id, toggled, without_id, Entry,
};

verus! {

/// One task.
#[derive(Clone, Debug)]
pub struct TaskItem {
    pub id: u32,
    pub text: String,
    pub completed: bool,
}

impl View for TaskItem {
    type V = Entry;

    open spec fn view(&self) -> Entry {
        (self.id, self.text@, self.completed)
    }
}

/// The entries of a list of tasks.
pub open spec fn task_entries(items: Seq<TaskItem>) -> Seq<Entry> {
    items.map_values(|t: TaskItem| t@)
}

/// What an operation changed.
pub struct UpdateResult {
    /// The list changed (the interface must redraw it).
    pub changed: bool,
    /// The set of dates that have tasks may have changed (the calendar must
    /// redraw its markers).
    pub task_dates_changed: bool,
}

/// Task list state: the selected date and its tasks in id order.
pub struct TaskModel {
    current_items: Vec<TaskItem>,
    /// The selected date ("YYYY-MM-DD"), empty before any selection.
    pub selected_date: String,
}

/// A task can be stored: neither its date nor its text is empty.
pub fn can_insert(date: &str, text: &str) -> (r: bool)
    ensures
        r == (date@.len() > 0 && text@.len() > 0),
{
    !text.is_empty() && !date.is_empty()
}

fn copy_item(item: &TaskItem) -> (r: TaskItem)
    ensures
        r@ == item@,
{
    TaskItem { id: item.id, text: item.text.clone(), completed: item.completed }
}

impl TaskModel {
    /// The cached tasks of the selected date.
    pub closed spec fn items(&self) -> Seq<Entry> {
        task_entries(self.current_items@)
    }

    /// The selected date.
    pub closed spec fn date(&self) -> Seq<char> {
        self.selected_date@
    }

    /// No date selected and no tasks.
    pub fn new() -> (r: Self)
        ensures
            r.items() == Seq::<Entry>::empty(),
            r.date() == Seq::<char>::empty(),
    {
        TaskModel { current_items: Vec::new(), selected_date: String::new() }
    }

    /// A copy of the cached tasks of the selected date.
    pub fn current_items(&self) -> (r: Vec<TaskItem>)
        ensures
            task_entries(r@) == self.items(),
    {
        let mut r: Vec<TaskItem> = Vec::new();
        for i in 0..self.current_items.len()
            invariant
                r@.len() == i,
                i <= self.current_items@.len(),
                forall|j: int| 0 <= j < i ==> #[trigger] r@[j]@ == self.current_items@[j]@,
        {
            r.push(copy_item(&self.current_items[i]));
        }
        assert(task_entries(r@) =~= self.items());
        r
    }

    /// Selects `date`, whose tasks the database returned as `loaded`.
    pub fn select_date(&mut self, date: String, loaded: Vec<TaskItem>) -> (r: UpdateResult)
        ensures
            final(self).date() == date@,
            final(self).items() == task_entries(loaded@),
            r.changed,
            !r.task_dates_changed,
    {
        self.selected_date = date;
        self.current_items = loaded;
        UpdateResult { changed: true, task_dates_changed: false }
    }

    /// Whether adding `text` goes to the database: the text is not empty and
    /// a date is selected.
    pub fn accepts_new_task(&self, text: &String) -> (r: bool)
        ensures
            r == (text@.len() > 0 && self.date().len() > 0),
    {
        !text.as_str().is_empty() && !self.selected_date.as_str().is_empty()
    }

    /// Adds `text` as a task of the selected date, given the id under which
    /// the database stored it (`None` if it was not stored). An empty text,
    /// no selected date or a failed insert change nothing.
    pub fn add_task(&mut self, text: String, inserted_id: Option<u32>) -> (r: UpdateResult)
        ensures
            final(self).date() == old(self).date(),
            (text@.len() > 0 && old(self).date().len() > 0 && inserted_id is Some) ==> {
                &&& final(self).items() == old(self).items().push(
                    (inserted_id->0, text@, false),
                )
                &&& r.changed
                &&& r.task_dates_changed
            },
            !(text@.len() > 0 && old(self).date().len() > 0 && inserted_id is Some) ==> {
                &&& final(self).items() == old(self).items()
                &&& !r.changed
                &&& !r.task_dates_changed
            },
    {
        if text.as_str().is_empty() || self.selected_date.as_str().is_empty() {
            return UpdateResult { changed: false, task_dates_changed: false };
        }
        match inserted_id {
            Some(id) => {
                self.current_items.push(TaskItem { id, text, completed: false });
                assert(self.items() =~= old(self).items().push((id, text@, false)));
                UpdateResult { changed: true, task_dates_changed: true }
            },
            None => UpdateResult { changed: false, task_dates_changed: false },
        }
    }

    /// Records that the database flipped the completion of task `id`
    /// (`toggled_in_store` is whether it found the task): the first cached task with
    /// that id is flipped too.
    pub fn toggle_task(&mut self, id: u32, toggled_in_store: bool) -> (r: UpdateResult)
        ensures
            final(self).date() == old(self).date(),
            toggled_in_store ==> final(self).items() == toggled(old(self).items(), id),
            !toggled_in_store ==> final(self).items() == old(self).items(),
            r.changed == toggled_in_store,
            !r.task_dates_changed,
    {
        if !toggled_in_store {
            return UpdateResult { changed: false, task_dates_changed: false };
        }
        let mut i: usize = 0;
        while i < self.current_items.len()
            invariant
                toggled_in_store,
                i <= self.current_items@.len(),
                self.current_items@ == old(self).current_items@,
                self.selected_date == old(self).selected_date,
                forall|j: int| 0 <= j < i ==> #[trigger] self.items()[j].0 != id,
            decreases self.current_items@.len() - i,
        {
            if self.current_items[i].id == id {
                let item = copy_item(&self.current_items[i]);
                let ghost before = self.items();
                proof {
                    assert(is_first_with_id(before, id, i as int));
                    lemma_first_with_id(before, id, i as int);
                }
                self.current_items.set(
                    i,
                    TaskItem { id: item.id, text: item.text, completed: !item.completed },
                );
                assert(self.items() =~= before.update(i as int, flipped(before[i as int])));
                return UpdateResult { changed: true, task_dates_changed: false };
            }
            i = i + 1;
        }
        assert(!has_id(self.items(), id)) by {
            if has_id(self.items(), id) {
                let k = choose|k: int| 0 <= k < self.items().len() && #[trigger] self.items()[k].0 == id;
                assert(self.items()[k].0 != id);
            }
        }
        UpdateResult { changed: true, task_dates_changed: false }
    }

    /// Records that the database deleted task `id` (`deleted_in_store` is
    /// whether it found the task): every cached task with that id goes,
    /// the others keep their order.
    pub fn delete_task(&mut self, id: u32, deleted_in_store: bool) -> (r: UpdateResult)
        ensures
            final(self).date() == old(self).date(),
            deleted_in_store ==> final(self).items() == without_id(old(self).items(), id),
            !deleted_in_store ==> final(self).items() == old(self).items(),
            r.changed == deleted_in_store,
            r.task_dates_changed == deleted_in_store,
    {
        if !deleted_in_store {
            return UpdateResult { changed: false, task_dates_changed: false };
        }
        let mut kept: Vec<TaskItem> = Vec::new();
        for i in 0..self.current_items.len()
            invariant
                i <= self.current_items@.len(),
                task_entries(kept@) == self.items().take(i as int).filter(keeps(id)),
        {
            let ghost prefix = self.items().take(i as int);
            assert(self.items().take(i as int + 1).drop_last() =~= prefix);
            assert(self.items().take(i as int + 1).last() == self.current_items@[i as int]@);
            reveal_with_fuel(Seq::filter, 1);
            if self.current_items[i].id != id {
                let ghost before = kept@;
                kept.push(copy_item(&self.current_items[i]));
                assert(task_entries(kept@) =~= task_entries(before).push(self.current_items@[i as int]@));
            }
        }
        assert(self.items().take(self.current_items@.len() as int) =~= self.items());
        self.current_items = kept;
        UpdateResult { changed: true, task_dates_changed: true }
    }
}

} // verus!

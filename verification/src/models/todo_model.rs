//! The todo list of the selected date.
//!
//! The todos themselves live in a database that the application queries;
//! this model keeps the selected date and the cached list of its todos, and
//! takes what the database answered as arguments: the rows loaded for a
//! date, the id of an inserted row, whether an update or a delete touched a
//! row.

use vstd::prelude::*;

use super::list::{
    flipped, has_id, is_first_with_id, keeps, lemma_first_with_id, toggled, without_id, Entry,
};

verus! {

/// One todo.
#[derive(Clone, Debug)]
pub struct TodoItem {
    pub id: u32,
    pub text: String,
    pub completed: bool,
}

impl View for TodoItem {
    type V = Entry;

    open spec fn view(&self) -> Entry {
        (self.id, self.text@, self.completed)
    }
}

/// The entries of a list of todos.
pub open spec fn todo_entries(items: Seq<TodoItem>) -> Seq<Entry> {
    items.map_values(|t: TodoItem| t@)
}

/// What an operation changed.
pub struct UpdateResult {
    /// The list changed (the interface must redraw it).
    pub changed: bool,
    /// The set of dates that have todos may have changed (the calendar must
    /// redraw its markers).
    pub todo_dates_changed: bool,
}

/// Todo list state: the selected date and its todos in id order.
pub struct TodoModel {
    current_items: Vec<TodoItem>,
    /// The selected date ("YYYY-MM-DD"), empty before any selection.
    pub selected_date: String,
}

fn copy_item(item: &TodoItem) -> (r: TodoItem)
    ensures
        r@ == item@,
{
    TodoItem { id: item.id, text: item.text.clone(), completed: item.completed }
}

impl TodoModel {
    /// The cached todos of the selected date.
    pub closed spec fn items(&self) -> Seq<Entry> {
        todo_entries(self.current_items@)
    }

    /// The selected date.
    pub closed spec fn date(&self) -> Seq<char> {
        self.selected_date@
    }

    /// No date selected and no todos.
    pub fn new() -> (r: Self)
        ensures
            r.items() == Seq::<Entry>::empty(),
            r.date() == Seq::<char>::empty(),
    {
        TodoModel { current_items: Vec::new(), selected_date: String::new() }
    }

    /// A copy of the cached todos of the selected date.
    pub fn current_items(&self) -> (r: Vec<TodoItem>)
        ensures
            todo_entries(r@) == self.items(),
    {
        let mut r: Vec<TodoItem> = Vec::new();
        for i in 0..self.current_items.len()
            invariant
                r@.len() == i,
                i <= self.current_items@.len(),
                forall|j: int| 0 <= j < i ==> #[trigger] r@[j]@ == self.current_items@[j]@,
        {
            r.push(copy_item(&self.current_items[i]));
        }
        assert(todo_entries(r@) =~= self.items());
        r
    }

    /// Selects `date`, whose todos the database returned as `loaded`.
    pub fn select_date(&mut self, date: String, loaded: Vec<TodoItem>) -> (r: UpdateResult)
        ensures
            final(self).date() == date@,
            final(self).items() == todo_entries(loaded@),
            r.changed,
            !r.todo_dates_changed,
    {
        self.selected_date = date;
        self.current_items = loaded;
        UpdateResult { changed: true, todo_dates_changed: false }
    }

    /// Whether adding `text` goes to the database: the text is not empty and
    /// a date is selected.
    pub fn accepts_new_todo(&self, text: &String) -> (r: bool)
        ensures
            r == (text@.len() > 0 && self.date().len() > 0),
    {
        !text.as_str().is_empty() && !self.selected_date.as_str().is_empty()
    }

    /// Adds `text` as a todo of the selected date, given the id under which
    /// the database stored it (`None` if it was not stored). An empty text,
    /// no selected date or a failed insert change nothing.
    pub fn add_todo(&mut self, text: String, inserted_id: Option<u32>) -> (r: UpdateResult)
        ensures
            final(self).date() == old(self).date(),
            (text@.len() > 0 && old(self).date().len() > 0 && inserted_id is Some) ==> {
                &&& final(self).items() == old(self).items().push(
                    (inserted_id->0, text@, false),
                )
                &&& r.changed
                &&& r.todo_dates_changed
            },
            !(text@.len() > 0 && old(self).date().len() > 0 && inserted_id is Some) ==> {
                &&& final(self).items() == old(self).items()
                &&& !r.changed
                &&& !r.todo_dates_changed
            },
    {
        if text.as_str().is_empty() || self.selected_date.as_str().is_empty() {
            return UpdateResult { changed: false, todo_dates_changed: false };
        }
        match inserted_id {
            Some(id) => {
                self.current_items.push(TodoItem { id, text, completed: false });
                assert(self.items() =~= old(self).items().push((id, text@, false)));
                UpdateResult { changed: true, todo_dates_changed: true }
            },
            None => UpdateResult { changed: false, todo_dates_changed: false },
        }
    }

    /// Records that the database flipped the completion of todo `id`
    /// (`toggled_in_store` is whether it found the todo): the first cached todo with
    /// that id is flipped too.
    pub fn toggle_todo(&mut self, id: u32, toggled_in_store: bool) -> (r: UpdateResult)
        ensures
            final(self).date() == old(self).date(),
            toggled_in_store ==> final(self).items() == toggled(old(self).items(), id),
            !toggled_in_store ==> final(self).items() == old(self).items(),
            r.changed == toggled_in_store,
            !r.todo_dates_changed,
    {
        if !toggled_in_store {
            return UpdateResult { changed: false, todo_dates_changed: false };
        }
        let mut i: usize = 0;
        while i < self.current_items.len()
            invariant
                toggled_in_store,
                i <= self.current_items@.len(),
                self.current_items@ == old(self).current_items@,
                self.selected_date == old(self).selected_date,
                forall|j: int| 0 <= j < i ==> #[trigger] self.items()[j].0 != id,
            decreases self.current_items@.len() - i,
        {
            if self.current_items[i].id == id {
                let item = copy_item(&self.current_items[i]);
                let ghost before = self.items();
                proof {
                    assert(is_first_with_id(before, id, i as int));
                    lemma_first_with_id(before, id, i as int);
                }
                self.current_items.set(
                    i,
                    TodoItem { id: item.id, text: item.text, completed: !item.completed },
                );
                assert(self.items() =~= before.update(i as int, flipped(before[i as int])));
                return UpdateResult { changed: true, todo_dates_changed: false };
            }
            i = i + 1;
        }
        assert(!has_id(self.items(), id)) by {
            if has_id(self.items(), id) {
                let k = choose|k: int| 0 <= k < self.items().len() && #[trigger] self.items()[k].0 == id;
                assert(self.items()[k].0 != id);
            }
        }
        UpdateResult { changed: true, todo_dates_changed: false }
    }

    /// Records that the database deleted todo `id` (`deleted_in_store` is
    /// whether it found the todo): every cached todo with that id goes,
    /// the others keep their order. The dates with todos may have changed
    /// when the list of the selected date became empty.
    pub fn delete_todo(&mut self, id: u32, deleted_in_store: bool) -> (r: UpdateResult)
        ensures
            final(self).date() == old(self).date(),
            deleted_in_store ==> final(self).items() == without_id(old(self).items(), id),
            !deleted_in_store ==> final(self).items() == old(self).items(),
            r.changed == deleted_in_store,
            r.todo_dates_changed == (deleted_in_store && old(self).items().len() > 0
                && final(self).items().len() == 0),
    {
        if !deleted_in_store {
            return UpdateResult { changed: false, todo_dates_changed: false };
        }
        let mut kept: Vec<TodoItem> = Vec::new();
        for i in 0..self.current_items.len()
            invariant
                i <= self.current_items@.len(),
                todo_entries(kept@) == self.items().take(i as int).filter(keeps(id)),
        {
            let ghost prefix = self.items().take(i as int);
            assert(self.items().take(i as int + 1).drop_last() =~= prefix);
            assert(self.items().take(i as int + 1).last() == self.current_items@[i as int]@);
            reveal_with_fuel(Seq::filter, 1);
            if self.current_items[i].id != id {
                let ghost before = kept@;
                kept.push(copy_item(&self.current_items[i]));
                assert(todo_entries(kept@) =~= todo_entries(before).push(self.current_items@[i as int]@));
            }
        }
        assert(self.items().take(self.current_items@.len() as int) =~= self.items());
        let before = self.current_items.len();
        self.current_items = kept;
        let todo_dates_changed = self.current_items.len() == 0 && before > 0;
        UpdateResult { changed: true, todo_dates_changed }
    }
}

} // verus!

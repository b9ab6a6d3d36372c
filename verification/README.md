# calendar

The logic of a Fluent-style desktop calendar with a per-day task list,
as a library verified with Verus, plus the desktop shell around it.

- `src/` — the verified library:
  - `solar` — calendar facts from `tyme4rs` (month lengths, month
    arithmetic, day of the week), behind specified wrappers;
  - `model` — the 42-cell month grid and the weekday titles;
  - `navigation`, `state`, `calendar`, `view_model`, `viewmodel`,
    `models::calendar_model` — the calendar states and how they move;
  - `models::task_model`, `models::todo_model`, `models::list` — the
    per-day lists, driven by the answers of the store;
  - `date_key` — the "YYYY-MM-DD" keys of dates;
  - `settings` — user settings and their clamping;
  - `app_logic::calendar` — what the calendar widget draws.
- `app/` — the Slint window, the SQLite store and the start-up code.
- `tests/` — tests of the library, the task list ones against SQLite.

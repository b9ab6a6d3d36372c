//! Applying a message to the calendar model.

use vstd::prelude::*;

use super::message::CalendarMessage;
use super::model::CalendarModel;
use crate::navigation::{
    can_shift_display, clicked, clicked_date, lemma_shift_compose, shift_display, shifted_display,
};

verus! {

/// A message can be applied: month moves stay within the years 1 to 9999.
pub open spec fn can_update(model: &CalendarModel, message: &CalendarMessage) -> bool {
    match message {
        CalendarMessage::PrevMonth => can_shift_display(model.display, -1),
        CalendarMessage::NextMonth => can_shift_display(model.display, 1),
        _ => true,
    }
}

/// The model after applying a message.
pub open spec fn updated(model: CalendarModel, message: CalendarMessage) -> CalendarModel {
    match message {
        CalendarMessage::PrevMonth => CalendarModel {
            display: shifted_display(model.display, -1),
            ..model
        },
        CalendarMessage::NextMonth => CalendarModel {
            display: shifted_display(model.display, 1),
            ..model
        },
        CalendarMessage::GoToday => CalendarModel {
            display: (model.today.0, model.today.1),
            selected: model.today,
            ..model
        },
        CalendarMessage::SelectDay { year, month, day } => CalendarModel {
            selected: clicked_date(year, month, day),
            ..model
        },
        CalendarMessage::WeekStartChanged(day) => CalendarModel { week_start_day: day, ..model },
        CalendarMessage::ApplySettings(settings) => CalendarModel {
            week_start_day: settings.week_start_day as usize,
            ..model
        },
    }
}

/// Applies one message: month navigation, jumping to today, selecting a
/// date (month and day below 1 become 1), changing the first day of the
/// week, or taking the first day of the week from the settings.
pub fn update(model: &mut CalendarModel, message: CalendarMessage)
    requires
        can_update(old(model), &message),
    ensures
        *final(model) == updated(*old(model), message),
        message matches CalendarMessage::PrevMonth ==> final(model).display == shifted_display(
            old(model).display,
            -1,
        ),
        message matches CalendarMessage::NextMonth ==> final(model).display == shifted_display(
            old(model).display,
            1,
        ),
        message matches CalendarMessage::GoToday ==> {
            &&& final(model).display == (old(model).today.0, old(model).today.1)
            &&& final(model).selected == old(model).today
        },
        message matches CalendarMessage::SelectDay { year, month, day } ==> {
            &&& final(model).selected.0 == year
            &&& month >= 1 ==> final(model).selected.1 == month
            &&& month < 1 ==> final(model).selected.1 == 1
            &&& day >= 1 ==> final(model).selected.2 == day
            &&& day < 1 ==> final(model).selected.2 == 1
        },
        message matches CalendarMessage::WeekStartChanged(day) ==> final(model).week_start_day
            == day,
        message matches CalendarMessage::ApplySettings(settings) ==> final(model).week_start_day
            == settings.week_start_day as usize,
        final(model).today == old(model).today,
        !(message is PrevMonth || message is NextMonth || message is GoToday)
            ==> final(model).display == old(model).display,
        !(message is GoToday || message is SelectDay) ==> final(model).selected == old(
            model,
        ).selected,
        !(message is WeekStartChanged || message is ApplySettings) ==> final(model).week_start_day
            == old(model).week_start_day,
{
    match message {
        CalendarMessage::PrevMonth => {
            shift_month(model, -1);
        },
        CalendarMessage::NextMonth => {
            shift_month(model, 1);
        },
        CalendarMessage::GoToday => {
            model.display = (model.today.0, model.today.1);
            model.selected = model.today;
        },
        CalendarMessage::SelectDay { year, month, day } => {
            model.selected = clicked(year, month, day);
        },
        CalendarMessage::WeekStartChanged(day) => {
            model.week_start_day = day;
        },
        CalendarMessage::ApplySettings(settings) => {
            model.week_start_day = settings.week_start_day as usize;
        },
    }
}

fn shift_month(model: &mut CalendarModel, offset: isize)
    requires
        can_shift_display(old(model).display, offset as int),
    ensures
        *final(model) == (CalendarModel {
            display: shifted_display(old(model).display, offset as int),
            ..*old(model)
        }),
{
    model.display = shift_display(model.display, offset);
}

/// What each message does to the model, field by field: month moves change
/// only the displayed month, by one month back or forward; going to today
/// shows today's month and selects today; selecting a day selects the clicked
/// date, with 1 in place of a month or day below 1; a change of the first day
/// of the week, or new settings, set the first day of the week to the given
/// day and change nothing else. No message changes today's date.
pub proof fn lemma_update_fields(model: CalendarModel, message: CalendarMessage)
    ensures
        updated(model, message).today == model.today,
        message matches CalendarMessage::PrevMonth ==> updated(model, message).display
            == shifted_display(model.display, -1),
        message matches CalendarMessage::NextMonth ==> updated(model, message).display
            == shifted_display(model.display, 1),
        message matches CalendarMessage::GoToday ==> {
            &&& updated(model, message).display == (model.today.0, model.today.1)
            &&& updated(model, message).selected == model.today
        },
        message matches CalendarMessage::SelectDay { year, month, day } ==> {
            &&& updated(model, message).selected.0 == year
            &&& month >= 1 && day >= 1 ==> updated(model, message).selected == (year, month, day)
            &&& month < 1 ==> updated(model, message).selected.1 == 1
            &&& day < 1 ==> updated(model, message).selected.2 == 1
        },
        message matches CalendarMessage::WeekStartChanged(day) ==> updated(
            model,
            message,
        ).week_start_day == day,
        message matches CalendarMessage::ApplySettings(settings) ==> updated(
            model,
            message,
        ).week_start_day == settings.week_start_day as usize,
        !(message is PrevMonth || message is NextMonth || message is GoToday) ==> updated(
            model,
            message,
        ).display == model.display,
        !(message is GoToday || message is SelectDay) ==> updated(model, message).selected
            == model.selected,
        !(message is WeekStartChanged || message is ApplySettings) ==> updated(
            model,
            message,
        ).week_start_day == model.week_start_day,
{
}

/// A next-month message undoes a previous-month message, and the other way round.
pub proof fn lemma_update_prev_next(model: CalendarModel)
    ensures
        can_update(&model, &CalendarMessage::PrevMonth) ==> {
            &&& can_update(&updated(model, CalendarMessage::PrevMonth), &CalendarMessage::NextMonth)
            &&& updated(updated(model, CalendarMessage::PrevMonth), CalendarMessage::NextMonth)
                == model
        },
        can_update(&model, &CalendarMessage::NextMonth) ==> {
            &&& can_update(&updated(model, CalendarMessage::NextMonth), &CalendarMessage::PrevMonth)
            &&& updated(updated(model, CalendarMessage::NextMonth), CalendarMessage::PrevMonth)
                == model
        },
{
    if can_update(&model, &CalendarMessage::PrevMonth) {
        lemma_shift_compose(model.display, -1, 1);
    }
    if can_update(&model, &CalendarMessage::NextMonth) {
        lemma_shift_compose(model.display, 1, -1);
    }
}

} // verus!

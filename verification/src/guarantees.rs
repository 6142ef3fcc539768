//! What holds of every picker, proved over the model that the contracts of
//! [`crate::date_picker::DatePicker`] are stated in.

use vstd::prelude::*;

use crate::calendar::{Calendar, CalendarEvent, Matcher};
use crate::date::{CalendarDate, Date};
use crate::date_picker::{
    emitted, escape_effects, restores_focus, update_effects, DatePickerEvent,
    DateRangePresetValue, Effect, FocusState, PickerModel,
};
use crate::element::{ElementIdModel, Size};

verus! {

/// The events sent by a list of effects that ends in `effect` are those of
/// the list before it, followed by the event of `effect` where it sends one.
pub proof fn emitted_push(effects: Seq<Effect>, effect: Effect)
    ensures
        emitted(effects.push(effect)) == match effect {
            Effect::Emit(event) => emitted(effects).push(event),
            _ => emitted(effects),
        },
{
    assert(effects.push(effect).drop_last() =~= effects);
}

/// The events sent by two lists of effects, one after the other, are the
/// events of the first followed by the events of the second.
pub proof fn emitted_concat(first: Seq<Effect>, second: Seq<Effect>)
    ensures
        emitted(first + second) == emitted(first) + emitted(second),
    decreases second.len(),
{
    if second.len() == 0 {
        assert(first + second =~= first);
        assert(emitted(first) + emitted(second) =~= emitted(first));
    } else {
        let init = second.drop_last();
        emitted_concat(first, init);
        emitted_push(first + init, second.last());
        emitted_push(init, second.last());
        assert(second =~= init.push(second.last()));
        assert(first + second =~= (first + init).push(second.last()));
        match second.last() {
            Effect::Emit(event) => {
                assert((emitted(first) + emitted(init)).push(event) =~= emitted(first) + emitted(
                    init,
                ).push(event));
            },
            _ => {},
        }
    }
}

/// A change of the value sends exactly one event, the change to the new
/// value, where it is asked to tell the subscribers, and none where it is not.
pub proof fn update_emits(date: Date, emit: bool)
    ensures
        emitted(update_effects(date, emit)) == if emit {
            seq![DatePickerEvent::Change(date)]
        } else {
            Seq::<DatePickerEvent>::empty()
        },
{
    let none = Seq::<Effect>::empty();
    let first = none.push(Effect::SetCalendarDate(date));
    emitted_push(none, Effect::SetCalendarDate(date));
    assert(emitted(first) =~= Seq::<DatePickerEvent>::empty());
    if emit {
        let second = first.push(Effect::Emit(DatePickerEvent::Change(date)));
        emitted_push(first, Effect::Emit(DatePickerEvent::Change(date)));
        emitted_push(second, Effect::Notify);
        assert(update_effects(date, emit) =~= second.push(Effect::Notify));
        assert(emitted(second) =~= seq![DatePickerEvent::Change(date)]);
    } else {
        emitted_push(first, Effect::Notify);
        assert(update_effects(date, emit) =~= first.push(Effect::Notify));
    }
}

/// The picker after the program has set its value to each of `dates` in turn.
pub open spec fn after_set_dates(picker: PickerModel, dates: Seq<Date>) -> PickerModel
    decreases dates.len(),
{
    if dates.len() == 0 {
        picker
    } else {
        after_set_dates(picker, dates.drop_last()).with_date(dates.last())
    }
}

/// All that the host is told while the program sets the value to each of
/// `dates` in turn.
pub open spec fn set_dates_effects(dates: Seq<Date>) -> Seq<Effect>
    decreases dates.len(),
{
    if dates.len() == 0 {
        Seq::empty()
    } else {
        set_dates_effects(dates.drop_last()) + update_effects(dates.last(), false)
    }
}

/// However often the program sets the value, and to whatever values, the
/// subscribers are never told of a change.
pub proof fn programmatic_changes_are_silent(dates: Seq<Date>)
    ensures
        emitted(set_dates_effects(dates)) == Seq::<DatePickerEvent>::empty(),
    decreases dates.len(),
{
    if dates.len() > 0 {
        programmatic_changes_are_silent(dates.drop_last());
        update_emits(dates.last(), false);
        emitted_concat(set_dates_effects(dates.drop_last()), update_effects(dates.last(), false));
        assert(Seq::<DatePickerEvent>::empty() + Seq::<DatePickerEvent>::empty()
            =~= Seq::<DatePickerEvent>::empty());
    }
}

/// After the program has set the value to each of a list of dates that is not
/// empty, the picker holds the last of them, and the calendar displays it.
pub proof fn last_set_date_wins(picker: PickerModel, dates: Seq<Date>)
    requires
        dates.len() > 0,
    ensures
        after_set_dates(picker, dates).date == dates.last(),
        after_set_dates(picker, dates).calendar.date == dates.last(),
        !after_set_dates(picker, dates).open,
{
}

/// After a selection in the calendar the picker holds the selected value,
/// the calendar displays it, the popover is closed, and the subscribers were
/// told once, of the change to that value.
pub proof fn selection_is_committed(picker: PickerModel, event: CalendarEvent)
    ensures
        picker.with_date(event.selected()).date == event.selected(),
        picker.with_date(event.selected()).calendar.date == event.selected(),
        !picker.with_date(event.selected()).open,
        emitted(update_effects(event.selected(), true).push(Effect::FocusField)) == seq![
            DatePickerEvent::Change(event.selected()),
        ],
{
    update_emits(event.selected(), true);
    emitted_push(update_effects(event.selected(), true), Effect::FocusField);
}

/// After the choice of a preset the picker holds the value of the preset,
/// complete, the popover is closed, and the subscribers were told once, of
/// the change to that value.
pub proof fn preset_is_committed(picker: PickerModel, value: DateRangePresetValue)
    ensures
        picker.with_date(value.date()).date == value.date(),
        picker.with_date(value.date()).calendar.date == value.date(),
        !picker.with_date(value.date()).open,
        value.date().is_set(),
        emitted(update_effects(value.date(), true)) == seq![DatePickerEvent::Change(value.date())],
{
    update_emits(value.date(), true);
}

/// Clearing a single date leaves a single date that is absent; clearing a
/// range leaves a range with both ends absent. Either way nothing is set
/// afterwards, the popover is closed, and the subscribers were told once, of
/// the change to the empty value.
pub proof fn clean_empties(picker: PickerModel)
    ensures
        picker.date is Single ==> picker.with_date(picker.date.cleared()).date == Date::Single(
            None,
        ),
        picker.date is Range ==> picker.with_date(picker.date.cleared()).date == Date::Range(
            None,
            None,
        ),
        !picker.date.cleared().is_set(),
        !picker.with_date(picker.date.cleared()).open,
        emitted(update_effects(picker.date.cleared(), true)) == seq![
            DatePickerEvent::Change(picker.date.cleared()),
        ],
{
    update_emits(picker.date.cleared(), true);
}

/// The cancel action leaves a closed picker as it is, and is left to the
/// enclosing elements: the host is told to propagate it, and neither to move
/// the focus nor to send an event.
pub proof fn escape_while_closed(picker: PickerModel, focus: FocusState)
    requires
        !picker.open,
    ensures
        picker.closed() == picker,
        escape_effects(picker.open, focus) == seq![Effect::Propagate, Effect::Notify],
        emitted(escape_effects(picker.open, focus)) == Seq::<DatePickerEvent>::empty(),
{
    let none = Seq::<Effect>::empty();
    emitted_push(none, Effect::Propagate);
    emitted_push(none.push(Effect::Propagate), Effect::Notify);
    assert(escape_effects(picker.open, focus) =~= none.push(Effect::Propagate).push(
        Effect::Notify,
    ));
    assert(emitted(none) =~= Seq::<DatePickerEvent>::empty());
}

/// The cancel action closes an open picker and changes nothing else. The
/// picker consumes the action and sends no event. The field gets the focus
/// back if and only if the focus rests within the field.
pub proof fn escape_while_open(picker: PickerModel, focus: FocusState)
    requires
        picker.open,
    ensures
        !picker.closed().open,
        picker.closed() == (PickerModel { open: false, ..picker }),
        picker.closed().date == picker.date,
        !escape_effects(picker.open, focus).contains(Effect::Propagate),
        escape_effects(picker.open, focus).contains(Effect::FocusField) <==> focus
            == FocusState::WithinField,
        emitted(escape_effects(picker.open, focus)) == Seq::<DatePickerEvent>::empty(),
{
    let none = Seq::<Effect>::empty();
    let effects = escape_effects(picker.open, focus);
    assert(emitted(none) =~= Seq::<DatePickerEvent>::empty());
    if restores_focus(picker.open, focus) {
        emitted_push(none, Effect::FocusField);
        emitted_push(none.push(Effect::FocusField), Effect::Notify);
        assert(effects =~= none.push(Effect::FocusField).push(Effect::Notify));
        assert(effects[0] == Effect::FocusField);
    } else {
        emitted_push(none, Effect::Notify);
        assert(effects =~= none.push(Effect::Notify));
    }
}

/// A picker is made with its calendar displaying its value, and whatever
/// happens to it afterwards, the calendar goes on displaying its value.
pub proof fn calendar_stays_synced(
    picker: PickerModel,
    id: ElementIdModel,
    is_range: bool,
    date: Date,
    disabled: Matcher,
    size: Size,
)
    requires
        picker.synced(),
    ensures
        PickerModel::initial(id, is_range).synced(),
        picker.with_date(date).synced(),
        picker.closed().synced(),
        picker.toggled().synced(),
        picker.drawn().synced(),
        (PickerModel {
            calendar: Calendar { disabled: Some(disabled), ..picker.calendar },
            ..picker
        }).synced(),
        (PickerModel { size, ..picker }).synced(),
{
}

/// No reaction leaves the popover open after it has changed the value: the
/// reactions that can change it close the popover, and the others keep the
/// value.
pub proof fn changed_value_closes(
    picker: PickerModel,
    date: Date,
    disabled: Matcher,
    size: Size,
)
    ensures
        !picker.with_date(date).open,
        picker.closed().date == picker.date,
        picker.toggled().date == picker.date,
        picker.drawn().date == picker.date,
        (PickerModel {
            calendar: Calendar { disabled: Some(disabled), ..picker.calendar },
            ..picker
        }).date == picker.date,
        (PickerModel { size, ..picker }).date == picker.date,
{
}

/// A range is kept as it is given, also where its end comes before its
/// start.
pub proof fn range_is_kept(picker: PickerModel, start: CalendarDate, end: CalendarDate)
    ensures
        picker.with_date(Date::Range(Some(start), Some(end))).date == Date::Range(
            Some(start),
            Some(end),
        ),
{
}

} // verus!

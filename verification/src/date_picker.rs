//! The date picker: its state, the reactions to what the user and the host
//! do, and the description of what is drawn.

use vstd::prelude::*;

use crate::calendar::{Calendar, CalendarEvent, Matcher};
use crate::date::{text_of, CalendarDate, Date};
use crate::element::{ElementId, ElementIdModel, Length, Size};
use crate::layout::{
    display_title, preset_button_models, preset_buttons, title_text, trailing_of, Layout,
    LayoutModel, Popover, PopoverModel, Trailing, POPOVER_MARGIN, POPOVER_PRIORITY,
};

verus! {

/// What a picker tells its subscribers.
#[derive(Clone, Copy, Debug, PartialEq, Eq)]
pub enum DatePickerEvent {
    /// The user has changed the value; the new value is given.
    Change(Date),
}

/// The value that a preset selects.
#[derive(Clone, Copy, Debug, PartialEq, Eq)]
pub enum DateRangePresetValue {
    Single(CalendarDate),
    Range(CalendarDate, CalendarDate),
}

impl DateRangePresetValue {
    /// The value of a picker after this preset was chosen.
    pub open spec fn date(self) -> Date {
        match self {
            DateRangePresetValue::Single(single) => Date::Single(Some(single)),
            DateRangePresetValue::Range(start, end) => Date::Range(Some(start), Some(end)),
        }
    }

    /// The value of a picker after this preset was chosen.
    pub fn to_date(&self) -> (out: Date)
        ensures
            out == self.date(),
    {
        match self {
            DateRangePresetValue::Single(single) => Date::Single(Some(*single)),
            DateRangePresetValue::Range(start, end) => Date::Range(Some(*start), Some(*end)),
        }
    }
}

/// A quick selection offered beside the calendar: a label and the value that
/// a click on it selects.
#[derive(Debug, PartialEq, Eq)]
pub struct DateRangePreset {
    label: String,
    value: DateRangePresetValue,
}

/// What a [`DateRangePreset`] stands for.
pub struct PresetModel {
    pub label: Seq<char>,
    pub value: DateRangePresetValue,
}

impl View for DateRangePreset {
    type V = PresetModel;

    closed spec fn view(&self) -> PresetModel {
        PresetModel { label: self.label@, value: self.value }
    }
}

impl Clone for DateRangePreset {
    fn clone(&self) -> (out: Self)
        ensures
            out == *self,
    {
        DateRangePreset { label: self.label.clone(), value: self.value }
    }
}

impl DateRangePreset {
    /// A preset that selects the single date `single`.
    pub fn single(label: &str, single: CalendarDate) -> (out: DateRangePreset)
        ensures
            out@ == (PresetModel { label: label@, value: DateRangePresetValue::Single(single) }),
    {
        DateRangePreset { label: label.to_owned(), value: DateRangePresetValue::Single(single) }
    }

    /// A preset that selects the range from `start` to `end`.
    pub fn range(label: &str, start: CalendarDate, end: CalendarDate) -> (out: DateRangePreset)
        ensures
            out@ == (PresetModel { label: label@, value: DateRangePresetValue::Range(start, end) }),
    {
        DateRangePreset {
            label: label.to_owned(),
            value: DateRangePresetValue::Range(start, end),
        }
    }

    /// The label.
    pub fn label(&self) -> (out: &String)
        ensures
            out@ == self@.label,
    {
        &self.label
    }

    /// The value that the preset selects.
    pub fn value(&self) -> (out: DateRangePresetValue)
        ensures
            out == self@.value,
    {
        self.value
    }
}

/// The views of a list of presets.
pub open spec fn preset_models(presets: Seq<DateRangePreset>) -> Seq<PresetModel> {
    Seq::new(presets.len(), |i: int| presets[i]@)
}

/// Where the keyboard focus rests, as seen from the field of a picker.
#[derive(Clone, Copy, Debug, PartialEq, Eq)]
pub enum FocusState {
    /// Nothing is focused.
    Nowhere,
    /// The focused element lies within the focus subtree of the field.
    WithinField,
    /// The focused element lies outside the focus subtree of the field.
    Elsewhere,
}

/// What the host has to carry out after a reaction of the picker.
#[derive(Clone, Copy, Debug, PartialEq, Eq)]
pub enum Effect {
    /// Display the value in the calendar.
    SetCalendarDate(Date),
    /// Disable in the calendar the dates of which the matcher holds.
    SetCalendarDisabled(Matcher),
    /// Set the size of the calendar.
    SetCalendarSize(Size),
    /// Set the number of months that the calendar shows.
    SetCalendarMonths(usize),
    /// Send the event to the subscribers of the picker.
    Emit(DatePickerEvent),
    /// Draw the picker again.
    Notify,
    /// Leave the cancel action to the enclosing elements: the picker has not
    /// consumed it.
    Propagate,
    /// Move the keyboard focus to the field.
    FocusField,
}

/// The events among `effects` that are sent to the subscribers, in order.
pub open spec fn emitted(effects: Seq<Effect>) -> Seq<DatePickerEvent>
    decreases effects.len(),
{
    if effects.len() == 0 {
        Seq::empty()
    } else {
        let rest = emitted(effects.drop_last());
        match effects.last() {
            Effect::Emit(event) => rest.push(event),
            _ => rest,
        }
    }
}

/// The date format of a picker that was given none.
pub open spec fn default_date_format() -> Seq<char> {
    seq!['%', 'Y', '/', '%', 'm', '/', '%', 'd']
}

/// What the host is told after a change of the value to `date`: to display
/// it in the calendar, then, where `emit` holds, to send the change to the
/// subscribers, then to draw the picker again.
pub open spec fn update_effects(date: Date, emit: bool) -> Seq<Effect> {
    if emit {
        seq![
            Effect::SetCalendarDate(date),
            Effect::Emit(DatePickerEvent::Change(date)),
            Effect::Notify,
        ]
    } else {
        seq![Effect::SetCalendarDate(date), Effect::Notify]
    }
}

/// Whether a picker that closes gives the focus back to its field: only
/// while it is open, and only where the focus rests within the field.
pub open spec fn restores_focus(open: bool, focus: FocusState) -> bool {
    open && focus == FocusState::WithinField
}

/// What the host is told after the cancel action. A closed picker leaves the
/// action to the enclosing elements. An open one gives the focus back to the
/// field where [`restores_focus`] holds. Either is drawn again.
pub open spec fn escape_effects(open: bool, focus: FocusState) -> Seq<Effect> {
    if !open {
        seq![Effect::Propagate, Effect::Notify]
    } else if restores_focus(open, focus) {
        seq![Effect::FocusField, Effect::Notify]
    } else {
        seq![Effect::Notify]
    }
}

/// What a [`DatePicker`] stands for.
pub struct PickerModel {
    /// The identifier of the picker.
    pub id: ElementIdModel,
    /// The value.
    pub date: Date,
    /// Whether the field offers a button that clears the value.
    pub cleanable: bool,
    /// The text shown while there is no value to show.
    pub placeholder: Option<Seq<char>>,
    /// Whether the popover is open.
    pub open: bool,
    /// The size of the field.
    pub size: Size,
    /// The width of the field.
    pub width: Length,
    /// The strftime pattern under which the value is shown.
    pub date_format: Seq<char>,
    /// What the picker has set on its calendar.
    pub calendar: Calendar,
    /// The number of months that the calendar is to show.
    pub number_of_months: usize,
    /// The quick selections offered beside the calendar.
    pub presets: Option<Seq<PresetModel>>,
}

impl PickerModel {
    /// The picker as it is made: empty, closed, with the default settings,
    /// for a range where `is_range` holds and for a single date else.
    pub open spec fn initial(id: ElementIdModel, is_range: bool) -> PickerModel {
        let date = if is_range {
            Date::Range(None, None)
        } else {
            Date::Single(None)
        };
        PickerModel {
            id,
            date,
            cleanable: false,
            placeholder: None,
            open: false,
            size: Size::Medium,
            width: Length::Auto,
            date_format: default_date_format(),
            calendar: Calendar {
                date,
                disabled: None,
                size: Size::Medium,
                number_of_months: 1,
            },
            number_of_months: 1,
            presets: None,
        }
    }

    /// Whether the calendar displays the value of the picker.
    pub open spec fn synced(self) -> bool {
        self.calendar.date == self.date
    }

    /// The picker after its value has changed to `date`: the calendar
    /// displays `date` and the popover is closed.
    pub open spec fn with_date(self, date: Date) -> PickerModel {
        PickerModel { date, calendar: Calendar { date, ..self.calendar }, open: false, ..self }
    }

    /// The picker with the popover closed.
    pub open spec fn closed(self) -> PickerModel {
        PickerModel { open: false, ..self }
    }

    /// The picker with the popover open where it was closed, and closed
    /// where it was open.
    pub open spec fn toggled(self) -> PickerModel {
        PickerModel { open: !self.open, ..self }
    }

    /// The picker after it was drawn: the calendar has the size of the
    /// picker and shows its number of months.
    pub open spec fn drawn(self) -> PickerModel {
        PickerModel {
            calendar: Calendar {
                size: self.size,
                number_of_months: self.number_of_months,
                ..self.calendar
            },
            ..self
        }
    }

    /// What is drawn for the picker, where `focused` says whether the focus
    /// rests within the field and `fallback` is the placeholder of a picker
    /// that was given none.
    pub open spec fn layout(self, focused: bool, fallback: Seq<char>) -> LayoutModel {
        LayoutModel {
            id: self.id,
            width: self.width,
            size: self.size,
            focused,
            title: title_text(self.date.formatted(self.date_format), self.placeholder, fallback),
            cancel_bound: self.open,
            click_bound: !self.open,
            trailing: trailing_of(self.cleanable, self.date.is_set()),
            popover: if self.open {
                Some(
                    PopoverModel {
                        margin: POPOVER_MARGIN,
                        priority: POPOVER_PRIORITY,
                        presets: match self.presets {
                            Some(presets) => Some(preset_button_models(presets)),
                            None => None,
                        },
                    },
                )
            } else {
                None
            },
        }
    }
}

/// The value of a picker and what the picker has set on its calendar. The
/// calendar always displays the value.
#[derive(Clone, Copy, Debug)]
struct Shown {
    date: Date,
    calendar: Calendar,
}

impl Shown {
    #[verifier::type_invariant]
    spec fn synced(self) -> bool {
        self.calendar.date == self.date
    }
}

/// A date picker: the value, the settings, whether the popover is open, and
/// what was set on the calendar.
#[derive(Debug)]
pub struct DatePicker {
    id: ElementId,
    shown: Shown,
    cleanable: bool,
    placeholder: Option<String>,
    open: bool,
    size: Size,
    width: Length,
    date_format: String,
    number_of_months: usize,
    presets: Option<Vec<DateRangePreset>>,
}

impl View for DatePicker {
    type V = PickerModel;

    closed spec fn view(&self) -> PickerModel {
        PickerModel {
            id: self.id@,
            date: self.shown.date,
            cleanable: self.cleanable,
            placeholder: text_of(self.placeholder),
            open: self.open,
            size: self.size,
            width: self.width,
            date_format: self.date_format@,
            calendar: self.shown.calendar,
            number_of_months: self.number_of_months,
            presets: match self.presets {
                Some(presets) => Some(preset_models(presets@)),
                None => None,
            },
        }
    }
}

impl DatePicker {
    /// Create a date picker for a single date.
    pub fn new(id: ElementId) -> (out: DatePicker)
        ensures
            out@ == PickerModel::initial(id@, false),
    {
        Self::new_with_range(id, false)
    }

    /// Create a date picker for a range of dates.
    pub fn range_picker(id: ElementId) -> (out: DatePicker)
        ensures
            out@ == PickerModel::initial(id@, true),
    {
        Self::new_with_range(id, true)
    }

    fn new_with_range(id: ElementId, is_range: bool) -> (out: DatePicker)
        ensures
            out@ == PickerModel::initial(id@, is_range),
    {
        let date = if is_range {
            Date::Range(None, None)
        } else {
            Date::Single(None)
        };
        let mut calendar = Calendar::new();
        calendar.set_date(date);
        proof {
            reveal_strlit("%Y/%m/%d");
            assert("%Y/%m/%d"@ =~= default_date_format());
        }
        DatePicker {
            id,
            shown: Shown { date, calendar },
            open: false,
            size: Size::default(),
            width: Length::Auto,
            date_format: "%Y/%m/%d".to_owned(),
            cleanable: false,
            number_of_months: 1,
            placeholder: None,
            presets: None,
        }
    }

    /// Set the strftime pattern under which the value is shown in the field.
    pub fn date_format(self, format: &str) -> (out: DatePicker)
        ensures
            out@ == (PickerModel { date_format: format@, ..self@ }),
    {
        let mut picker = self;
        picker.date_format = format.to_owned();
        picker
    }

    /// Set the text shown while there is no value to show.
    pub fn placeholder(self, placeholder: &str) -> (out: DatePicker)
        ensures
            out@ == (PickerModel { placeholder: Some(placeholder@), ..self@ }),
    {
        let mut picker = self;
        picker.placeholder = Some(placeholder.to_owned());
        picker
    }

    /// Show the clear button while the picker has a value.
    pub fn cleanable(self) -> (out: DatePicker)
        ensures
            out@ == (PickerModel { cleanable: true, ..self@ }),
    {
        let mut picker = self;
        picker.cleanable = true;
        picker
    }

    /// Set the width of the field.
    pub fn width(self, width: Length) -> (out: DatePicker)
        ensures
            out@ == (PickerModel { width, ..self@ }),
    {
        let mut picker = self;
        picker.width = width;
        picker
    }

    /// Set the number of months that the calendar shows.
    pub fn number_of_months(self, number_of_months: usize) -> (out: DatePicker)
        ensures
            out@ == (PickerModel { number_of_months, ..self@ }),
    {
        let mut picker = self;
        picker.number_of_months = number_of_months;
        picker
    }

    /// Set the quick selections offered beside the calendar.
    pub fn presets(self, presets: Vec<DateRangePreset>) -> (out: DatePicker)
        ensures
            out@ == (PickerModel { presets: Some(preset_models(presets@)), ..self@ }),
    {
        let mut picker = self;
        picker.presets = Some(presets);
        picker
    }

    /// Set the size of the field.
    pub fn with_size(self, size: Size) -> (out: DatePicker)
        ensures
            out@ == (PickerModel { size, ..self@ }),
    {
        let mut picker = self;
        picker.size = size;
        picker
    }

    /// The value of the picker. The calendar displays it.
    pub fn date(&self) -> (date: Date)
        ensures
            date == self@.date,
            self@.synced(),
    {
        proof {
            use_type_invariant(&self.shown);
        }
        self.shown.date
    }

    /// Whether the popover is open.
    pub fn is_open(&self) -> (open: bool)
        ensures
            open == self@.open,
    {
        self.open
    }

    /// What the picker has set on its calendar. The calendar displays the
    /// value of the picker.
    pub fn calendar(&self) -> (calendar: Calendar)
        ensures
            calendar == self@.calendar,
            self@.synced(),
    {
        proof {
            use_type_invariant(&self.shown);
        }
        self.shown.calendar
    }

    /// Set the value of the picker. The subscribers are not told: this is
    /// for the program, not for the user.
    pub fn set_date(&mut self, date: Date) -> (effects: Vec<Effect>)
        ensures
            final(self)@ == old(self)@.with_date(date),
            effects@ == update_effects(date, false),
    {
        self.update_date(date, false)
    }

    /// The one way by which the value changes: sets the value, displays it
    /// in the calendar and closes the popover. The effects tell the
    /// subscribers where `emit` holds.
    fn update_date(&mut self, date: Date, emit: bool) -> (effects: Vec<Effect>)
        ensures
            final(self)@ == old(self)@.with_date(date),
            effects@ == update_effects(date, emit),
    {
        let mut calendar = self.shown.calendar;
        calendar.set_date(date);
        self.shown = Shown { date, calendar };
        self.open = false;
        let mut effects: Vec<Effect> = Vec::new();
        effects.push(Effect::SetCalendarDate(date));
        if emit {
            effects.push(Effect::Emit(DatePickerEvent::Change(date)));
        }
        effects.push(Effect::Notify);
        effects
    }

    /// Disable in the calendar the dates of which `disabled` holds. Nothing
    /// else changes.
    pub fn set_disabled(&mut self, disabled: Matcher) -> (effects: Vec<Effect>)
        ensures
            final(self)@ == (PickerModel {
                calendar: Calendar { disabled: Some(disabled), ..old(self)@.calendar },
                ..old(self)@
            }),
            effects@ == seq![Effect::SetCalendarDisabled(disabled)],
            final(self)@.synced(),
    {
        proof {
            use_type_invariant(&self.shown);
        }
        let mut calendar = self.shown.calendar;
        calendar.set_disabled(disabled);
        self.shown = Shown { date: self.shown.date, calendar };
        let mut effects: Vec<Effect> = Vec::new();
        effects.push(Effect::SetCalendarDisabled(disabled));
        effects
    }

    /// Set the size of the field.
    pub fn set_size(&mut self, size: Size) -> (effects: Vec<Effect>)
        ensures
            final(self)@ == (PickerModel { size, ..old(self)@ }),
            effects@ == seq![Effect::Notify],
            final(self)@.synced(),
    {
        proof {
            use_type_invariant(&self.shown);
        }
        self.size = size;
        let mut effects: Vec<Effect> = Vec::new();
        effects.push(Effect::Notify);
        effects
    }

    /// React to the cancel action, and to a mouse release outside of the
    /// popover. The value does not change.
    pub fn escape(&mut self, focus: FocusState) -> (effects: Vec<Effect>)
        ensures
            final(self)@ == old(self)@.closed(),
            effects@ == escape_effects(old(self)@.open, focus),
            final(self)@.synced(),
    {
        proof {
            use_type_invariant(&self.shown);
        }
        let mut effects: Vec<Effect> = Vec::new();
        if !self.open {
            effects.push(Effect::Propagate);
        }
        if self.focus_back_if_need(focus) {
            effects.push(Effect::FocusField);
        }
        self.open = false;
        effects.push(Effect::Notify);
        effects
    }

    /// Whether the picker, about to close, gives the focus back to its
    /// field. It does not take the focus from an element outside of the
    /// field.
    pub fn focus_back_if_need(&self, focus: FocusState) -> (restore: bool)
        ensures
            restore == restores_focus(self@.open, focus),
    {
        if !self.open {
            return false;
        }
        match focus {
            FocusState::WithinField => true,
            _ => false,
        }
    }

    /// React to a click on the clear button: the value becomes the empty
    /// value of the same shape.
    pub fn clean(&mut self) -> (effects: Vec<Effect>)
        ensures
            final(self)@ == old(self)@.with_date(old(self)@.date.cleared()),
            effects@ == update_effects(old(self)@.date.cleared(), true),
    {
        match self.shown.date {
            Date::Single(_) => self.update_date(Date::Single(None), true),
            Date::Range(_, _) => self.update_date(Date::Range(None, None), true),
        }
    }

    /// React to a click on the field: open the popover where it is closed,
    /// close it where it is open.
    pub fn toggle_calendar(&mut self) -> (effects: Vec<Effect>)
        ensures
            final(self)@ == old(self)@.toggled(),
            effects@ == seq![Effect::Notify],
            final(self)@.synced(),
    {
        proof {
            use_type_invariant(&self.shown);
        }
        self.open = !self.open;
        let mut effects: Vec<Effect> = Vec::new();
        effects.push(Effect::Notify);
        effects
    }

    /// React to a click on the button of `preset`: its value becomes the
    /// value of the picker.
    pub fn select_preset(&mut self, preset: &DateRangePreset) -> (effects: Vec<Effect>)
        ensures
            final(self)@ == old(self)@.with_date(preset@.value.date()),
            effects@ == update_effects(preset@.value.date(), true),
    {
        match preset.value {
            DateRangePresetValue::Single(single) => self.update_date(
                Date::Single(Some(single)),
                true,
            ),
            DateRangePresetValue::Range(start, end) => self.update_date(
                Date::Range(Some(start), Some(end)),
                true,
            ),
        }
    }

    /// React to what the calendar reports: the selected value becomes the
    /// value of the picker, and the field gets the focus.
    pub fn on_calendar_event(&mut self, event: CalendarEvent) -> (effects: Vec<Effect>)
        ensures
            final(self)@ == old(self)@.with_date(event.selected()),
            effects@ == update_effects(event.selected(), true).push(Effect::FocusField),
    {
        match event {
            CalendarEvent::Selected(date) => {
                let mut effects = self.update_date(date, true);
                effects.push(Effect::FocusField);
                effects
            },
        }
    }

    /// Describe what is to be drawn, and bring the calendar to the size and
    /// the number of months of the picker. `focused` says whether the focus
    /// rests within the field; `fallback_placeholder` is the text for a
    /// picker that has no value to show and was given no placeholder.
    pub fn render(&mut self, focused: bool, fallback_placeholder: &str) -> (out: (
        Layout,
        Vec<Effect>,
    ))
        ensures
            final(self)@ == old(self)@.drawn(),
            out.0@ == old(self)@.layout(focused, fallback_placeholder@),
            out.1@ == seq![
                Effect::SetCalendarSize(old(self)@.size),
                Effect::SetCalendarMonths(old(self)@.number_of_months),
            ],
            final(self)@.synced(),
    {
        let show_clean = self.cleanable && self.shown.date.is_some();
        let title = display_title(
            self.shown.date.format(self.date_format.as_str()),
            &self.placeholder,
            fallback_placeholder,
        );
        proof {
            use_type_invariant(&self.shown);
        }
        let mut calendar = self.shown.calendar;
        calendar.set_size(self.size);
        calendar.set_number_of_months(self.number_of_months);
        self.shown = Shown { date: self.shown.date, calendar };
        let mut effects: Vec<Effect> = Vec::new();
        effects.push(Effect::SetCalendarSize(self.size));
        effects.push(Effect::SetCalendarMonths(self.number_of_months));
        let popover = if self.open {
            let presets = match &self.presets {
                Some(presets) => Some(preset_buttons(presets)),
                None => None,
            };
            Some(Popover { margin: POPOVER_MARGIN, priority: POPOVER_PRIORITY, presets })
        } else {
            None
        };
        let layout = Layout {
            id: self.id.clone(),
            width: self.width,
            size: self.size,
            focused,
            title,
            cancel_bound: self.open,
            click_bound: !self.open,
            trailing: if show_clean {
                Trailing::ClearButton
            } else {
                Trailing::CalendarIcon
            },
            popover,
        };
        (layout, effects)
    }
}

/// The key that cancels a picker.
pub open spec fn cancel_key() -> Seq<char> {
    seq!['e', 's', 'c', 'a', 'p', 'e']
}

/// The key context in which the pickers live.
pub open spec fn picker_context() -> Seq<char> {
    seq!['D', 'a', 't', 'e', 'P', 'i', 'c', 'k', 'e', 'r']
}

/// A key that is bound to the cancel action.
#[derive(Debug, PartialEq, Eq)]
pub struct KeyBinding {
    /// The key.
    pub keystroke: String,
    /// The key context in which the binding holds; everywhere where there is
    /// none.
    pub context: Option<String>,
}

/// The key context in which the pickers live.
pub fn key_context() -> (out: String)
    ensures
        out@ == picker_context(),
{
    proof {
        reveal_strlit("DatePicker");
        assert("DatePicker"@ =~= picker_context());
    }
    "DatePicker".to_owned()
}

/// The key bindings that the host registers before it shows a picker: the
/// escape key cancels, within the key context of the pickers.
pub fn init() -> (out: Vec<KeyBinding>)
    ensures
        out@.len() == 1,
        out@[0].keystroke@ == cancel_key(),
        text_of(out@[0].context) == Some(picker_context()),
{
    proof {
        reveal_strlit("escape");
        assert("escape"@ =~= cancel_key());
    }
    let mut bindings: Vec<KeyBinding> = Vec::new();
    bindings.push(KeyBinding { keystroke: "escape".to_owned(), context: Some(key_context()) });
    bindings
}

} // verus!

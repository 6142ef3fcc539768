//! What a picker asks the host to draw: the field, what stands at its end,
//! which reactions are bound, and the popover with its preset buttons.

use vstd::prelude::*;

use crate::date::text_of;
use crate::date_picker::{preset_models, DateRangePreset, PresetModel};
use crate::element::{ElementId, ElementIdModel, Length, Size};

verus! {

/// The distance in pixels that the popover keeps from the edge of the window.
pub const POPOVER_MARGIN: u32 = 8;

/// The priority with which the popover is drawn above the rest.
pub const POPOVER_PRIORITY: usize = 2;

/// The name of the group that the identifiers of the preset buttons belong to.
pub open spec fn preset_group() -> Seq<char> {
    seq!['p', 'r', 'e', 's', 'e', 't']
}

/// What stands at the end of the field.
#[derive(Clone, Copy, Debug, PartialEq, Eq)]
pub enum Trailing {
    /// The button that clears the value.
    ClearButton,
    /// The calendar icon.
    CalendarIcon,
}

/// The button of one preset.
#[derive(Debug, PartialEq, Eq)]
pub struct PresetButton {
    /// The identifier of the button.
    pub id: ElementId,
    /// The text on the button.
    pub label: String,
    /// The preset that a click on the button selects.
    pub preset: DateRangePreset,
}

/// What a [`PresetButton`] stands for.
pub struct PresetButtonModel {
    pub id: ElementIdModel,
    pub label: Seq<char>,
    pub preset: PresetModel,
}

impl View for PresetButton {
    type V = PresetButtonModel;

    open spec fn view(&self) -> PresetButtonModel {
        PresetButtonModel { id: self.id@, label: self.label@, preset: self.preset@ }
    }
}

/// The views of a list of buttons.
pub open spec fn button_models(buttons: Seq<PresetButton>) -> Seq<PresetButtonModel> {
    Seq::new(buttons.len(), |i: int| buttons[i]@)
}

/// The buttons of a list of presets: one for each preset, in the order of the
/// list, named by the group [`preset_group`] and the place in the list,
/// labelled as the preset is, and selecting that preset.
pub open spec fn preset_button_models(presets: Seq<PresetModel>) -> Seq<PresetButtonModel> {
    Seq::new(
        presets.len(),
        |i: int|
            PresetButtonModel {
                id: ElementIdModel::NamedInteger(preset_group(), i as u64),
                label: presets[i].label,
                preset: presets[i],
            },
    )
}

/// The popover that floats below the field while the picker is open. It
/// holds the preset buttons, where the picker has presets, and the calendar.
/// A mouse release outside of it cancels the picker.
#[derive(Debug, PartialEq, Eq)]
pub struct Popover {
    /// The distance in pixels kept from the edge of the window.
    pub margin: u32,
    /// The priority with which the popover is drawn above the rest.
    pub priority: usize,
    /// The preset buttons, from top to bottom.
    pub presets: Option<Vec<PresetButton>>,
}

/// What a [`Popover`] stands for.
pub struct PopoverModel {
    pub margin: u32,
    pub priority: usize,
    pub presets: Option<Seq<PresetButtonModel>>,
}

impl View for Popover {
    type V = PopoverModel;

    open spec fn view(&self) -> PopoverModel {
        PopoverModel {
            margin: self.margin,
            priority: self.priority,
            presets: match self.presets {
                Some(buttons) => Some(button_models(buttons@)),
                None => None,
            },
        }
    }
}

/// What the host draws for a picker.
#[derive(Debug, PartialEq, Eq)]
pub struct Layout {
    /// The identifier of the picker.
    pub id: ElementId,
    /// The width of the field.
    pub width: Length,
    /// The size of the field.
    pub size: Size,
    /// Whether the field is drawn with the border of a focused control.
    pub focused: bool,
    /// The text in the field.
    pub title: String,
    /// Whether the picker reacts to the cancel action.
    pub cancel_bound: bool,
    /// Whether a click on the field toggles the popover.
    pub click_bound: bool,
    /// What stands at the end of the field.
    pub trailing: Trailing,
    /// The popover, while the picker is open.
    pub popover: Option<Popover>,
}

/// What a [`Layout`] stands for.
pub struct LayoutModel {
    pub id: ElementIdModel,
    pub width: Length,
    pub size: Size,
    pub focused: bool,
    pub title: Seq<char>,
    pub cancel_bound: bool,
    pub click_bound: bool,
    pub trailing: Trailing,
    pub popover: Option<PopoverModel>,
}

impl View for Layout {
    type V = LayoutModel;

    open spec fn view(&self) -> LayoutModel {
        LayoutModel {
            id: self.id@,
            width: self.width,
            size: self.size,
            focused: self.focused,
            title: self.title@,
            cancel_bound: self.cancel_bound,
            click_bound: self.click_bound,
            trailing: self.trailing,
            popover: match self.popover {
                Some(popover) => Some(popover@),
                None => None,
            },
        }
    }
}

/// The text in the field: the formatted value where there is one, else the
/// placeholder of the picker where it has one, else the fallback.
pub open spec fn title_text(
    formatted: Option<Seq<char>>,
    placeholder: Option<Seq<char>>,
    fallback: Seq<char>,
) -> Seq<char> {
    match formatted {
        Some(text) => text,
        None => match placeholder {
            Some(text) => text,
            None => fallback,
        },
    }
}

/// The text in the field, from the formatted value, the placeholder of the
/// picker and the fallback placeholder.
pub fn display_title(formatted: Option<String>, placeholder: &Option<String>, fallback: &str) -> (out:
    String)
    ensures
        out@ == title_text(text_of(formatted), text_of(*placeholder), fallback@),
{
    match formatted {
        Some(text) => text,
        None => match placeholder {
            Some(text) => text.clone(),
            None => fallback.to_owned(),
        },
    }
}

/// What stands at the end of the field: the clear button where the picker is
/// cleanable and has a value, else the calendar icon.
pub open spec fn trailing_of(cleanable: bool, is_set: bool) -> Trailing {
    if cleanable && is_set {
        Trailing::ClearButton
    } else {
        Trailing::CalendarIcon
    }
}

/// The buttons of a list of presets.
pub fn preset_buttons(presets: &Vec<DateRangePreset>) -> (out: Vec<PresetButton>)
    ensures
        button_models(out@) == preset_button_models(preset_models(presets@)),
{
    let mut buttons: Vec<PresetButton> = Vec::new();
    let mut i: usize = 0;
    while i < presets.len()
        invariant
            i <= presets.len(),
            buttons.len() == i,
            forall|k: int|
                0 <= k < i ==> (#[trigger] buttons[k])@ == preset_button_models(
                    preset_models(presets@),
                )[k],
        decreases presets.len() - i,
    {
        proof {
            reveal_strlit("preset");
            assert("preset"@ =~= preset_group());
        }
        let button = PresetButton {
            id: ElementId::indexed("preset", i as u64),
            label: presets[i].label().clone(),
            preset: presets[i].clone(),
        };
        buttons.push(button);
        i = i + 1;
    }
    assert(button_models(buttons@) =~= preset_button_models(preset_models(presets@)));
    buttons
}

} // verus!

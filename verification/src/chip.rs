//! The chip buffer as a value of the dropdown box: a row of short texts,
//! edited chip by chip and matched by its texts joined with commas.

use crate::editable::{Editable, EditableResponse};
use vstd::prelude::*;

verus! {

/// egui_chip's `ChipEdit`, a buffer of chips.
#[verifier::external_type_specification]
#[verifier::external_body]
pub struct ExChipEdit(egui_chip::ChipEdit);

/// egui_chip's `ChipEditOutput`, what drawing a chip buffer reports back.
#[verifier::external_type_specification]
#[verifier::external_body]
pub struct ExChipEditOutput(egui_chip::ChipEditOutput);

/// The texts that a chip buffer holds, in the order of its chips.
pub uninterp spec fn chip_values(chips: egui_chip::ChipEdit) -> Seq<Seq<char>>;

/// The texts of `parts` in a row with `separator` between each two
/// neighbours.
pub open spec fn joined(parts: Seq<Seq<char>>, separator: Seq<char>) -> Seq<char>
    decreases parts.len(),
{
    if parts.len() == 0 {
        Seq::empty()
    } else if parts.len() == 1 {
        parts[0]
    } else {
        joined(parts.drop_last(), separator) + separator + parts.last()
    }
}

/// What stands between two chips in a buffer's text: a comma and a blank.
pub open spec fn chip_separator() -> Seq<char> {
    seq![',', ' ']
}

/// Calls `ChipEdit::values`, which copies out the texts of the chips.
#[verifier::external_body]
fn values(chips: &egui_chip::ChipEdit) -> (texts: Vec<String>)
    ensures
        texts.deep_view() == chip_values(*chips),
{
    chips.values()
}

/// Calls `join` on a slice of strings. Trusted: the result is the parts in
/// order with the separator between each two neighbours.
#[verifier::external_body]
fn join(parts: &Vec<String>, separator: &str) -> (text: String)
    ensures
        text@ == joined(parts.deep_view(), separator@),
{
    parts.join(separator)
}

/// Calls `ChipEdit::show`, which draws the buffer for editing; the user's
/// changes land in `chips`.
#[verifier::external_body]
fn show(chips: &mut egui_chip::ChipEdit, ui: &mut egui::Ui) -> egui_chip::ChipEditOutput {
    chips.show(ui)
}

/// Draws the buffer through its `Widget` impl, which is `ChipEdit::show`
/// reduced to the engine's response.
#[verifier::external_body]
fn show_as_widget(chips: &mut egui_chip::ChipEdit, ui: &mut egui::Ui) -> egui::Response {
    egui::Widget::ui(chips, ui)
}

/// Hands out the `response` field of a `ChipEditOutput`.
#[verifier::external_body]
fn chip_edit_response(output: &egui_chip::ChipEditOutput) -> &egui::Response {
    &output.response
}

/// Hands out the `gained_focus` field of a `ChipEditOutput`.
#[verifier::external_body]
fn chip_gained_focus(output: &egui_chip::ChipEditOutput) -> bool {
    output.gained_focus
}

impl EditableResponse for egui_chip::ChipEditOutput {
    fn get_response(&self) -> &egui::Response {
        chip_edit_response(self)
    }

    /// A chip buffer asks for the popup when the text field inside it takes
    /// the keyboard focus, which the buffer reports by a flag of its own.
    fn show_popup(&self) -> bool {
        chip_gained_focus(self)
    }
}

impl Editable<egui_chip::ChipEditOutput> for egui_chip::ChipEdit {
    open spec fn text_view(&self) -> Seq<char> {
        joined(chip_values(*self), chip_separator())
    }

    fn show_uneditable(&mut self, ui: &mut egui::Ui) -> egui::Response {
        show_as_widget(self, ui)
    }

    /// A chip buffer shows no hint.
    fn show_editable(&mut self, ui: &mut egui::Ui, _hint_text: &str) -> egui_chip::ChipEditOutput {
        show(self, ui)
    }

    fn text(&self) -> (text: String) {
        let texts = values(self);
        let separator = ", ";
        proof {
            reveal_strlit(", ");
            assert(separator@ =~= chip_separator());
        }
        join(&texts, separator)
    }
}

} // verus!

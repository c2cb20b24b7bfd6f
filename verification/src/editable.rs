//! What a value must offer to be edited in a dropdown box, and what the
//! editing must report back.

use crate::host::{edit_singleline, gained_focus, label, text_edit_response};
use vstd::prelude::*;

verus! {

/// What drawing an editable value reports back.
pub trait EditableResponse {
    /// The engine's response for the drawn control.
    fn get_response(&self) -> &egui::Response;

    /// Whether the popup should open in this frame.
    fn show_popup(&self) -> bool;
}

/// A value that a dropdown box can hold: it draws itself, both for editing
/// and as an entry of the list, and it has a text by which it is matched.
pub trait Editable<R: EditableResponse>: Sized {
    /// The text of the value, by which the popup matches it.
    spec fn text_view(&self) -> Seq<char>;

    /// Draws the value as an entry of the list.
    fn show_uneditable(&mut self, ui: &mut egui::Ui) -> egui::Response;

    /// Draws the value for editing; the user's changes land in `self`.
    fn show_editable(&mut self, ui: &mut egui::Ui, hint_text: &str) -> R;

    /// The text of the value.
    fn text(&self) -> (text: String)
        ensures
            text@ == self.text_view(),
    ;
}

impl EditableResponse for egui::text_edit::TextEditOutput {
    fn get_response(&self) -> &egui::Response {
        text_edit_response(self)
    }

    /// A text field asks for the popup when it takes the keyboard focus.
    fn show_popup(&self) -> bool {
        gained_focus(text_edit_response(self))
    }
}

impl Editable<egui::text_edit::TextEditOutput> for String {
    open spec fn text_view(&self) -> Seq<char> {
        self@
    }

    /// A string is listed as a label; drawing it leaves it as it is.
    fn show_uneditable(&mut self, ui: &mut egui::Ui) -> (response: egui::Response)
        ensures
            *final(self) == *old(self),
    {
        label(ui, self.as_str())
    }

    fn show_editable(&mut self, ui: &mut egui::Ui, hint_text: &str) -> egui::text_edit::TextEditOutput {
        edit_singleline(self, ui, hint_text)
    }

    fn text(&self) -> (text: String) {
        self.clone()
    }
}

} // verus!

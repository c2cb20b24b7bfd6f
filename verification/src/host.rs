//! The drawing engine, as far as the dropdown needs it.
//!
//! Everything here is taken on trust from egui: the types are opaque, and
//! the functions are thin calls whose effect on the screen and on the
//! engine's memory lies outside what is proved.

use vstd::prelude::*;

verus! {

/// egui's `Ui`, the region that widgets are drawn into.
#[verifier::external_type_specification]
#[verifier::external_body]
pub struct ExUi(egui::Ui);

/// egui's `Response`, what drawing a widget reports back.
#[verifier::external_type_specification]
#[verifier::external_body]
pub struct ExResponse(egui::Response);

/// egui's `Id`, the key under which the engine remembers a popup.
#[verifier::external_type_specification]
#[verifier::external_body]
pub struct ExId(egui::Id);

/// egui's `WidgetText`, the text of a hint.
#[verifier::external_type_specification]
#[verifier::external_body]
pub struct ExWidgetText(egui::WidgetText);

/// egui's `Vec2`, a size on screen.
#[verifier::external_type_specification]
#[verifier::external_body]
pub struct ExVec2(egui::Vec2);

/// egui's `TextEditOutput`, what a text field reports back.
#[verifier::external_type_specification]
#[verifier::external_body]
pub struct ExTextEditOutput(egui::text_edit::TextEditOutput);

/// Calls `Id::new`, which hashes `source` with fixed seeds.
#[verifier::external_body]
pub(crate) fn make_id<H: std::hash::Hash>(source: H) -> egui::Id {
    egui::Id::new(source)
}

/// Calls `WidgetText::default`, the empty text.
#[verifier::external_body]
pub(crate) fn no_hint() -> egui::WidgetText {
    egui::WidgetText::default()
}

/// Calls `WidgetText::text`, the plain characters of a hint.
#[verifier::external_body]
pub(crate) fn hint_str(hint: &egui::WidgetText) -> &str {
    hint.text()
}

/// Calls `Ui::label`, which draws `text` as a label.
#[verifier::external_body]
pub(crate) fn label(ui: &mut egui::Ui, text: &str) -> egui::Response {
    ui.label(text)
}

/// Builds a single-line `TextEdit` over `text` with the given hint and
/// calls its `show`. The user's typing lands in `text`.
#[verifier::external_body]
pub(crate) fn edit_singleline(
    text: &mut String,
    ui: &mut egui::Ui,
    hint: &str,
) -> egui::text_edit::TextEditOutput {
    egui::TextEdit::singleline(text).hint_text(hint).show(ui)
}

/// Hands out the `response` field of a `TextEditOutput`.
#[verifier::external_body]
pub(crate) fn text_edit_response(output: &egui::text_edit::TextEditOutput) -> &egui::Response {
    &output.response
}

/// Calls `Response::gained_focus`, which asks the engine's memory whether
/// the widget took the keyboard focus in this frame.
#[verifier::external_body]
pub(crate) fn gained_focus(response: &egui::Response) -> bool {
    response.gained_focus()
}

/// Calls `Response::clicked`, which asks the engine's input whether the
/// widget was clicked in this frame.
#[verifier::external_body]
pub(crate) fn clicked(response: &egui::Response) -> bool {
    response.clicked()
}

/// Calls `Response::clone`.
#[verifier::external_body]
pub(crate) fn copy_response(response: &egui::Response) -> egui::Response {
    response.clone()
}

/// Whether a response tells that the shown data changed: what
/// `Response::changed` reads from it.
pub uninterp spec fn reports_change(response: egui::Response) -> bool;

/// Whether the engine's memory that `ui` leads to holds the popup
/// `popup_id` as open: what `Memory::is_popup_open` gives there.
pub uninterp spec fn popup_open(ui: egui::Ui, popup_id: egui::Id) -> bool;

/// Calls `Response::mark_changed`. Trusted: it raises the flag that
/// `Response::changed` reads, so the response tells of a change afterwards.
#[verifier::external_body]
pub(crate) fn mark_changed(response: &mut egui::Response)
    ensures
        reports_change(*final(response)),
{
    response.mark_changed()
}

/// Calls `Memory::open_popup` on the engine's memory. Trusted: the memory
/// records `popup_id` as the open popup, so `Memory::is_popup_open` holds
/// of it afterwards.
#[verifier::external_body]
#[allow(deprecated)]
pub(crate) fn open_popup(ui: &mut egui::Ui, popup_id: egui::Id)
    ensures
        popup_open(*final(ui), popup_id),
{
    ui.memory_mut(|memory| memory.open_popup(popup_id))
}

/// Calls `Memory::close_popup` on the engine's memory: the popup
/// `popup_id` is closed if it was open.
#[verifier::external_body]
#[allow(deprecated)]
pub(crate) fn close_popup(ui: &mut egui::Ui, popup_id: egui::Id) {
    ui.memory_mut(|memory| memory.close_popup(popup_id))
}

/// Calls `Ui::set_max_height` with the height of `size`.
#[verifier::external_body]
pub(crate) fn set_max_height(ui: &mut egui::Ui, size: egui::Vec2) {
    ui.set_max_height(size.y)
}

} // verus!

use egui_chip::{ChipEdit, ChipEditBuilder};
use egui_dropdown::{DropDownBox, Editable};

fn chips(texts: &[&str]) -> ChipEdit {
    ChipEditBuilder::new(",").unwrap().texts(texts.to_vec()).build()
}

fn frame(ctx: &egui::Context, mut contents: impl FnMut(&mut egui::Ui)) {
    let _ = ctx.run(egui::RawInput::default(), |ctx| {
        egui::CentralPanel::default().show(ctx, |ui| contents(ui));
    });
}

#[test]
fn chip_text_joins_the_values() {
    assert_eq!(chips(&["First", "Second"]).text(), "First, Second");
    assert_eq!(chips(&["Third", "Other", "Misc"]).text(), "Third, Other, Misc");
}

#[test]
fn chip_text_of_one_value_has_no_separator() {
    assert_eq!(chips(&["hello"]).text(), "hello");
}

#[test]
fn chip_box_draws_without_input() {
    let mut items = vec![chips(&["First", "Second"]), chips(&["Second", "Third"])];
    let mut current = chips(&["hello"]);
    let ctx = egui::Context::default();
    frame(&ctx, |ui| {
        DropDownBox::from_iter(&mut items, "test_dropbox", &mut current)
            .filter_by_input(false)
            .ui(ui);
    });
    assert_eq!(current.values(), vec!["hello"]);
    assert_eq!(items[0].values(), vec!["First", "Second"]);
    assert_eq!(items[1].values(), vec!["Second", "Third"]);
}

#[test]
fn chip_box_with_open_popup_draws_its_items() {
    let mut items = vec![chips(&["First", "Second"]), chips(&["Third", "Other"])];
    let mut current = chips(&["ir"]);
    let ctx = egui::Context::default();
    frame(&ctx, |ui| {
        egui::Popup::open_id(ui.ctx(), egui::Id::new("test_dropbox"));
        DropDownBox::from_iter(&mut items, "test_dropbox", &mut current).ui(ui);
    });
    assert_eq!(current.text(), "ir");
    assert_eq!(items[1].text(), "Third, Other");
}

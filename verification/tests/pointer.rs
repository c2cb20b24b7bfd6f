use egui::text_edit::TextEditOutput;
use egui::{Event, Modifiers, PointerButton, Pos2, RawInput, Rect, Shape};
use egui_dropdown::DropDownBox;

/// What one frame of a string dropdown showed.
struct Shown {
    field: Rect,
    changed: bool,
    open: bool,
    texts: Vec<(String, Pos2)>,
}

impl Shown {
    fn has(&self, text: &str) -> bool {
        self.texts.iter().any(|(shown, _)| shown == text)
    }

    fn middle_of(&self, text: &str) -> Pos2 {
        self.texts.iter().find(|(shown, _)| shown == text).map(|(_, middle)| *middle).unwrap()
    }
}

fn collect(shape: &Shape, into: &mut Vec<(String, Pos2)>) {
    match shape {
        Shape::Text(text) => {
            into.push((text.galley.text().to_string(), text.pos + text.galley.size() / 2.0))
        }
        Shape::Vec(shapes) => {
            for inner in shapes {
                collect(inner, into);
            }
        }
        _ => {}
    }
}

fn step(
    ctx: &egui::Context,
    events: Vec<Event>,
    items: &mut Vec<String>,
    current: &mut String,
) -> Shown {
    let mut field = Rect::NOTHING;
    let mut changed = false;
    let input = RawInput { events, ..RawInput::default() };
    let output = ctx.run(input, |ctx| {
        egui::CentralPanel::default().show(ctx, |ui| {
            let dropdown: DropDownBox<'_, TextEditOutput, String> =
                DropDownBox::from_iter(items.as_mut_slice(), "test_dropbox", current);
            let response = dropdown.ui(ui);
            field = response.rect;
            changed = response.changed();
        });
    });
    let mut texts = Vec::new();
    for clipped in &output.shapes {
        collect(&clipped.shape, &mut texts);
    }
    let open = egui::Popup::is_id_open(ctx, egui::Id::new("test_dropbox"));
    Shown { field, changed, open, texts }
}

/// A whole click at `at`: the pointer comes, presses and lets go.
fn click(at: Pos2) -> Vec<Event> {
    vec![
        Event::PointerMoved(at),
        Event::PointerButton {
            pos: at,
            button: PointerButton::Primary,
            pressed: true,
            modifiers: Modifiers::default(),
        },
        Event::PointerButton {
            pos: at,
            button: PointerButton::Primary,
            pressed: false,
            modifiers: Modifiers::default(),
        },
    ]
}

fn names() -> Vec<String> {
    vec!["First".to_string(), "Second".to_string(), "Third".to_string(), "Other".to_string()]
}

/// Clicks into the text field and runs frames until the popup is drawn.
fn open_by_click(ctx: &egui::Context, items: &mut Vec<String>, current: &mut String) -> Shown {
    let idle = step(ctx, Vec::new(), items, current);
    assert!(!idle.open);
    let clicked = step(ctx, click(idle.field.center()), items, current);
    assert!(clicked.open);
    step(ctx, Vec::new(), items, current);
    step(ctx, Vec::new(), items, current)
}

#[test]
fn popup_stays_closed_until_the_field_takes_focus() {
    let mut items = names();
    let mut current = String::new();
    let ctx = egui::Context::default();
    for _ in 0..3 {
        let shown = step(&ctx, Vec::new(), &mut items, &mut current);
        assert!(!shown.open);
        assert!(!shown.has("First"));
        assert!(!shown.changed);
    }
}

#[test]
fn click_into_the_field_opens_the_popup_with_all_items() {
    let mut items = names();
    let mut current = String::new();
    let ctx = egui::Context::default();
    let shown = open_by_click(&ctx, &mut items, &mut current);
    assert!(shown.open);
    assert!(shown.has("First"));
    assert!(shown.has("Second"));
    assert!(shown.has("Third"));
    assert!(shown.has("Other"));
    assert_eq!(current, "");
}

#[test]
fn typed_text_narrows_the_drawn_labels() {
    let mut items = names();
    let mut current = "ir".to_string();
    let ctx = egui::Context::default();
    let shown = open_by_click(&ctx, &mut items, &mut current);
    assert!(shown.open);
    assert!(shown.has("First"));
    assert!(shown.has("Third"));
    assert!(!shown.has("Second"));
    assert!(!shown.has("Other"));
    assert_eq!(current, "ir");
}

#[test]
fn click_on_a_label_takes_it_as_the_value() {
    let mut items = names();
    let mut current = "ir".to_string();
    let ctx = egui::Context::default();
    let shown = open_by_click(&ctx, &mut items, &mut current);
    let picked = step(&ctx, click(shown.middle_of("Third")), &mut items, &mut current);
    assert_eq!(current, "Third");
    assert!(picked.changed);
    assert!(!picked.open);
    assert_eq!(items, names());
    let after = step(&ctx, Vec::new(), &mut items, &mut current);
    assert!(!after.changed);
    assert!(!after.open);
    assert_eq!(current, "Third");
}

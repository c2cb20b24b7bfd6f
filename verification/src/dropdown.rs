//! The dropdown box and what it does in one frame.

use crate::editable::{Editable, EditableResponse};
use crate::filter::{is_listed, listed, listing};
use crate::host::{
    clicked, close_popup, copy_response, hint_str, make_id, mark_changed, no_hint, open_popup,
    popup_open, reports_change, set_max_height,
};
use vstd::prelude::*;
use vstd::std_specs::convert::IntoSpec;

verus! {

/// What became of one item in the popup.
#[derive(Clone, Copy, Debug, PartialEq, Eq)]
pub enum Turn {
    /// The rule left the item out: it was not drawn.
    Skipped,
    /// The item was drawn and not clicked.
    Shown,
    /// The item was drawn and clicked: it is the new value.
    Picked,
}

/// What one pass over the items may have done: `before` and `start` are
/// the items and the edited value when the pass began, `after` and `end`
/// the same when it was over, `changed` whether an item was picked.
///
/// Without a pick the value stays, and so does every item that the rule
/// left out. With a pick, the first item picked was one that the rule
/// listed for the value at the start, the items before it that the rule
/// left out have stayed, and the value at the end is a clone of the item
/// picked last.
pub open spec fn pass_outcome<R: EditableResponse, V: Editable<R> + Clone>(
    before: Seq<V>,
    start: V,
    filter_by_input: bool,
    after: Seq<V>,
    end: V,
    changed: bool,
) -> bool {
    &&& after.len() == before.len()
    &&& !changed ==> end == start
    &&& !changed ==> forall|i: int|
        0 <= i < before.len() && !listed(
            (#[trigger] before[i]).text_view(),
            start.text_view(),
            filter_by_input,
        ) ==> after[i] == before[i]
    &&& changed ==> exists|first: int, last: int|
        picked_between::<R, V>(before, start, filter_by_input, after, end, first, last)
}

/// The item at `first` was listed at the start of the pass, every item
/// before it that the rule left out has stayed, and the value at the end
/// is a clone of the item at `last`, which came no earlier than `first`.
pub open spec fn picked_between<R: EditableResponse, V: Editable<R> + Clone>(
    before: Seq<V>,
    start: V,
    filter_by_input: bool,
    after: Seq<V>,
    end: V,
    first: int,
    last: int,
) -> bool {
    &&& 0 <= first <= last < before.len()
    &&& after.len() == before.len()
    &&& listed(before[first].text_view(), start.text_view(), filter_by_input)
    &&& forall|i: int|
        0 <= i < first && !listed(
            (#[trigger] before[i]).text_view(),
            start.text_view(),
            filter_by_input,
        ) ==> after[i] == before[i]
    &&& cloned(after[last], end)
}

/// The texts of `items`, each as its value names itself.
pub open spec fn texts_of<R: EditableResponse, V: Editable<R> + Clone>(items: Seq<V>) -> Seq<
    Seq<char>,
> {
    Seq::new(items.len(), |i: int| items[i].text_view())
}

/// A pass over no items picks nothing and leaves the value as it was.
pub proof fn lemma_no_items_no_pick<R: EditableResponse, V: Editable<R> + Clone>(
    before: Seq<V>,
    start: V,
    filter_by_input: bool,
    after: Seq<V>,
    end: V,
    changed: bool,
)
    requires
        before.len() == 0,
        pass_outcome::<R, V>(before, start, filter_by_input, after, end, changed),
    ensures
        !changed,
        end == start,
        after.len() == 0,
{
    if changed {
        let (first, last) = choose|first: int, last: int|
            picked_between::<R, V>(before, start, filter_by_input, after, end, first, last);
        assert(false);
    }
}

/// A pass in which nothing is picked while the rule lists no item leaves
/// every item and the value as they were; and where the rule lists no
/// item, nothing can be picked.
pub proof fn lemma_nothing_listed_nothing_done<R: EditableResponse, V: Editable<R> + Clone>(
    before: Seq<V>,
    start: V,
    filter_by_input: bool,
    after: Seq<V>,
    end: V,
    changed: bool,
)
    requires
        listing(texts_of::<R, V>(before), start.text_view(), filter_by_input).len() == 0,
        pass_outcome::<R, V>(before, start, filter_by_input, after, end, changed),
    ensures
        !changed,
        end == start,
        after == before,
{
    let texts = texts_of::<R, V>(before);
    let shown = listing(texts, start.text_view(), filter_by_input);
    crate::filter::lemma_listing_members(texts, start.text_view(), filter_by_input);
    assert forall|i: int| 0 <= i < before.len() implies !listed(
        (#[trigger] before[i]).text_view(),
        start.text_view(),
        filter_by_input,
    ) by {
        if listed(before[i].text_view(), start.text_view(), filter_by_input) {
            assert(texts[i] == before[i].text_view());
            assert(shown.contains(i));
            let k = choose|k: int| 0 <= k < shown.len() && shown[k] == i;
        }
    }
    if changed {
        let (first, last) = choose|first: int, last: int|
            picked_between::<R, V>(before, start, filter_by_input, after, end, first, last);
        assert(!listed(before[first].text_view(), start.text_view(), filter_by_input));
    }
    assert(after =~= before);
}

/// A frame in which nothing is picked and no item changes its text lists
/// in the next frame what it listed in this one.
pub proof fn lemma_idle_pass_repeats<R: EditableResponse, V: Editable<R> + Clone>(
    before: Seq<V>,
    start: V,
    filter_by_input: bool,
    after: Seq<V>,
    end: V,
)
    requires
        pass_outcome::<R, V>(before, start, filter_by_input, after, end, false),
        texts_of::<R, V>(after) == texts_of::<R, V>(before),
    ensures
        listing(texts_of::<R, V>(after), end.text_view(), filter_by_input) == listing(
            texts_of::<R, V>(before),
            start.text_view(),
            filter_by_input,
        ),
{
}

/// Takes `item` as the new value if it was clicked.
pub fn select<V: Clone>(current: &mut V, item: &V, hit: bool) -> (changed: bool)
    ensures
        changed == hit,
        hit ==> cloned(*item, *final(current)),
        !hit ==> *final(current) == *old(current),
{
    if hit {
        *current = item.clone();
    }
    hit
}

/// Gives one item its turn in the popup: leaves it out if the rule says
/// so, else draws it, and takes it as the new value if it was clicked.
/// A pick also asks the engine to close the popup.
pub fn item_turn<R: EditableResponse, V: Editable<R> + Clone>(
    ui: &mut egui::Ui,
    popup_id: egui::Id,
    item: &mut V,
    current: &mut V,
    filter_by_input: bool,
) -> (turn: Turn)
    ensures
        turn is Skipped <==> !listed(
            old(item).text_view(),
            old(current).text_view(),
            filter_by_input,
        ),
        turn is Skipped ==> *final(item) == *old(item) && *final(ui) == *old(ui),
        turn is Picked ==> cloned(*final(item), *final(current)),
        !(turn is Picked) ==> *final(current) == *old(current),
{
    if filter_by_input {
        let current_text = current.text();
        let item_text = item.text();
        if !is_listed(item_text.as_str(), current_text.as_str(), filter_by_input) {
            return Turn::Skipped;
        }
    }
    let response = item.show_uneditable(ui);
    if select(current, item, clicked(&response)) {
        close_popup(ui, popup_id);
        Turn::Picked
    } else {
        Turn::Shown
    }
}

/// Gives every item its turn, in order, and tells whether one was picked.
pub fn show_items<R: EditableResponse, V: Editable<R> + Clone>(
    ui: &mut egui::Ui,
    popup_id: egui::Id,
    items: &mut [V],
    current: &mut V,
    filter_by_input: bool,
) -> (changed: bool)
    ensures
        pass_outcome::<R, V>(
            old(items)@,
            *old(current),
            filter_by_input,
            final(items)@,
            *final(current),
            changed,
        ),
{
    let mut changed = false;
    let n = items.len();
    let ghost mut first: int = 0;
    let ghost mut last: int = 0;
    let mut i: usize = 0;
    while i < n
        invariant
            i <= n,
            n == items@.len(),
            n == old(items)@.len(),
            forall|j: int| i <= j < n ==> items@[j] == old(items)@[j],
            !changed ==> *current == *old(current),
            !changed ==> forall|j: int|
                0 <= j < i && !listed(
                    (#[trigger] old(items)@[j]).text_view(),
                    old(current).text_view(),
                    filter_by_input,
                ) ==> items@[j] == old(items)@[j],
            changed ==> 0 <= first <= last < i,
            changed ==> listed(
                old(items)@[first].text_view(),
                old(current).text_view(),
                filter_by_input,
            ),
            changed ==> forall|j: int|
                0 <= j < first && !listed(
                    (#[trigger] old(items)@[j]).text_view(),
                    old(current).text_view(),
                    filter_by_input,
                ) ==> items@[j] == old(items)@[j],
            changed ==> cloned(items@[last], *current),
        decreases n - i,
    {
        let turn = item_turn(ui, popup_id, &mut items[i], current, filter_by_input);
        if let Turn::Picked = turn {
            proof {
                if !changed {
                    first = i as int;
                }
                last = i as int;
            }
            changed = true;
        }
        i += 1;
    }
    proof {
        if changed {
            assert(picked_between::<R, V>(
                old(items)@,
                *old(current),
                filter_by_input,
                items@,
                *current,
                first,
                last,
            ));
        }
    }
    changed
}

/// Calls `ScrollArea::show` on a vertical scroll area of unbounded height,
/// with `show_items` as its contents. Trusted: the scroll area runs its
/// contents once and hands back what they returned, so that what
/// `show_items` ensures holds of the call.
#[verifier::external_body]
fn scroll_items<R: EditableResponse, V: Editable<R> + Clone>(
    ui: &mut egui::Ui,
    popup_id: egui::Id,
    items: &mut [V],
    current: &mut V,
    filter_by_input: bool,
) -> (changed: bool)
    ensures
        (pass_outcome::<R, V>(
            old(items)@,
            *old(current),
            filter_by_input,
            final(items)@,
            *final(current),
            changed,
        )),
{
    egui::ScrollArea::vertical()
        .max_height(egui::Vec2::INFINITY.y)
        .show(ui, |ui| show_items(ui, popup_id, items, current, filter_by_input))
        .inner
}

/// Fills the popup: bounds its height if a bound is set, then lists the
/// items in a scroll area.
pub fn popup_contents<R: EditableResponse, V: Editable<R> + Clone>(
    ui: &mut egui::Ui,
    popup_id: egui::Id,
    max_height: Option<egui::Vec2>,
    items: &mut [V],
    current: &mut V,
    filter_by_input: bool,
) -> (changed: bool)
    ensures
        pass_outcome::<R, V>(
            old(items)@,
            *old(current),
            filter_by_input,
            final(items)@,
            *final(current),
            changed,
        ),
{
    if let Some(limit) = max_height {
        set_max_height(ui, limit);
    }
    scroll_items(ui, popup_id, items, current, filter_by_input)
}

/// Calls `popup_below_widget`, closing on a click, with `popup_contents`
/// as the popup's contents. Trusted: the engine runs the contents once if
/// the popup is open and hands back what they returned, and does not run
/// them and returns `None` if it is closed.
#[verifier::external_body]
#[allow(deprecated)]
fn popup_below<R: EditableResponse, V: Editable<R> + Clone>(
    ui: &mut egui::Ui,
    popup_id: egui::Id,
    anchor: &egui::Response,
    max_height: Option<egui::Vec2>,
    items: &mut [V],
    current: &mut V,
    filter_by_input: bool,
) -> (shown: Option<bool>)
    ensures
        shown is None ==> final(items)@ == old(items)@ && *final(current) == *old(current),
        (shown is Some ==> pass_outcome::<R, V>(
            old(items)@,
            *old(current),
            filter_by_input,
            final(items)@,
            *final(current),
            shown->0,
        )),
{
    egui::popup_below_widget(ui, popup_id, anchor, egui::PopupCloseBehavior::CloseOnClick, |ui| {
        popup_contents(ui, popup_id, max_height, items, current, filter_by_input)
    })
}

/// Asks the engine to open the popup, if the edited control wants it in
/// this frame: the popup is then open in the engine's memory. Otherwise
/// leaves the engine alone.
pub fn open_when(ui: &mut egui::Ui, popup_id: egui::Id, wanted: bool)
    ensures
        wanted ==> popup_open(*final(ui), popup_id),
        !wanted ==> *final(ui) == *old(ui),
{
    if wanted {
        open_popup(ui, popup_id);
    }
}

/// Marks `response` as changed if an item was picked, and hands it back
/// untouched if none was.
pub fn report(response: egui::Response, changed: bool) -> (reported: egui::Response)
    ensures
        changed ==> reports_change(reported),
        !changed ==> reported == response,
{
    let mut reported = response;
    if changed {
        mark_changed(&mut reported);
    }
    reported
}

/// What showing a dropdown box reports back.
pub struct DropDownOutput {
    /// The engine's response for the edited control.
    pub response: egui::Response,
    /// Whether an item of the popup was picked in this frame.
    pub changed: bool,
}

/// Dropdown widget: an edited value and, in a popup below it, the items
/// that may take its place.
pub struct DropDownBox<'a, Resp: EditableResponse, V: Editable<Resp> + Clone> {
    current: &'a mut V,
    popup_id: egui::Id,
    items: &'a mut [V],
    hint_text: egui::WidgetText,
    filter_by_input: bool,
    max_height: Option<egui::Vec2>,
    _marker: std::marker::PhantomData<Resp>,
}

impl<'a, R: EditableResponse, V: Editable<R> + Clone> DropDownBox<'a, R, V> {
    /// The slot that holds the edited value.
    pub closed spec fn slot(&self) -> &'a mut V {
        self.current
    }

    /// The items that the popup offers.
    pub closed spec fn list(&self) -> &'a mut [V] {
        self.items
    }

    /// The key of the popup in the engine's memory.
    pub closed spec fn popup(&self) -> egui::Id {
        self.popup_id
    }

    /// The hint shown while the value is empty.
    pub closed spec fn hint(&self) -> egui::WidgetText {
        self.hint_text
    }

    /// Whether the popup is narrowed by what has been typed.
    pub closed spec fn filters(&self) -> bool {
        self.filter_by_input
    }

    /// The bound on the popup's height, if there is one.
    pub closed spec fn limit(&self) -> Option<egui::Vec2> {
        self.max_height
    }

    /// Creates new dropdown box over `items` and `current`. The popup is
    /// keyed by `id_source`, which must differ from that of every other
    /// popup on screen. The box filters by input and bounds no height.
    pub fn from_iter(
        items: &'a mut [V],
        id_source: impl std::hash::Hash,
        current: &'a mut V,
    ) -> (made: Self)
        ensures
            made.list()@ == old(items)@,
            final(made.list())@ == final(items)@,
            *made.slot() == *old(current),
            *final(made.slot()) == *final(current),
            made.filters(),
            made.limit() is None,
    {
        Self {
            popup_id: make_id(id_source),
            items,
            current,
            hint_text: no_hint(),
            filter_by_input: true,
            max_height: None,
            _marker: std::marker::PhantomData,
        }
    }

    /// Add a hint text to the Text Edit
    pub fn hint_text<T: Into<egui::WidgetText>>(self, hint_text: T) -> (made: Self)
        ensures
            T::obeys_into_spec() ==> made.hint() == hint_text.into_spec(),
            made.list() == self.list(),
            made.slot() == self.slot(),
            made.popup() == self.popup(),
            made.filters() == self.filters(),
            made.limit() == self.limit(),
    {
        let mut made = self;
        made.hint_text = hint_text.into();
        made
    }

    /// Determine whether to filter box items based on what is in the Text
    /// Edit already
    pub fn filter_by_input(self, filter_by_input: bool) -> (made: Self)
        ensures
            made.filters() == filter_by_input,
            made.list() == self.list(),
            made.slot() == self.slot(),
            made.popup() == self.popup(),
            made.hint() == self.hint(),
            made.limit() == self.limit(),
    {
        let mut made = self;
        made.filter_by_input = filter_by_input;
        made
    }

    /// Set a maximum height limit for the opened popup: the popup grows no
    /// taller than `size` is high.
    pub fn max_height(self, size: egui::Vec2) -> (made: Self)
        ensures
            made.limit() == Some(size),
            made.list() == self.list(),
            made.slot() == self.slot(),
            made.popup() == self.popup(),
            made.hint() == self.hint(),
            made.filters() == self.filters(),
    {
        let mut made = self;
        made.max_height = Some(size);
        made
    }

    /// Draws the box for one frame: the edited value, then, if the popup
    /// is open, the items below it. Tells whether an item was picked.
    ///
    /// The user may edit the value before the popup is drawn; `edited`
    /// stands for what the editing left in the slot.
    pub fn show(self, ui: &mut egui::Ui) -> (output: DropDownOutput)
        ensures
            exists|edited: V|
                pass_outcome::<R, V>(
                    self.list()@,
                    edited,
                    self.filters(),
                    final(self.list())@,
                    *final(self.slot()),
                    output.changed,
                ),
    {
        let Self { popup_id, current, items, hint_text, filter_by_input, max_height, _marker } =
            self;
        let edit_output = current.show_editable(ui, hint_str(&hint_text));
        let response = copy_response(edit_output.get_response());
        open_when(ui, popup_id, edit_output.show_popup());
        let ghost edited = *current;
        let shown = popup_below(
            ui,
            popup_id,
            &response,
            max_height,
            items,
            current,
            filter_by_input,
        );
        let changed = match shown {
            Some(changed) => changed,
            None => false,
        };
        let output = DropDownOutput { response, changed };
        proof {
            assert(pass_outcome::<R, V>(
                self.list()@,
                edited,
                self.filters(),
                final(self.list())@,
                *final(self.slot()),
                output.changed,
            ));
        }
        output
    }

    /// Draws the box for one frame and hands back the response of the
    /// edited control, marked as changed if an item was picked.
    pub fn ui(self, ui: &mut egui::Ui) -> (response: egui::Response)
        ensures
            exists|edited: V, changed: bool|
                {
                    &&& pass_outcome::<R, V>(
                        self.list()@,
                        edited,
                        self.filters(),
                        final(self.list())@,
                        *final(self.slot()),
                        changed,
                    )
                    &&& changed ==> reports_change(response)
                },
    {
        let output = self.show(ui);
        let ghost frame = choose|edited: V|
            pass_outcome::<R, V>(
                self.list()@,
                edited,
                self.filters(),
                final(self.list())@,
                *final(self.slot()),
                output.changed,
            );
        let response = report(output.response, output.changed);
        proof {
            assert(pass_outcome::<R, V>(
                self.list()@,
                frame,
                self.filters(),
                final(self.list())@,
                *final(self.slot()),
                output.changed,
            ) && (output.changed ==> reports_change(response)));
        }
        response
    }
}

} // verus!

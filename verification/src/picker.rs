//! The operator picker: a list of items that the runtime offers, with a
//! filter over what each item says of itself and actions bound to keys.
use vstd::prelude::*;

use crate::app::Panel;
use crate::chars::{
    ascii_lower, chars_of, concat3, contains_seq, is_blank, join, join_strings, lower_chars, lower_seq, occurs_at, owned,
    str_contains, string_of, trim, trim_string, views,
};

verus! {

/// The key that triggers a picker action.
#[derive(Debug, Clone, Copy, PartialEq, Eq, Structural)]
pub enum OperatorPickerShortcut {
    Enter,
    Ctrl(char),
}

/// Whether the picker stays open after an action runs.
#[derive(Debug, Clone, Copy, PartialEq, Eq, Structural)]
pub enum OperatorPickerOverlayBehavior {
    KeepOpen,
    CloseOverlay,
}

/// What an action does with the selected item.
#[derive(Debug, Clone, PartialEq, Eq)]
pub enum OperatorPickerIntent {
    OpenDetail,
    SubmitSlashCommand { command_template: String },
    RequestConfirmSlashCommand {
        title_template: String,
        message_template: String,
        confirm_label: String,
        command_template: String,
    },
    RefreshPicker,
    ClosePicker,
}

/// An action that the picker offers.
#[derive(Debug, Clone, PartialEq, Eq)]
pub struct OperatorPickerAction {
    pub action_id: String,
    pub label: String,
    pub shortcut: OperatorPickerShortcut,
    pub requires_selection: bool,
    pub overlay_behavior: OperatorPickerOverlayBehavior,
    pub intent: OperatorPickerIntent,
}

/// One entry of the picker.
#[derive(Debug, Clone, PartialEq, Eq)]
pub struct OperatorPickerItem {
    pub id: String,
    pub title: String,
    pub subtitle: Option<String>,
    pub badges: Vec<String>,
    pub preview: Option<String>,
    pub disabled_reason: Option<String>,
}

/// What the runtime asks the picker to show.
#[derive(Debug, Clone, PartialEq, Eq)]
pub struct OperatorPickerRequest {
    pub picker_id: String,
    pub title: String,
    pub empty_state: String,
    pub filter_enabled: bool,
    pub items: Vec<OperatorPickerItem>,
    pub primary_action: OperatorPickerAction,
    pub secondary_actions: Vec<OperatorPickerAction>,
}

/// The picker overlay: the request, which of its items pass the filter,
/// the filter being typed and the selected row among the visible items.
#[derive(Debug, Clone, PartialEq, Eq)]
pub struct PickerOverlay {
    pub origin_panel: Panel,
    pub request: OperatorPickerRequest,
    pub visible_item_indices: Vec<usize>,
    pub filter_query: String,
    pub filter_cursor_pos: usize,
    pub filter_mode: bool,
    pub selected: usize,
    pub dismiss_on_backdrop: bool,
}

/// Whether two items hold the same texts.
pub open spec fn same_item(a: OperatorPickerItem, b: OperatorPickerItem) -> bool {
    &&& a.id == b.id
    &&& a.title == b.title
    &&& a.subtitle == b.subtitle
    &&& a.badges@ == b.badges@
    &&& a.preview == b.preview
    &&& a.disabled_reason == b.disabled_reason
}

/// The text of an optional field, as a list of at most one part.
pub open spec fn opt_part(o: Option<String>) -> Seq<Seq<char>> {
    match o {
        Some(s) => seq![s@],
        None => Seq::empty(),
    }
}

/// What the filter searches in an item: its id, title, subtitle, preview,
/// reason for being disabled and badges, in that order.
pub open spec fn filter_parts(item: OperatorPickerItem) -> Seq<Seq<char>> {
    seq![item.id@, item.title@] + opt_part(item.subtitle) + opt_part(item.preview) + opt_part(
        item.disabled_reason,
    ) + views(item.badges@)
}

/// The parts of an item joined by spaces, ASCII lower-cased.
pub open spec fn filter_text(item: OperatorPickerItem) -> Seq<char> {
    lower_seq(join(filter_parts(item), " "@))
}

/// The filter as it is matched: trimmed and ASCII lower-cased.
pub open spec fn query_key(query: Seq<char>) -> Seq<char> {
    lower_seq(trim(query))
}

/// Whether an item passes the filter key `key`: every item passes an empty
/// key; otherwise the key must occur in the item's filter text.
pub open spec fn item_matches(item: OperatorPickerItem, key: Seq<char>) -> bool {
    key.len() == 0 || contains_seq(filter_text(item), key)
}

/// The positions, among the first `n` items, of those that pass `key`, in
/// order.
pub open spec fn visible_upto(items: Seq<OperatorPickerItem>, key: Seq<char>, n: int) -> Seq<usize>
    decreases n,
{
    if n <= 0 {
        Seq::empty()
    } else {
        let prev = visible_upto(items, key, n - 1);
        if item_matches(items[n - 1], key) {
            prev.push((n - 1) as usize)
        } else {
            prev
        }
    }
}

/// The positions of all the items of `request` that pass the filter `query`.
pub open spec fn visible_items(request: OperatorPickerRequest, query: Seq<char>) -> Seq<usize> {
    visible_upto(request.items@, query_key(query), request.items@.len() as int)
}

/// The selection kept within `len` visible rows: the first row when there
/// are none, else the last row at most.
pub open spec fn clamped_selection(selected: usize, len: nat) -> usize {
    if len == 0 {
        0
    } else if selected < len {
        selected
    } else {
        (len - 1) as usize
    }
}

/// The first of `actions` bound to `shortcut`.
pub open spec fn first_with_shortcut(
    actions: Seq<OperatorPickerAction>,
    shortcut: OperatorPickerShortcut,
) -> Option<OperatorPickerAction>
    decreases actions.len(),
{
    if actions.len() == 0 {
        None
    } else if actions[0].shortcut == shortcut {
        Some(actions[0])
    } else {
        first_with_shortcut(actions.drop_first(), shortcut)
    }
}

/// The action that `shortcut` triggers: the primary action when it is
/// bound to it, else the first secondary action that is.
pub open spec fn shortcut_action(request: OperatorPickerRequest, shortcut: OperatorPickerShortcut) -> Option<
    OperatorPickerAction,
> {
    if request.primary_action.shortcut == shortcut {
        Some(request.primary_action)
    } else {
        first_with_shortcut(request.secondary_actions@, shortcut)
    }
}

proof fn lemma_all_visible(items: Seq<OperatorPickerItem>, key: Seq<char>, n: int)
    requires
        key.len() == 0,
        0 <= n <= items.len(),
        items.len() <= usize::MAX,
    ensures
        visible_upto(items, key, n).len() == n,
        forall|k: int| 0 <= k < n ==> #[trigger] visible_upto(items, key, n)[k] == k,
    decreases n,
{
    if n > 0 {
        lemma_all_visible(items, key, n - 1);
    }
}

/// A filter that is blank once trimmed shows every item, in order.
pub proof fn law_blank_filter_shows_every_item(request: OperatorPickerRequest, query: Seq<char>)
    requires
        trim(query).len() == 0,
        request.items@.len() <= usize::MAX,
    ensures
        visible_items(request, query).len() == request.items@.len(),
        forall|k: int| 0 <= k < request.items@.len() ==> #[trigger] visible_items(request, query)[k] == k,
{
    lemma_all_visible(request.items@, query_key(query), request.items@.len() as int);
}

proof fn lemma_part_occurs_in_join(parts: Seq<Seq<char>>, sep: Seq<char>, m: int) -> (off: int)
    requires
        0 <= m < parts.len(),
    ensures
        occurs_at(join(parts, sep), parts[m], off),
    decreases parts.len(),
{
    let whole = join(parts, sep);
    if parts.len() == 1 {
        assert(whole.subrange(0, parts[0].len() as int) =~= parts[0]);
        0
    } else {
        let head = join(parts.drop_last(), sep);
        if m == parts.len() - 1 {
            let at: int = (head.len() + sep.len()) as int;
            assert(whole.subrange(at, at + parts[m].len()) =~= parts[m]);
            at
        } else {
            let at = lemma_part_occurs_in_join(parts.drop_last(), sep, m);
            assert(whole.subrange(at, at + parts[m].len()) =~= head.subrange(at, at + parts[m].len()));
            at
        }
    }
}

proof fn lemma_occurs_within(s: Seq<char>, p: Seq<char>, q: Seq<char>, i: int, j: int)
    requires
        occurs_at(s, p, i),
        occurs_at(p, q, j),
    ensures
        occurs_at(s, q, i + j),
{
    assert(s.subrange(i + j, i + j + q.len()) =~= p.subrange(j, j + q.len()));
}

proof fn lemma_lower_occurs(s: Seq<char>, p: Seq<char>, i: int)
    requires
        occurs_at(s, p, i),
    ensures
        occurs_at(lower_seq(s), lower_seq(p), i),
{
    assert(lower_seq(s).subrange(i, i + p.len()) =~= lower_seq(s.subrange(i, i + p.len())));
}

proof fn lemma_matching_item_visible(items: Seq<OperatorPickerItem>, key: Seq<char>, n: int, k: usize)
    requires
        k < n <= items.len(),
        item_matches(items[k as int], key),
    ensures
        visible_upto(items, key, n).contains(k),
    decreases n,
{
    let shown = visible_upto(items, key, n);
    if n - 1 == k {
        assert(shown.last() == k);
    } else {
        lemma_matching_item_visible(items, key, n - 1, k);
        let prev = visible_upto(items, key, n - 1);
        let i = choose|i: int| 0 <= i < prev.len() && prev[i] == k;
        assert(shown[i] == k);
    }
}

/// Whether `field` is one of the texts that `item` shows: its id, title,
/// subtitle, preview, reason for being disabled or one of its badges.
pub open spec fn shows_text(item: OperatorPickerItem, field: Seq<char>) -> bool {
    ||| field == item.id@
    ||| field == item.title@
    ||| (item.subtitle matches Some(t) && t@ == field)
    ||| (item.preview matches Some(t) && t@ == field)
    ||| (item.disabled_reason matches Some(t) && t@ == field)
    ||| exists|j: int| 0 <= j < item.badges@.len() && #[trigger] item.badges@[j]@ == field
}

/// An item stays visible after the filter is applied when the trimmed,
/// ASCII lower-cased filter occurs, ASCII lower-cased, in any one of the
/// texts it shows: its id, title, subtitle, preview, reason for being
/// disabled or a badge.
pub proof fn law_filter_finds_item_by_any_field(before: PickerOverlay, after: PickerOverlay, k: usize, field: Seq<char>)
    requires
        before.refreshed(after),
        k < before.request.items@.len(),
        shows_text(before.request.items@[k as int], field),
        contains_seq(lower_seq(field), lower_seq(trim(before.filter_query@))),
    ensures
        after.visible_item_indices@.contains(k),
{
    let items = before.request.items@;
    let item = items[k as int];
    let key = query_key(before.filter_query@);
    let parts = filter_parts(item);
    let sub = opt_part(item.subtitle).len() as int;
    let pre = opt_part(item.preview).len() as int;
    let dis = opt_part(item.disabled_reason).len() as int;
    let m: int = if field == item.id@ {
        0
    } else if field == item.title@ {
        1
    } else if item.subtitle matches Some(t) && t@ == field {
        2
    } else if item.preview matches Some(t) && t@ == field {
        2 + sub
    } else if item.disabled_reason matches Some(t) && t@ == field {
        2 + sub + pre
    } else {
        let j = choose|j: int| 0 <= j < item.badges@.len() && #[trigger] item.badges@[j]@ == field;
        assert(views(item.badges@)[j] == field);
        2 + sub + pre + dis + j
    };
    assert(0 <= m < parts.len() && parts[m] == field);
    let off = lemma_part_occurs_in_join(parts, " "@, m);
    lemma_lower_occurs(join(parts, " "@), field, off);
    let j = choose|j: int| occurs_at(lower_seq(field), key, j);
    lemma_occurs_within(filter_text(item), lower_seq(field), key, off, j);
    assert(item_matches(item, key));
    lemma_matching_item_visible(items, key, items.len() as int, k);
}

proof fn lemma_visible_item_matches(items: Seq<OperatorPickerItem>, key: Seq<char>, n: int, k: usize)
    requires
        0 <= n <= items.len(),
        items.len() <= usize::MAX,
        visible_upto(items, key, n).contains(k),
    ensures
        k < n,
        item_matches(items[k as int], key),
    decreases n,
{
    if n > 0 {
        let prev = visible_upto(items, key, n - 1);
        let shown = visible_upto(items, key, n);
        let i = choose|i: int| 0 <= i < shown.len() && shown[i] == k;
        if item_matches(items[n - 1], key) && i == prev.len() {
            assert(k == n - 1);
        } else {
            assert(prev[i] == k);
            lemma_visible_item_matches(items, key, n - 1, k);
        }
    }
}

/// Where a key without spaces occurs in the lower-cased parts joined by
/// spaces, it occurs within one lower-cased part.
proof fn lemma_spaceless_key_in_one_part(parts: Seq<Seq<char>>, key: Seq<char>, i: int) -> (found: (int, int))
    requires
        key.len() > 0,
        forall|c: int| 0 <= c < key.len() ==> key[c] != ' ',
        occurs_at(lower_seq(join(parts, " "@)), key, i),
    ensures
        0 <= found.0 < parts.len(),
        occurs_at(lower_seq(parts[found.0]), key, found.1),
    decreases parts.len(),
{
    reveal_strlit(" ");
    let whole = lower_seq(join(parts, " "@));
    if parts.len() == 1 {
        (0, i)
    } else {
        let head = join(parts.drop_last(), " "@);
        let last = parts.last();
        let hl = head.len() as int;
        assert(whole =~= lower_seq(head) + seq![' '] + lower_seq(last));
        if i + key.len() <= hl {
            assert(lower_seq(head).subrange(i, i + key.len()) =~= whole.subrange(i, i + key.len()));
            let (m, j) = lemma_spaceless_key_in_one_part(parts.drop_last(), key, i);
            assert(parts.drop_last()[m] == parts[m]);
            (m, j)
        } else if i >= hl + 1 {
            let j = i - hl - 1;
            assert(lower_seq(last).subrange(j, j + key.len()) =~= whole.subrange(i, i + key.len()));
            ((parts.len() - 1) as int, j)
        } else {
            assert(whole.subrange(i, i + key.len())[hl - i] == whole[hl]);
            assert(key[hl - i] == ' ');
            (0, 0)
        }
    }
}

/// The part of an item's filter parts at position `m` is one of the texts
/// the item shows.
proof fn lemma_part_is_shown(item: OperatorPickerItem, m: int)
    requires
        0 <= m < filter_parts(item).len(),
    ensures
        shows_text(item, filter_parts(item)[m]),
{
    let parts = filter_parts(item);
    let sub = opt_part(item.subtitle).len() as int;
    let pre = opt_part(item.preview).len() as int;
    let dis = opt_part(item.disabled_reason).len() as int;
    if m >= 2 + sub + pre + dis {
        let j = m - (2 + sub + pre + dis);
        assert(parts[m] == views(item.badges@)[j]);
        assert(item.badges@[j]@ == parts[m]);
    }
}

/// With a filter that holds no space once trimmed, an item none of whose
/// texts (id, title, subtitle, preview, reason for being disabled, badges)
/// contains the filter, both ASCII lower-cased, is hidden once the filter
/// is applied.
pub proof fn law_filter_hides_item_without_match(before: PickerOverlay, after: PickerOverlay, k: usize)
    requires
        before.refreshed(after),
        k < before.request.items@.len() <= usize::MAX,
        trim(before.filter_query@).len() > 0,
        forall|c: int| 0 <= c < trim(before.filter_query@).len() ==> trim(before.filter_query@)[c] != ' ',
        forall|field: Seq<char>|
            #[trigger] shows_text(before.request.items@[k as int], field) ==> !contains_seq(
                lower_seq(field),
                lower_seq(trim(before.filter_query@)),
            ),
    ensures
        !after.visible_item_indices@.contains(k),
{
    let items = before.request.items@;
    let item = items[k as int];
    let t = trim(before.filter_query@);
    let key = query_key(before.filter_query@);
    assert forall|c: int| 0 <= c < key.len() implies key[c] != ' ' by {
        assert(key[c] == ascii_lower(t[c]));
    }
    if after.visible_item_indices@.contains(k) {
        lemma_visible_item_matches(items, key, items.len() as int, k);
        let i = choose|i: int| occurs_at(filter_text(item), key, i);
        let (m, j) = lemma_spaceless_key_in_one_part(filter_parts(item), key, i);
        lemma_part_is_shown(item, m);
        assert(contains_seq(lower_seq(filter_parts(item)[m]), key));
    }
}

/// `picker_item_filter_text`: the text the filter searches in an item.
fn picker_item_filter_text(item: &OperatorPickerItem) -> (r: String)
    ensures
        r@ == filter_text(*item),
{
    let mut parts: Vec<String> = Vec::new();
    parts.push(owned(item.id.as_str()));
    parts.push(owned(item.title.as_str()));
    proof {
        assert(views(parts@) =~= seq![item.id@, item.title@]);
    }
    let ghost base0 = views(parts@);
    match &item.subtitle {
        Some(s) => {
            parts.push(owned(s.as_str()));
            proof {
                assert(views(parts@) =~= base0 + opt_part(item.subtitle));
            }
        },
        None => {
            proof {
                assert(views(parts@) =~= base0 + opt_part(item.subtitle));
            }
        },
    }
    let ghost base1 = views(parts@);
    match &item.preview {
        Some(s) => {
            parts.push(owned(s.as_str()));
            proof {
                assert(views(parts@) =~= base1 + opt_part(item.preview));
            }
        },
        None => {
            proof {
                assert(views(parts@) =~= base1 + opt_part(item.preview));
            }
        },
    }
    let ghost base2 = views(parts@);
    match &item.disabled_reason {
        Some(s) => {
            parts.push(owned(s.as_str()));
            proof {
                assert(views(parts@) =~= base2 + opt_part(item.disabled_reason));
            }
        },
        None => {
            proof {
                assert(views(parts@) =~= base2 + opt_part(item.disabled_reason));
            }
        },
    }
    let ghost base = views(parts@);
    let mut i: usize = 0;
    while i < item.badges.len()
        invariant
            i <= item.badges@.len(),
            views(parts@) == base + views(item.badges@.take(i as int)),
        decreases item.badges.len() - i,
    {
        let ghost before = parts@;
        parts.push(owned(item.badges[i].as_str()));
        proof {
            assert(views(parts@) =~= views(before).push(item.badges@[i as int]@));
            assert(views(item.badges@.take(i + 1)) =~= views(item.badges@.take(i as int)).push(
                item.badges@[i as int]@,
            ));
        }
        i = i + 1;
    }
    proof {
        assert(item.badges@.take(item.badges@.len() as int) =~= item.badges@);
        assert(views(parts@) =~= filter_parts(*item));
    }
    let joined = join_strings(&parts, " ");
    let lowered = lower_chars(&chars_of(joined.as_str()));
    string_of(lowered.as_slice())
}

impl PickerOverlay {
    /// Whether `p` is `self` with the visible items recomputed from the
    /// current filter and the selection kept within them.
    pub open spec fn refreshed(self, p: PickerOverlay) -> bool {
        let shown = visible_items(self.request, self.filter_query@);
        &&& p.visible_item_indices@ == shown
        &&& p.selected == clamped_selection(self.selected, shown.len())
        &&& p == (PickerOverlay {
            visible_item_indices: p.visible_item_indices,
            selected: p.selected,
            ..self
        })
    }

    /// Whether `p` is a fresh picker for `request` opened over `origin`:
    /// no filter, every item visible, the first row selected, and a click
    /// outside closes it.
    pub open spec fn is_fresh(p: PickerOverlay, origin: Panel, request: OperatorPickerRequest) -> bool {
        &&& p.origin_panel == origin
        &&& p.request == request
        &&& p.visible_item_indices@ == visible_items(request, Seq::empty())
        &&& p.filter_query@ == Seq::<char>::empty()
        &&& p.filter_cursor_pos == 0
        &&& !p.filter_mode
        &&& p.selected == 0
        &&& p.dismiss_on_backdrop
    }

    /// The item shown at visible row `k`, if there is one.
    pub open spec fn spec_visible_item(self, k: int) -> Option<OperatorPickerItem> {
        if 0 <= k < self.visible_item_indices@.len() && self.visible_item_indices@[k]
            < self.request.items@.len() {
            Some(self.request.items@[self.visible_item_indices@[k] as int])
        } else {
            None
        }
    }

    /// A picker for `request` over `origin_panel`, with every item visible.
    pub fn new(origin_panel: Panel, request: OperatorPickerRequest) -> (r: Self)
        ensures
            PickerOverlay::is_fresh(r, origin_panel, request),
    {
        let mut overlay = PickerOverlay {
            origin_panel,
            request,
            visible_item_indices: Vec::new(),
            filter_query: String::new(),
            filter_cursor_pos: 0,
            filter_mode: false,
            selected: 0,
            dismiss_on_backdrop: true,
        };
        overlay.refresh_visible_items();
        overlay
    }

    /// The picker's title.
    pub fn title(&self) -> (r: &str)
        ensures
            r@ == self.request.title@,
    {
        self.request.title.as_str()
    }

    /// Whether the request lets the operator filter the items.
    pub fn filter_enabled(&self) -> (r: bool)
        ensures
            r == self.request.filter_enabled,
    {
        self.request.filter_enabled
    }

    /// The item at visible row `visible_index`.
    pub fn visible_item(&self, visible_index: usize) -> (r: Option<&OperatorPickerItem>)
        ensures
            r.is_some() == self.spec_visible_item(visible_index as int).is_some(),
            r matches Some(item) ==> *item == self.spec_visible_item(visible_index as int).unwrap(),
    {
        if visible_index < self.visible_item_indices.len() {
            let item_index = self.visible_item_indices[visible_index];
            if item_index < self.request.items.len() {
                return Some(&self.request.items[item_index]);
            }
        }
        None
    }

    /// The item on the selected row.
    pub fn selected_item(&self) -> (r: Option<&OperatorPickerItem>)
        ensures
            r.is_some() == self.spec_visible_item(self.selected as int).is_some(),
            r matches Some(item) ==> *item == self.spec_visible_item(self.selected as int).unwrap(),
    {
        self.visible_item(self.selected)
    }

    /// How many items pass the filter.
    pub fn visible_items_len(&self) -> (r: usize)
        ensures
            r == self.visible_item_indices@.len(),
    {
        self.visible_item_indices.len()
    }

    /// Selects the row above (staying on the first) and leaves filter mode.
    pub fn move_selection_up(&mut self)
        ensures
            *final(self) == (PickerOverlay {
                selected: if old(self).selected == 0 {
                    0
                } else {
                    (old(self).selected - 1) as usize
                },
                filter_mode: false,
                ..*old(self)
            }),
    {
        if self.selected > 0 {
            self.selected = self.selected - 1;
        }
        self.filter_mode = false;
    }

    /// Selects the row below (staying on the last) and leaves filter mode.
    pub fn move_selection_down(&mut self)
        ensures
            *final(self) == (PickerOverlay {
                selected: if old(self).visible_item_indices@.len() == 0 {
                    old(self).selected
                } else if old(self).selected + 1 < old(self).visible_item_indices@.len() {
                    (old(self).selected + 1) as usize
                } else {
                    (old(self).visible_item_indices@.len() - 1) as usize
                },
                filter_mode: false,
                ..*old(self)
            }),
    {
        let n = self.visible_item_indices.len();
        if n > 0 {
            if self.selected < n - 1 {
                self.selected = self.selected + 1;
            } else {
                self.selected = n - 1;
            }
        }
        self.filter_mode = false;
    }

    /// The action that `shortcut` triggers.
    pub fn action_for_shortcut(&self, shortcut: OperatorPickerShortcut) -> (r: Option<
        &OperatorPickerAction,
    >)
        ensures
            r.is_some() == shortcut_action(self.request, shortcut).is_some(),
            r matches Some(a) ==> *a == shortcut_action(self.request, shortcut).unwrap(),
    {
        if self.request.primary_action.shortcut == shortcut {
            return Some(&self.request.primary_action);
        }
        let actions = &self.request.secondary_actions;
        proof {
            assert(actions@.skip(0) =~= actions@);
        }
        let mut i: usize = 0;
        while i < actions.len()
            invariant
                i <= actions@.len(),
                actions@ == self.request.secondary_actions@,
                self.request.primary_action.shortcut != shortcut,
                first_with_shortcut(actions@, shortcut) == first_with_shortcut(
                    actions@.skip(i as int),
                    shortcut,
                ),
            decreases actions.len() - i,
        {
            proof {
                assert(actions@.skip(i as int).drop_first() =~= actions@.skip(i + 1));
                assert(actions@.skip(i as int)[0] == actions@[i as int]);
            }
            if actions[i].shortcut == shortcut {
                return Some(&actions[i]);
            }
            i = i + 1;
        }
        proof {
            assert(actions@.skip(i as int).len() == 0);
        }
        None
    }

    /// What the list says when no item is visible: the request's own text
    /// without a filter, else that nothing matches the filter.
    pub fn empty_state_text(&self) -> (r: String)
        ensures
            r@ == if trim(self.filter_query@).len() == 0 {
                self.request.empty_state@
            } else {
                "No matches for '"@ + self.filter_query@ + "'."@
            },
    {
        if is_blank(self.filter_query.as_str()) {
            owned(self.request.empty_state.as_str())
        } else {
            concat3("No matches for '", self.filter_query.as_str(), "'.")
        }
    }

    /// Starts typing a filter, when the request allows one.
    pub fn enter_filter_mode(&mut self)
        ensures
            *final(self) == (PickerOverlay {
                filter_mode: old(self).filter_mode || old(self).request.filter_enabled,
                ..*old(self)
            }),
    {
        if self.request.filter_enabled {
            self.filter_mode = true;
        }
    }

    /// Applies the filter typed so far and stays in filter mode.
    pub fn apply_filter_query(&mut self)
        ensures
            old(self).refreshed(PickerOverlay { filter_mode: old(self).filter_mode, ..*final(self) }),
            final(self).filter_mode,
    {
        self.refresh_visible_items();
        self.filter_mode = true;
    }

    /// Recomputes which items pass the filter and keeps the selection within
    /// them.
    fn refresh_visible_items(&mut self)
        ensures
            old(self).refreshed(*final(self)),
    {
        let key_text = trim_string(self.filter_query.as_str());
        let key_chars = lower_chars(&chars_of(key_text.as_str()));
        let key = string_of(key_chars.as_slice());
        let ghost k = query_key(self.filter_query@);
        assert(key@ == k);
        let empty = key_chars.len() == 0;
        let items = &self.request.items;
        let mut shown: Vec<usize> = Vec::new();
        let mut i: usize = 0;
        while i < items.len()
            invariant
                i <= items@.len(),
                key@ == k,
                empty == (k.len() == 0),
                shown@ == visible_upto(items@, k, i as int),
            decreases items.len() - i,
        {
            let pass = if empty {
                true
            } else {
                let text = picker_item_filter_text(&items[i]);
                str_contains(text.as_str(), key.as_str())
            };
            if pass {
                shown.push(i);
            }
            i = i + 1;
        }
        let n = shown.len();
        self.visible_item_indices = shown;
        if n == 0 {
            self.selected = 0;
        } else if self.selected >= n {
            self.selected = n - 1;
        }
    }
}

} // verus!

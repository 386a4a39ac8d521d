use vstd::prelude::*;
use vstd::string::StringExecFns;

verus! {

/// The operating system family a menu is assembled for.
#[derive(Clone, Copy, Debug, PartialEq, Eq, Structural)]
pub enum Platform {
    MacOs,
    Windows,
    Linux,
}

/// Menu entries whose behaviour the host toolkit supplies.
#[derive(Clone, Copy, Debug, PartialEq, Eq, Structural)]
pub enum PredefinedKind {
    About,
    Quit,
    Hide,
    HideOthers,
    ShowAll,
    Services,
    Minimize,
    Maximize,
    CloseWindow,
    Fullscreen,
    Cut,
    Copy,
    Paste,
}

/// One node of a menu.
#[derive(Debug, PartialEq, Eq)]
pub enum MenuEntry {
    /// A clickable item, named by its identifier.
    Action { id: String, label: String, accelerator: Option<String>, enabled: bool },
    /// A dividing line.
    Separator,
    /// A nested menu.
    Submenu { label: String, children: Vec<MenuEntry> },
    /// An item the toolkit implements itself.
    Predefined { kind: PredefinedKind },
}

/// The mathematical value of a [`MenuEntry`]: strings as character sequences,
/// children as a sequence of entry values.
pub enum EntryView {
    Action { id: Seq<char>, label: Seq<char>, accelerator: Option<Seq<char>>, enabled: bool },
    Separator,
    Submenu { label: Seq<char>, children: Seq<EntryView> },
    Predefined { kind: PredefinedKind },
}

/// The value of an optional string.
pub open spec fn opt_text(s: Option<String>) -> Option<Seq<char>> {
    match s {
        Some(t) => Some(t@),
        None => None,
    }
}

impl View for MenuEntry {
    type V = EntryView;

    open spec fn view(&self) -> EntryView
        decreases self, 0int,
    {
        match self {
            MenuEntry::Action { id, label, accelerator, enabled } => EntryView::Action {
                id: id@,
                label: label@,
                accelerator: opt_text(*accelerator),
                enabled: *enabled,
            },
            MenuEntry::Separator => EntryView::Separator,
            MenuEntry::Submenu { label, children } => EntryView::Submenu {
                label: label@,
                children: entry_views(children@),
            },
            MenuEntry::Predefined { kind } => EntryView::Predefined { kind: *kind },
        }
    }
}

/// The values of a sequence of entries, in order.
pub open spec fn entry_views(entries: Seq<MenuEntry>) -> Seq<EntryView>
    decreases entries, 1int,
{
    Seq::new(
        entries.len(),
        |i: int|
            if 0 <= i < entries.len() {
                entries[i]@
            } else {
                EntryView::Separator
            },
    )
}

/// The identifiers of the action entries at and below `entry`, in display order.
pub open spec fn entry_ids(entry: EntryView) -> Seq<Seq<char>>
    decreases entry, 0int,
{
    match entry {
        EntryView::Action { id, .. } => seq![id],
        EntryView::Submenu { children, .. } => seq_ids(children),
        _ => Seq::empty(),
    }
}

/// The identifiers of the action entries in `entries`, in display order.
pub open spec fn seq_ids(entries: Seq<EntryView>) -> Seq<Seq<char>>
    decreases entries, 1int,
{
    if entries.len() == 0 {
        Seq::empty()
    } else {
        seq_ids(entries.drop_last()) + entry_ids(entries.last())
    }
}

/// `entry` with the enabled flag of every action named `id` set to `enabled`.
pub open spec fn entry_with_enabled(entry: EntryView, id: Seq<char>, enabled: bool) -> EntryView
    decreases entry, 0int,
{
    match entry {
        EntryView::Action { id: own, label, accelerator, enabled: was } => EntryView::Action {
            id: own,
            label,
            accelerator,
            enabled: if own == id { enabled } else { was },
        },
        EntryView::Submenu { label, children } => EntryView::Submenu {
            label,
            children: seq_with_enabled(children, id, enabled),
        },
        EntryView::Separator => entry,
        EntryView::Predefined { .. } => entry,
    }
}

/// `entries` with the enabled flag of every action named `id` set to `enabled`.
pub open spec fn seq_with_enabled(entries: Seq<EntryView>, id: Seq<char>, enabled: bool) -> Seq<EntryView>
    decreases entries, 1int,
{
    Seq::new(
        entries.len(),
        |i: int|
            if 0 <= i < entries.len() {
                entry_with_enabled(entries[i], id, enabled)
            } else {
                EntryView::Separator
            },
    )
}

} // verus!

verus! {

/// A whole menu: its top-level entries, in display order.
#[derive(Debug, PartialEq, Eq)]
pub struct MenuTree {
    pub entries: Vec<MenuEntry>,
}

impl View for MenuTree {
    type V = Seq<EntryView>;

    open spec fn view(&self) -> Seq<EntryView> {
        entry_views(self.entries@)
    }
}

/// A menu is well formed when every top-level entry is a submenu and no
/// identifier names two action entries.
pub open spec fn well_formed(menu: Seq<EntryView>) -> bool {
    &&& forall|i: int| 0 <= i < menu.len() ==> #[trigger] menu[i] is Submenu
    &&& seq_ids(menu).no_duplicates()
}

/// Appending an entry appends its identifiers.
pub broadcast proof fn lemma_seq_ids_push(entries: Seq<EntryView>, entry: EntryView)
    ensures
        #[trigger] seq_ids(entries.push(entry)) == seq_ids(entries) + entry_ids(entry),
{
    assert(entries.push(entry).drop_last() =~= entries);
}

/// The identifiers of a concatenation are the concatenated identifiers.
pub broadcast proof fn lemma_seq_ids_concat(front: Seq<EntryView>, back: Seq<EntryView>)
    ensures
        #[trigger] seq_ids(front + back) == seq_ids(front) + seq_ids(back),
    decreases back.len(),
{
    if back.len() == 0 {
        assert(front + back =~= front);
        assert(seq_ids(front) + seq_ids(back) =~= seq_ids(front));
    } else {
        lemma_seq_ids_concat(front, back.drop_last());
        assert((front + back).drop_last() =~= front + back.drop_last());
        assert((front + back).last() == back.last());
        assert(seq_ids(front + back) =~= seq_ids(front) + seq_ids(back));
    }
}

/// Setting the flag of an identifier neither adds, removes nor renames an entry.
pub proof fn lemma_with_enabled_keeps_ids(entry: EntryView, id: Seq<char>, enabled: bool)
    ensures
        entry_ids(entry_with_enabled(entry, id, enabled)) == entry_ids(entry),
    decreases entry, 0int,
{
    match entry {
        EntryView::Submenu { children, .. } => {
            lemma_seq_with_enabled_keeps_ids(children, id, enabled);
        },
        _ => {},
    }
}

/// Setting the flag of an identifier leaves the identifiers of a sequence as they were.
pub proof fn lemma_seq_with_enabled_keeps_ids(entries: Seq<EntryView>, id: Seq<char>, enabled: bool)
    ensures
        seq_ids(seq_with_enabled(entries, id, enabled)) == seq_ids(entries),
    decreases entries, 1int,
{
    if entries.len() > 0 {
        let changed = seq_with_enabled(entries, id, enabled);
        assert(changed.drop_last() =~= seq_with_enabled(entries.drop_last(), id, enabled));
        lemma_seq_with_enabled_keeps_ids(entries.drop_last(), id, enabled);
        lemma_with_enabled_keeps_ids(entries.last(), id, enabled);
    }
}

/// Where no action carries the identifier, setting its flag changes nothing.
pub proof fn lemma_absent_id_changes_nothing(entry: EntryView, id: Seq<char>, enabled: bool)
    requires
        !entry_ids(entry).contains(id),
    ensures
        entry_with_enabled(entry, id, enabled) == entry,
    decreases entry, 0int,
{
    match entry {
        EntryView::Action { id: own, .. } => {
            assert(seq![own][0] == own);
        },
        EntryView::Submenu { children, .. } => {
            lemma_seq_absent_id_changes_nothing(children, id, enabled);
        },
        _ => {},
    }
}

/// Where no action of a sequence carries the identifier, setting its flag changes nothing.
pub proof fn lemma_seq_absent_id_changes_nothing(entries: Seq<EntryView>, id: Seq<char>, enabled: bool)
    requires
        !seq_ids(entries).contains(id),
    ensures
        seq_with_enabled(entries, id, enabled) == entries,
    decreases entries, 1int,
{
    let changed = seq_with_enabled(entries, id, enabled);
    assert forall|i: int| 0 <= i < entries.len() implies changed[i] == entries[i] by {
        lemma_ids_of_member(entries, i);
        if entry_ids(entries[i]).contains(id) {
            let k = choose|k: int| 0 <= k < entry_ids(entries[i]).len() && entry_ids(entries[i])[k] == id;
            assert(entry_ids(entries[i])[k] == id);
            assert(seq_ids(entries).contains(id));
        }
        lemma_absent_id_changes_nothing(entries[i], id, enabled);
    }
    assert(changed =~= entries);
}

/// Every identifier below a member of a sequence is an identifier of the sequence.
pub proof fn lemma_ids_of_member(entries: Seq<EntryView>, i: int)
    requires
        0 <= i < entries.len(),
    ensures
        forall|x: Seq<char>| entry_ids(entries[i]).contains(x) ==> seq_ids(entries).contains(x),
    decreases entries.len(),
{
    let front = seq_ids(entries.drop_last());
    let back = entry_ids(entries.last());
    assert forall|x: Seq<char>| entry_ids(entries[i]).contains(x) implies seq_ids(entries).contains(x) by {
        if i == entries.len() - 1 {
            let k = choose|k: int| 0 <= k < back.len() && back[k] == x;
            assert((front + back)[front.len() + k] == x);
        } else {
            lemma_ids_of_member(entries.drop_last(), i);
            assert(entries.drop_last()[i] == entries[i]);
            assert(entry_ids(entries.drop_last()[i]).contains(x));
            assert(front.contains(x));
            let k = choose|k: int| 0 <= k < front.len() && front[k] == x;
            assert((front + back)[k] == x);
        }
    }
}

/// Every identifier of a sequence lies below one of its members.
pub proof fn lemma_member_of_ids(entries: Seq<EntryView>, x: Seq<char>)
    requires
        seq_ids(entries).contains(x),
    ensures
        exists|i: int| 0 <= i < entries.len() && #[trigger] entry_ids(entries[i]).contains(x),
    decreases entries.len(),
{
    if entries.len() > 0 {
        let front = seq_ids(entries.drop_last());
        let back = entry_ids(entries.last());
        let k = choose|k: int| 0 <= k < (front + back).len() && (front + back)[k] == x;
        if k < front.len() {
            assert(front[k] == x);
            lemma_member_of_ids(entries.drop_last(), x);
            let i = choose|i: int| 0 <= i < entries.drop_last().len() && #[trigger] entry_ids(entries.drop_last()[i]).contains(x);
            assert(entries.drop_last()[i] == entries[i]);
            assert(entry_ids(entries[i]).contains(x));
        } else {
            assert(back[k - front.len()] == x);
            assert(entry_ids(entries[entries.len() - 1]).contains(x));
        }
    }
}

} // verus!

verus! {

/// An enabled action entry without a keyboard shortcut.
pub open spec fn item(id: Seq<char>, label: Seq<char>) -> EntryView {
    EntryView::Action { id, label, accelerator: None, enabled: true }
}

/// An enabled action entry with a keyboard shortcut.
pub open spec fn keyed_item(id: Seq<char>, label: Seq<char>, accelerator: Seq<char>) -> EntryView {
    EntryView::Action { id, label, accelerator: Some(accelerator), enabled: true }
}

/// An action entry that is shown but cannot be clicked.
pub open spec fn disabled_item(id: Seq<char>, label: Seq<char>) -> EntryView {
    EntryView::Action { id, label, accelerator: None, enabled: false }
}

/// An entry that the toolkit implements.
pub open spec fn predefined(kind: PredefinedKind) -> EntryView {
    EntryView::Predefined { kind }
}

/// A nested menu.
pub open spec fn submenu(label: Seq<char>, children: Seq<EntryView>) -> EntryView {
    EntryView::Submenu { label, children }
}

impl MenuEntry {
    /// An enabled action entry without a keyboard shortcut.
    pub fn item(id: &str, label: &str) -> (entry: MenuEntry)
        ensures
            entry@ == item(id@, label@),
    {
        MenuEntry::Action {
            id: String::from_str(id),
            label: String::from_str(label),
            accelerator: None,
            enabled: true,
        }
    }

    /// An enabled action entry with a keyboard shortcut.
    pub fn keyed_item(id: &str, label: &str, accelerator: &str) -> (entry: MenuEntry)
        ensures
            entry@ == keyed_item(id@, label@, accelerator@),
    {
        MenuEntry::Action {
            id: String::from_str(id),
            label: String::from_str(label),
            accelerator: Some(String::from_str(accelerator)),
            enabled: true,
        }
    }

    /// An action entry that is shown but cannot be clicked.
    pub fn disabled_item(id: &str, label: String) -> (entry: MenuEntry)
        ensures
            entry@ == disabled_item(id@, label@),
    {
        MenuEntry::Action { id: String::from_str(id), label, accelerator: None, enabled: false }
    }

    /// An entry that the toolkit implements.
    pub fn predefined(kind: PredefinedKind) -> (entry: MenuEntry)
        ensures
            entry@ == predefined(kind),
    {
        MenuEntry::Predefined { kind }
    }

    /// A nested menu.
    pub fn submenu(label: String, children: Vec<MenuEntry>) -> (entry: MenuEntry)
        ensures
            entry@ == submenu(label@, entry_views(children@)),
    {
        MenuEntry::Submenu { label, children }
    }
}

/// Appends `entry` to `entries`.
pub fn add_entry(entries: &mut Vec<MenuEntry>, entry: MenuEntry)
    ensures
        entry_views(final(entries)@) == entry_views(old(entries)@).push(entry@),
{
    entries.push(entry);
    assert(entry_views(entries@) =~= entry_views(old(entries)@).push(entry@));
}

} // verus!

verus! {

/// The kinds of the toolkit's own entries at and below `entry`, in display order.
pub open spec fn entry_kinds(entry: EntryView) -> Seq<PredefinedKind>
    decreases entry, 0int,
{
    match entry {
        EntryView::Predefined { kind } => seq![kind],
        EntryView::Submenu { children, .. } => seq_kinds(children),
        _ => Seq::empty(),
    }
}

/// The kinds of the toolkit's own entries in `entries`, in display order.
pub open spec fn seq_kinds(entries: Seq<EntryView>) -> Seq<PredefinedKind>
    decreases entries, 1int,
{
    if entries.len() == 0 {
        Seq::empty()
    } else {
        seq_kinds(entries.drop_last()) + entry_kinds(entries.last())
    }
}

/// Appending an entry appends its kinds.
pub broadcast proof fn lemma_seq_kinds_push(entries: Seq<EntryView>, entry: EntryView)
    ensures
        #[trigger] seq_kinds(entries.push(entry)) == seq_kinds(entries) + entry_kinds(entry),
{
    assert(entries.push(entry).drop_last() =~= entries);
}

/// The kinds of a concatenation are the concatenated kinds.
pub broadcast proof fn lemma_seq_kinds_concat(front: Seq<EntryView>, back: Seq<EntryView>)
    ensures
        #[trigger] seq_kinds(front + back) == seq_kinds(front) + seq_kinds(back),
    decreases back.len(),
{
    if back.len() == 0 {
        assert(front + back =~= front);
        assert(seq_kinds(front) + seq_kinds(back) =~= seq_kinds(front));
    } else {
        lemma_seq_kinds_concat(front, back.drop_last());
        assert((front + back).drop_last() =~= front + back.drop_last());
        assert((front + back).last() == back.last());
        assert(seq_kinds(front + back) =~= seq_kinds(front) + seq_kinds(back));
    }
}

} // verus!

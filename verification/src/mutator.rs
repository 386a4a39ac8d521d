use vstd::prelude::*;
use vstd::string::StringExecFns;
use crate::text::str_eq;
use crate::tree::{
    entry_ids, entry_views, entry_with_enabled, lemma_absent_id_changes_nothing,
    lemma_ids_of_member, lemma_member_of_ids, lemma_seq_absent_id_changes_nothing,
    lemma_seq_with_enabled_keeps_ids, seq_ids, seq_with_enabled, well_formed, EntryView,
    MenuEntry, MenuTree,
};

verus! {

/// Why a run-time change of the menu was refused.
#[derive(Clone, Copy, Debug, PartialEq, Eq, Structural)]
pub enum NotFoundError {
    /// No menu is installed.
    MenuNotFound,
    /// The installed menu holds no action entry with the identifier.
    ItemNotFound,
}

/// Sets the flag of every action named `id` at or below `entry`, and says
/// whether there was one.
fn set_in_entry(entry: &mut MenuEntry, id: &str, enabled: bool) -> (found: bool)
    ensures
        final(entry)@ == entry_with_enabled(old(entry)@, id@, enabled),
        found == entry_ids(old(entry)@).contains(id@),
    decreases *old(entry), 0int,
{
    match entry {
        MenuEntry::Action { id: own, enabled: flag, .. } => {
            if str_eq(own.as_str(), id) {
                *flag = enabled;
                assert(seq![id@][0] == id@);
                true
            } else {
                false
            }
        },
        MenuEntry::Submenu { children, .. } => set_in_entries(children, id, enabled),
        _ => false,
    }
}

/// Sets the flag of every action named `id` in `entries`, and says whether
/// there was one.
fn set_in_entries(entries: &mut Vec<MenuEntry>, id: &str, enabled: bool) -> (found: bool)
    ensures
        entry_views(final(entries)@) == seq_with_enabled(entry_views(old(entries)@), id@, enabled),
        found == seq_ids(entry_views(old(entries)@)).contains(id@),
    decreases *old(entries), 1int,
{
    let ghost before = entry_views(entries@);
    let mut found = false;
    let mut i: usize = 0;
    while i < entries.len()
        invariant
            i <= entries.len(),
            entries.len() == old(entries).len(),
            before == entry_views(old(entries)@),
            forall|j: int| 0 <= j < i ==> (#[trigger] entries@[j])@ == entry_with_enabled(before[j], id@, enabled),
            forall|j: int| i <= j < entries.len() ==> #[trigger] entries@[j] == old(entries)@[j],
            found == exists|j: int| 0 <= j < i && #[trigger] entry_ids(before[j]).contains(id@),
        decreases entries.len() - i,
    {
        assert(entries@[i as int] == old(entries)@[i as int]);
        assert(decreases_to!(*old(entries) => old(entries)[i as int]));
        let ghost prior = entries@;
        let hit = set_in_entry(&mut entries[i], id, enabled);
        assert(entries@ == prior.update(i as int, entries@[i as int]));
        assert(hit == entry_ids(before[i as int]).contains(id@));
        found = found || hit;
        i += 1;
    }
    proof {
        if found {
            let j = choose|j: int| 0 <= j < i && #[trigger] entry_ids(before[j]).contains(id@);
            lemma_ids_of_member(before, j);
        } else if seq_ids(before).contains(id@) {
            lemma_member_of_ids(before, id@);
        }
        assert(entry_views(entries@) =~= seq_with_enabled(before, id@, enabled));
    }
    found
}

/// Enables or disables the action entry named `id` in the installed menu.
///
/// Without an installed menu, or without an action entry of that name, the
/// call is refused and nothing changes. Otherwise every action entry of that
/// name (in a well-formed menu there is exactly one) takes the new flag, and
/// every other entry stays as it was.
pub fn menu_item_set_enabled(menu: &mut Option<MenuTree>, id: &str, enabled: bool) -> (outcome: Result<(), NotFoundError>)
    ensures
        *old(menu) is None ==> outcome == Err::<(), NotFoundError>(NotFoundError::MenuNotFound)
            && *final(menu) is None,
        *old(menu) matches Some(before) ==> {
            &&& *final(menu) matches Some(after)
            &&& after@ == seq_with_enabled(before@, id@, enabled)
            &&& seq_ids(after@) == seq_ids(before@)
            &&& well_formed(before@) ==> well_formed(after@)
            &&& seq_ids(before@).contains(id@) ==> outcome is Ok
            &&& !seq_ids(before@).contains(id@) ==> outcome == Err::<(), NotFoundError>(
                NotFoundError::ItemNotFound,
            ) && after@ == before@
        },
{
    match menu {
        None => Err(NotFoundError::MenuNotFound),
        Some(tree) => {
            let ghost before = tree@;
            let found = set_in_entries(&mut tree.entries, id, enabled);
            proof {
                lemma_seq_with_enabled_keeps_ids(before, id@, enabled);
                if !found {
                    lemma_seq_absent_id_changes_nothing(before, id@, enabled);
                }
                lemma_with_enabled_keeps_kinds(before, id@, enabled);
            }
            if found {
                Ok(())
            } else {
                Err(NotFoundError::ItemNotFound)
            }
        },
    }
}

/// Setting a flag turns no submenu into something else.
proof fn lemma_with_enabled_keeps_kinds(entries: Seq<EntryView>, id: Seq<char>, enabled: bool)
    ensures
        forall|i: int|
            0 <= i < entries.len() && #[trigger] entries[i] is Submenu ==> seq_with_enabled(
                entries,
                id,
                enabled,
            )[i] is Submenu,
{
}

} // verus!

verus! {

impl NotFoundError {
    /// What the refusal says of itself, for a call about `id`.
    pub open spec fn message_text(self, id: Seq<char>) -> Seq<char> {
        match self {
            NotFoundError::MenuNotFound => "menu not found"@,
            NotFoundError::ItemNotFound => "menu item not found: "@ + id,
        }
    }

    /// Describes the refusal of a call about `id`.
    pub fn message(&self, id: &str) -> (text: String)
        ensures
            text@ == self.message_text(id@),
    {
        match self {
            NotFoundError::MenuNotFound => String::from_str("menu not found"),
            NotFoundError::ItemNotFound => String::from_str("menu item not found: ").concat(id),
        }
    }
}

} // verus!

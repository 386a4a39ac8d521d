use vstd::prelude::*;
use crate::builder::{
    lemma_devtools_entry_follows_flag, lemma_menu_ids, menu_for, menu_ids, ContextView,
};
use crate::catalog::{binding_of, bindings, has_binding, lemma_binding_of_row};
use crate::ident::{fingerprint, lemma_identifier_fingerprints};
use crate::router::{lemma_devtools_binding, routed};
use crate::tree::seq_ids;

verus! {

/// The menu and the dispatch table agree: every entry of a built menu that
/// can be clicked is bound in the table, so a click on it is never recorded
/// as unhandled. The one entry without a binding is the version display,
/// which is disabled.
pub proof fn lemma_clickable_entries_are_bound(ctx: ContextView, id: Seq<char>, devtools_open: bool)
    requires
        seq_ids(menu_for(ctx)).contains(id),
        id != "help/version"@,
    ensures
        has_binding(id),
        !(routed(id, ctx.devtools_enabled, devtools_open) is LogUnhandled),
{
    lemma_menu_ids(ctx);
    lemma_devtools_entry_follows_flag(ctx);
    lemma_devtools_binding();
    let ids = menu_ids(ctx);
    let at = choose|k: int| 0 <= k < ids.len() && ids[k] == id;
    assert(ids[at] == id);
    assert(bindings()[0].id == "edit/undo"@);
    assert(bindings()[1].id == "edit/redo"@);
    assert(bindings()[2].id == "file/add-local-repo"@);
    assert(bindings()[3].id == "file/clone-repo"@);
    assert(bindings()[4].id == "file/create-branch"@);
    assert(bindings()[5].id == "file/create-dependent-branch"@);
    assert(bindings()[6].id == "view/devtools"@);
    assert(bindings()[7].id == "view/switch-theme"@);
    assert(bindings()[8].id == "view/toggle-sidebar"@);
    assert(bindings()[9].id == "view/reload"@);
    assert(bindings()[10].id == "view/zoom-in"@);
    assert(bindings()[11].id == "view/zoom-out"@);
    assert(bindings()[12].id == "view/zoom-reset"@);
    assert(bindings()[13].id == "help/share-debug-info"@);
    assert(bindings()[14].id == "project/history"@);
    assert(bindings()[15].id == "project/open-in-vscode"@);
    assert(bindings()[16].id == "project/show-in-finder"@);
    assert(bindings()[17].id == "project/settings"@);
    assert(bindings()[18].id == "global/settings"@);
    assert(bindings()[19].id == "global/update"@);
    assert(bindings()[20].id == "help/open-logs-folder"@);
    assert(bindings()[21].id == "help/open-config-folder"@);
    assert(bindings()[22].id == "help/documentation"@);
    assert(bindings()[23].id == "help/debugging-guide"@);
    assert(bindings()[24].id == "help/github"@);
    assert(bindings()[25].id == "help/release-notes"@);
    assert(bindings()[26].id == "help/report-issue"@);
    assert(bindings()[27].id == "help/discord"@);
    assert(bindings()[28].id == "help/youtube"@);
    assert(bindings()[29].id == "help/bluesky"@);
    assert(bindings()[30].id == "help/x"@);
    assert(has_binding(id));
    let row = choose|i: int| 0 <= i < bindings().len() && (#[trigger] bindings()[i]).id == id;
    lemma_binding_of_row(row);
}

/// The version display has no binding: a click on it, were it enabled,
/// would only be recorded as unhandled.
pub proof fn lemma_version_is_not_bound()
    ensures
        !has_binding("help/version"@),
        binding_of("help/version"@) is None,
{
    lemma_identifier_fingerprints();
    assert forall|i: int| 0 <= i < bindings().len() implies (#[trigger] bindings()[i]).id
        != "help/version"@ by {
        assert(fingerprint(bindings()[i].id) != fingerprint("help/version"@));
    }
}

} // verus!

use vstd::prelude::*;
use vstd::string::StringExecFns;
use crate::ident::{fingerprint, lemma_identifier_fingerprints, lemma_token_fingerprints};
use crate::text::str_eq;

verus! {

/// Something a menu click does inside the application shell itself.
#[derive(Clone, Debug, PartialEq, Eq)]
pub enum LocalEffect {
    /// Open the developer tools if they are closed, close them if they are open.
    ToggleDevtools,
    /// Show the folder that holds the log files.
    OpenLogsFolder,
    /// Show the folder that holds the configuration.
    OpenConfigFolder,
    /// Hand a fixed address to the system's default handler.
    OpenUrl { url: String },
}

/// The mathematical value of a [`LocalEffect`].
pub enum EffectView {
    ToggleDevtools,
    OpenLogsFolder,
    OpenConfigFolder,
    OpenUrl { url: Seq<char> },
}

impl View for LocalEffect {
    type V = EffectView;

    open spec fn view(&self) -> EffectView {
        match self {
            LocalEffect::ToggleDevtools => EffectView::ToggleDevtools,
            LocalEffect::OpenLogsFolder => EffectView::OpenLogsFolder,
            LocalEffect::OpenConfigFolder => EffectView::OpenConfigFolder,
            LocalEffect::OpenUrl { url } => EffectView::OpenUrl { url: url@ },
        }
    }
}

/// What an identifier is bound to.
#[derive(Clone, Debug, PartialEq, Eq)]
pub enum ActionKind {
    /// Forward a named event with a payload to the user interface.
    ForwardShortcut { event_name: String, payload: String },
    /// Perform a local effect.
    LocalEffect { effect: LocalEffect },
    /// The identifier is reserved; a click only leaves a note.
    Unhandled { note: String },
}

/// The mathematical value of an [`ActionKind`].
pub enum KindView {
    ForwardShortcut { event_name: Seq<char>, payload: Seq<char> },
    LocalEffect { effect: EffectView },
    Unhandled { note: Seq<char> },
}

impl View for ActionKind {
    type V = KindView;

    open spec fn view(&self) -> KindView {
        match self {
            ActionKind::ForwardShortcut { event_name, payload } => KindView::ForwardShortcut {
                event_name: event_name@,
                payload: payload@,
            },
            ActionKind::LocalEffect { effect } => KindView::LocalEffect { effect: effect@ },
            ActionKind::Unhandled { note } => KindView::Unhandled { note: note@ },
        }
    }
}

/// One row of the dispatch table.
#[derive(Clone, Debug, PartialEq, Eq)]
pub struct ActionBinding {
    pub id: String,
    pub kind: ActionKind,
}

/// The mathematical value of an [`ActionBinding`].
pub struct BindingView {
    pub id: Seq<char>,
    pub kind: KindView,
}

impl View for ActionBinding {
    type V = BindingView;

    open spec fn view(&self) -> BindingView {
        BindingView { id: self.id@, kind: self.kind@ }
    }
}

/// The values of a sequence of bindings, in order.
pub open spec fn binding_views(table: Seq<ActionBinding>) -> Seq<BindingView> {
    Seq::new(table.len(), |i: int| table[i]@)
}

/// The name of the one event that carries every forwarded shortcut.
pub open spec fn shortcut_event() -> Seq<char> {
    "menu://shortcut"@
}

/// A row that forwards `payload` on the shortcut event.
pub open spec fn forward(id: Seq<char>, payload: Seq<char>) -> BindingView {
    BindingView { id, kind: KindView::ForwardShortcut { event_name: shortcut_event(), payload } }
}

/// A row that performs `effect`.
pub open spec fn local(id: Seq<char>, effect: EffectView) -> BindingView {
    BindingView { id, kind: KindView::LocalEffect { effect } }
}

/// A row that opens `url`.
pub open spec fn link(id: Seq<char>, url: Seq<char>) -> BindingView {
    local(id, EffectView::OpenUrl { url })
}

/// A row that reserves `id` and leaves `note` when clicked.
pub open spec fn reserved(id: Seq<char>, note: Seq<char>) -> BindingView {
    BindingView { id, kind: KindView::Unhandled { note } }
}

/// The dispatch table: every identifier that a click can be routed by, with
/// what it is bound to.
pub open spec fn bindings() -> Seq<BindingView> {
    seq![
        reserved("edit/undo"@, "use app undo queue to undo."@),
        reserved("edit/redo"@, "use app undo queue to redo."@),
        forward("file/add-local-repo"@, "add-local-repo"@),
        forward("file/clone-repo"@, "clone-repo"@),
        forward("file/create-branch"@, "create-branch"@),
        forward("file/create-dependent-branch"@, "create-dependent-branch"@),
        local("view/devtools"@, EffectView::ToggleDevtools),
        forward("view/switch-theme"@, "switch-theme"@),
        forward("view/toggle-sidebar"@, "toggle-sidebar"@),
        forward("view/reload"@, "reload"@),
        forward("view/zoom-in"@, "zoom-in"@),
        forward("view/zoom-out"@, "zoom-out"@),
        forward("view/zoom-reset"@, "zoom-reset"@),
        forward("help/share-debug-info"@, "share-debug-info"@),
        forward("project/history"@, "history"@),
        forward("project/open-in-vscode"@, "open-in-vscode"@),
        forward("project/show-in-finder"@, "show-in-finder"@),
        forward("project/settings"@, "project-settings"@),
        forward("global/settings"@, "global-settings"@),
        forward("global/update"@, "update"@),
        local("help/open-logs-folder"@, EffectView::OpenLogsFolder),
        local("help/open-config-folder"@, EffectView::OpenConfigFolder),
        link("help/documentation"@, "https://docs.gitbutler.com"@),
        link("help/debugging-guide"@, "https://docs.gitbutler.com/development/debugging"@),
        link("help/github"@, "https://github.com/gitbutlerapp/gitbutler"@),
        link("help/release-notes"@, "https://github.com/gitbutlerapp/gitbutler/releases"@),
        link("help/report-issue"@, "https://github.com/gitbutlerapp/gitbutler/issues/new/choose"@),
        link("help/discord"@, "https://discord.com/invite/MmFkmaJ42D"@),
        link("help/youtube"@, "https://www.youtube.com/@gitbutlerapp"@),
        link("help/bluesky"@, "https://bsky.app/profile/gitbutler.com"@),
        link("help/x"@, "https://x.com/gitbutler"@),
    ]
}

/// Whether the dispatch table has a row for `id`.
pub open spec fn has_binding(id: Seq<char>) -> bool {
    exists|i: int| 0 <= i < bindings().len() && (#[trigger] bindings()[i]).id == id
}

/// What `id` is bound to, if the dispatch table has a row for it. No two rows
/// share an identifier (see [`lemma_binding_ids_unique`]), so the row is the
/// only one.
pub open spec fn binding_of(id: Seq<char>) -> Option<KindView> {
    if has_binding(id) {
        let row = choose|i: int| 0 <= i < bindings().len() && (#[trigger] bindings()[i]).id == id;
        Some(bindings()[row].kind)
    } else {
        None
    }
}

/// The name of the one event that carries every forwarded shortcut.
pub fn shortcut_event_name() -> (name: &'static str)
    ensures
        name@ == shortcut_event(),
{
    "menu://shortcut"
}

fn forward_binding(id: &str, payload: &str) -> (row: ActionBinding)
    ensures
        row@ == forward(id@, payload@),
{
    ActionBinding {
        id: String::from_str(id),
        kind: ActionKind::ForwardShortcut {
            event_name: String::from_str(shortcut_event_name()),
            payload: String::from_str(payload),
        },
    }
}

fn local_binding(id: &str, effect: LocalEffect) -> (row: ActionBinding)
    ensures
        row@ == local(id@, effect@),
{
    ActionBinding { id: String::from_str(id), kind: ActionKind::LocalEffect { effect } }
}

fn link_binding(id: &str, url: &str) -> (row: ActionBinding)
    ensures
        row@ == link(id@, url@),
{
    local_binding(id, LocalEffect::OpenUrl { url: String::from_str(url) })
}

fn reserved_binding(id: &str, note: &str) -> (row: ActionBinding)
    ensures
        row@ == reserved(id@, note@),
{
    ActionBinding { id: String::from_str(id), kind: ActionKind::Unhandled { note: String::from_str(note) } }
}

/// Builds the dispatch table.
pub fn catalog() -> (table: Vec<ActionBinding>)
    ensures
        binding_views(table@) == bindings(),
{
    let mut table: Vec<ActionBinding> = Vec::new();
    table.push(reserved_binding("edit/undo", "use app undo queue to undo."));
    table.push(reserved_binding("edit/redo", "use app undo queue to redo."));
    table.push(forward_binding("file/add-local-repo", "add-local-repo"));
    table.push(forward_binding("file/clone-repo", "clone-repo"));
    table.push(forward_binding("file/create-branch", "create-branch"));
    table.push(forward_binding("file/create-dependent-branch", "create-dependent-branch"));
    table.push(local_binding("view/devtools", LocalEffect::ToggleDevtools));
    table.push(forward_binding("view/switch-theme", "switch-theme"));
    table.push(forward_binding("view/toggle-sidebar", "toggle-sidebar"));
    table.push(forward_binding("view/reload", "reload"));
    table.push(forward_binding("view/zoom-in", "zoom-in"));
    table.push(forward_binding("view/zoom-out", "zoom-out"));
    table.push(forward_binding("view/zoom-reset", "zoom-reset"));
    table.push(forward_binding("help/share-debug-info", "share-debug-info"));
    table.push(forward_binding("project/history", "history"));
    table.push(forward_binding("project/open-in-vscode", "open-in-vscode"));
    table.push(forward_binding("project/show-in-finder", "show-in-finder"));
    table.push(forward_binding("project/settings", "project-settings"));
    table.push(forward_binding("global/settings", "global-settings"));
    table.push(forward_binding("global/update", "update"));
    table.push(local_binding("help/open-logs-folder", LocalEffect::OpenLogsFolder));
    table.push(local_binding("help/open-config-folder", LocalEffect::OpenConfigFolder));
    table.push(link_binding("help/documentation", "https://docs.gitbutler.com"));
    table.push(link_binding("help/debugging-guide", "https://docs.gitbutler.com/development/debugging"));
    table.push(link_binding("help/github", "https://github.com/gitbutlerapp/gitbutler"));
    table.push(link_binding("help/release-notes", "https://github.com/gitbutlerapp/gitbutler/releases"));
    table.push(link_binding("help/report-issue", "https://github.com/gitbutlerapp/gitbutler/issues/new/choose"));
    table.push(link_binding("help/discord", "https://discord.com/invite/MmFkmaJ42D"));
    table.push(link_binding("help/youtube", "https://www.youtube.com/@gitbutlerapp"));
    table.push(link_binding("help/bluesky", "https://bsky.app/profile/gitbutler.com"));
    table.push(link_binding("help/x", "https://x.com/gitbutler"));
    assert(binding_views(table@) =~= bindings());
    table
}

/// No two rows of the dispatch table share an identifier, so the order of
/// the rows decides nothing.
pub proof fn lemma_binding_ids_unique()
    ensures
        forall|i: int, j: int|
            0 <= i < bindings().len() && 0 <= j < bindings().len() && i != j ==> (
            #[trigger] bindings()[i]).id != (#[trigger] bindings()[j]).id,
{
    lemma_identifier_fingerprints();
    assert forall|i: int, j: int|
        0 <= i < bindings().len() && 0 <= j < bindings().len() && i != j implies fingerprint(
        (#[trigger] bindings()[i]).id,
    ) != fingerprint((#[trigger] bindings()[j]).id) by {}
}

/// Tokens and identifiers correspond one to one: no two rows forward the
/// same token.
pub proof fn lemma_tokens_one_to_one()
    ensures
        forall|i: int, j: int|
            0 <= i < bindings().len() && 0 <= j < bindings().len() && i != j && (
            #[trigger] bindings()[i]).kind is ForwardShortcut && (
            #[trigger] bindings()[j]).kind is ForwardShortcut ==> bindings()[i].kind->payload
                != bindings()[j].kind->payload,
{
    lemma_token_fingerprints();
    assert forall|i: int, j: int|
        0 <= i < bindings().len() && 0 <= j < bindings().len() && i != j && (
        #[trigger] bindings()[i]).kind is ForwardShortcut && (
        #[trigger] bindings()[j]).kind is ForwardShortcut implies fingerprint(
        bindings()[i].kind->payload,
    ) != fingerprint(bindings()[j].kind->payload) by {}
}

/// Each row is what its own identifier is bound to.
pub proof fn lemma_binding_of_row(i: int)
    requires
        0 <= i < bindings().len(),
    ensures
        binding_of(bindings()[i].id) == Some(bindings()[i].kind),
{
    lemma_binding_ids_unique();
    let id = bindings()[i].id;
    assert(has_binding(id));
    let row = choose|k: int| 0 <= k < bindings().len() && (#[trigger] bindings()[k]).id == id;
    assert(row == i);
}

/// The value of an optional binding.
pub open spec fn opt_kind(kind: Option<ActionKind>) -> Option<KindView> {
    match kind {
        Some(k) => Some(k@),
        None => None,
    }
}

/// Finds what `id` is bound to in the dispatch table.
pub fn lookup(id: &str) -> (found: Option<ActionKind>)
    ensures
        opt_kind(found) == binding_of(id@),
{
    let mut table = catalog();
    while table.len() > 0
        invariant
            table.len() <= bindings().len(),
            forall|k: int| 0 <= k < table.len() ==> (#[trigger] table@[k])@ == bindings()[k],
            forall|k: int| table.len() <= k < bindings().len() ==> (#[trigger] bindings()[k]).id != id@,
        decreases table.len(),
    {
        let ghost at = table.len() - 1;
        let row = table.pop().unwrap();
        if str_eq(row.id.as_str(), id) {
            proof {
                assert(row@ == bindings()[at]);
                lemma_binding_of_row(at);
            }
            return Some(row.kind);
        }
    }
    None
}

} // verus!


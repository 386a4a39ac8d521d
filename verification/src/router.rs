use vstd::prelude::*;
use vstd::string::StringExecFns;
use crate::catalog::{
    binding_of, bindings, lemma_binding_of_row, local, lookup, opt_kind, ActionKind, EffectView,
    KindView, LocalEffect,
};
use crate::tree::opt_text;

verus! {

/// What the event loop has to do for one click.
#[derive(Clone, Debug, PartialEq, Eq)]
pub enum MenuAction {
    /// Send `payload` to the user interface on the event named `event`.
    Emit { event: String, payload: String },
    /// Open the developer tools, which are closed.
    OpenDevtools,
    /// Close the developer tools, which are open.
    CloseDevtools,
    /// Show the folder that holds the log files.
    OpenLogsFolder,
    /// Show the folder that holds the configuration.
    OpenConfigFolder,
    /// Hand `url` to the system's default handler.
    OpenUrl { url: String },
    /// Leave the note of a reserved identifier; nothing else happens.
    Note { message: String },
    /// Record that nothing handles the identifier; nothing else happens.
    LogUnhandled { message: String },
}

/// The mathematical value of a [`MenuAction`].
pub enum ActionView {
    Emit { event: Seq<char>, payload: Seq<char> },
    OpenDevtools,
    CloseDevtools,
    OpenLogsFolder,
    OpenConfigFolder,
    OpenUrl { url: Seq<char> },
    Note { message: Seq<char> },
    LogUnhandled { message: Seq<char> },
}

impl View for MenuAction {
    type V = ActionView;

    open spec fn view(&self) -> ActionView {
        match self {
            MenuAction::Emit { event, payload } => ActionView::Emit { event: event@, payload: payload@ },
            MenuAction::OpenDevtools => ActionView::OpenDevtools,
            MenuAction::CloseDevtools => ActionView::CloseDevtools,
            MenuAction::OpenLogsFolder => ActionView::OpenLogsFolder,
            MenuAction::OpenConfigFolder => ActionView::OpenConfigFolder,
            MenuAction::OpenUrl { url } => ActionView::OpenUrl { url: url@ },
            MenuAction::Note { message } => ActionView::Note { message: message@ },
            MenuAction::LogUnhandled { message } => ActionView::LogUnhandled { message: message@ },
        }
    }
}

/// The record left for an identifier that nothing handles.
pub open spec fn unhandled_message(id: Seq<char>) -> Seq<char> {
    "unhandled 'help' menu event: "@ + id
}

/// The action for a click on `id`, given what the dispatch table binds it to.
///
/// The developer tools are toggled only where they are part of this build;
/// elsewhere their identifier is handled like an unknown one.
pub open spec fn action_for(
    bound: Option<KindView>,
    id: Seq<char>,
    devtools_enabled: bool,
    devtools_open: bool,
) -> ActionView {
    match bound {
        Some(KindView::ForwardShortcut { event_name, payload }) => ActionView::Emit {
            event: event_name,
            payload,
        },
        Some(KindView::LocalEffect { effect: EffectView::ToggleDevtools }) => if !devtools_enabled {
            ActionView::LogUnhandled { message: unhandled_message(id) }
        } else if devtools_open {
            ActionView::CloseDevtools
        } else {
            ActionView::OpenDevtools
        },
        Some(KindView::LocalEffect { effect: EffectView::OpenLogsFolder }) => ActionView::OpenLogsFolder,
        Some(KindView::LocalEffect { effect: EffectView::OpenConfigFolder }) => ActionView::OpenConfigFolder,
        Some(KindView::LocalEffect { effect: EffectView::OpenUrl { url } }) => ActionView::OpenUrl { url },
        Some(KindView::Unhandled { note }) => ActionView::Note { message: note },
        None => ActionView::LogUnhandled { message: unhandled_message(id) },
    }
}

/// The action for a click on `id`.
pub open spec fn routed(id: Seq<char>, devtools_enabled: bool, devtools_open: bool) -> ActionView {
    action_for(binding_of(id), id, devtools_enabled, devtools_open)
}

/// Whether the developer tools are open once `action` has been performed.
pub open spec fn panel_after(was_open: bool, action: ActionView) -> bool {
    match action {
        ActionView::OpenDevtools => true,
        ActionView::CloseDevtools => false,
        _ => was_open,
    }
}

/// The record to leave when performing `action` for `id` has failed, for the
/// actions that can fail.
pub open spec fn failure_message(id: Seq<char>, action: ActionView) -> Option<Seq<char>> {
    match action {
        ActionView::Emit { .. } => Some("failed to emit event"@),
        ActionView::OpenLogsFolder => Some("failed to open logs folder"@),
        ActionView::OpenConfigFolder => Some("failed to open config folder"@),
        ActionView::OpenUrl { .. } => Some("failed to open url for "@ + id),
        _ => None,
    }
}

fn unhandled(id: &str) -> (action: MenuAction)
    ensures
        action@ == (ActionView::LogUnhandled { message: unhandled_message(id@) }),
{
    MenuAction::LogUnhandled { message: String::from_str("unhandled 'help' menu event: ").concat(id) }
}

/// Turns the binding found for `id` into the action for this click.
pub fn resolve(found: Option<ActionKind>, id: &str, devtools_enabled: bool, devtools_open: bool) -> (action:
    MenuAction)
    ensures
        action@ == action_for(opt_kind(found), id@, devtools_enabled, devtools_open),
{
    match found {
        Some(ActionKind::ForwardShortcut { event_name, payload }) => MenuAction::Emit {
            event: event_name,
            payload,
        },
        Some(ActionKind::LocalEffect { effect }) => match effect {
            LocalEffect::ToggleDevtools => {
                if !devtools_enabled {
                    unhandled(id)
                } else if devtools_open {
                    MenuAction::CloseDevtools
                } else {
                    MenuAction::OpenDevtools
                }
            },
            LocalEffect::OpenLogsFolder => MenuAction::OpenLogsFolder,
            LocalEffect::OpenConfigFolder => MenuAction::OpenConfigFolder,
            LocalEffect::OpenUrl { url } => MenuAction::OpenUrl { url },
        },
        Some(ActionKind::Unhandled { note }) => MenuAction::Note { message: note },
        None => unhandled(id),
    }
}

/// Decides what a click on the entry named `id` does.
///
/// `devtools_enabled` says whether the developer tools are part of this
/// build, `devtools_open` whether they are showing right now. The caller
/// performs the returned action; nothing is done here.
pub fn handle_event(id: &str, devtools_enabled: bool, devtools_open: bool) -> (action: MenuAction)
    ensures
        action@ == routed(id@, devtools_enabled, devtools_open),
{
    resolve(lookup(id), id, devtools_enabled, devtools_open)
}

impl MenuAction {
    /// Whether the developer tools are open once this action has been performed.
    pub fn devtools_open_after(&self, was_open: bool) -> (open: bool)
        ensures
            open == panel_after(was_open, self@),
    {
        match self {
            MenuAction::OpenDevtools => true,
            MenuAction::CloseDevtools => false,
            _ => was_open,
        }
    }
}

/// Says what to record once the action for `id` has been performed: nothing
/// after a success, the failure's message after a failure. A failure is
/// never passed on in any other way.
pub fn report_outcome(id: &str, action: &MenuAction, succeeded: bool) -> (entry: Option<String>)
    ensures
        opt_text(entry) == if succeeded {
            None
        } else {
            failure_message(id@, action@)
        },
{
    if succeeded {
        return None;
    }
    match action {
        MenuAction::Emit { .. } => Some(String::from_str("failed to emit event")),
        MenuAction::OpenLogsFolder => Some(String::from_str("failed to open logs folder")),
        MenuAction::OpenConfigFolder => Some(String::from_str("failed to open config folder")),
        MenuAction::OpenUrl { .. } => Some(String::from_str("failed to open url for ").concat(id)),
        _ => None,
    }
}

/// A click on the identifier of a row of the dispatch table does what that
/// row says, whatever the other rows are and wherever the row stands.
pub proof fn lemma_routed_row(row: int, devtools_enabled: bool, devtools_open: bool)
    requires
        0 <= row < bindings().len(),
    ensures
        routed(bindings()[row].id, devtools_enabled, devtools_open) == action_for(
            Some(bindings()[row].kind),
            bindings()[row].id,
            devtools_enabled,
            devtools_open,
        ),
{
    lemma_binding_of_row(row);
}

/// The identifier of the entry that toggles the developer tools.
pub open spec fn devtools_id() -> Seq<char> {
    "view/devtools"@
}

/// The developer tools entry is bound to the toggle.
pub proof fn lemma_devtools_binding()
    ensures
        binding_of(devtools_id()) == Some(KindView::LocalEffect { effect: EffectView::ToggleDevtools }),
{
    assert(bindings()[6] == local(devtools_id(), EffectView::ToggleDevtools));
    lemma_binding_of_row(6);
}

/// Two clicks on the developer tools entry, one after the other, leave the
/// panel as it was: open if it was open, closed if it was closed.
pub proof fn lemma_toggle_twice_restores(was_open: bool)
    ensures
        ({
            let once = panel_after(was_open, routed(devtools_id(), true, was_open));
            let twice = panel_after(once, routed(devtools_id(), true, once));
            once == !was_open && twice == was_open
        }),
{
    lemma_devtools_binding();
}

/// In a build without developer tools a click on their identifier, however
/// it came about, is only recorded as unhandled, and the panel stays as it is.
pub proof fn lemma_disabled_devtools_never_toggle(devtools_open: bool)
    ensures
        routed(devtools_id(), false, devtools_open) == (ActionView::LogUnhandled {
            message: unhandled_message(devtools_id()),
        }),
        panel_after(devtools_open, routed(devtools_id(), false, devtools_open)) == devtools_open,
{
    lemma_devtools_binding();
}

/// Only the developer tools entry ever changes whether the panel is open.
pub proof fn lemma_only_devtools_moves_panel(id: Seq<char>, devtools_enabled: bool, devtools_open: bool)
    requires
        id != devtools_id(),
    ensures
        panel_after(devtools_open, routed(id, devtools_enabled, devtools_open)) == devtools_open,
{
    if binding_of(id) is Some {
        let row = choose|i: int| 0 <= i < bindings().len() && (#[trigger] bindings()[i]).id == id;
        assert(row != 6) by {
            assert(bindings()[6].id == devtools_id());
        }
    }
}

} // verus!

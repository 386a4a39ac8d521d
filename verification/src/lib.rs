//! The application menu of a desktop shell, as plain data with proofs.
//!
//! [`build`] assembles the menu for a platform and a set of features,
//! [`handle_event`] decides what a click on one of its entries does, and
//! [`menu_item_set_enabled`] enables or disables an entry of the installed
//! menu. Nothing here touches a toolkit: the caller creates the entries in
//! its toolkit, performs the actions and reports back how they went.

pub mod builder;
pub mod catalog;
pub mod consistency;
pub mod ident;
pub mod mutator;
pub mod router;
pub mod text;
pub mod tree;

pub use builder::{build, finish_build, BuildContext, BuildError};
pub use catalog::{catalog, lookup, ActionBinding, ActionKind, LocalEffect};
pub use mutator::{menu_item_set_enabled, NotFoundError};
pub use router::{handle_event, report_outcome, resolve, MenuAction};
pub use tree::{MenuEntry, MenuTree, Platform, PredefinedKind};

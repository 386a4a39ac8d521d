use gitbutler_menu::{
    build, menu_item_set_enabled, BuildContext, MenuEntry, MenuTree, NotFoundError, Platform,
    PredefinedKind,
};

fn linux_menu() -> MenuTree {
    build(&BuildContext {
        platform: Platform::Linux,
        auto_update_enabled: true,
        devtools_enabled: false,
        undo_feature_enabled: false,
        app_version: "1.2.3".to_string(),
        app_name: "GitButler".to_string(),
    })
    .unwrap()
}

fn flag_of(entries: &[MenuEntry], wanted: &str) -> Option<bool> {
    for entry in entries {
        match entry {
            MenuEntry::Action { id, enabled, .. } => {
                if id == wanted {
                    return Some(*enabled);
                }
            }
            MenuEntry::Submenu { children, .. } => {
                if let Some(found) = flag_of(children, wanted) {
                    return Some(found);
                }
            }
            _ => {}
        }
    }
    None
}

fn action(id: &str, enabled: bool) -> MenuEntry {
    MenuEntry::Action { id: id.to_string(), label: id.to_uppercase(), accelerator: None, enabled }
}

fn sub(label: &str, children: Vec<MenuEntry>) -> MenuEntry {
    MenuEntry::Submenu { label: label.to_string(), children }
}

#[test]
fn unknown_identifier_is_refused_and_nothing_changes() {
    let mut menu = Some(linux_menu());
    let outcome = menu_item_set_enabled(&mut menu, "nonexistent/id", false);
    assert_eq!(outcome, Err(NotFoundError::ItemNotFound));
    assert_eq!(menu, Some(linux_menu()));
}

#[test]
fn missing_menu_is_refused() {
    let mut menu: Option<MenuTree> = None;
    assert_eq!(
        menu_item_set_enabled(&mut menu, "file/clone-repo", false),
        Err(NotFoundError::MenuNotFound)
    );
    assert_eq!(menu, None);
}

#[test]
fn identifier_of_a_branch_not_taken_is_refused() {
    let mut menu = Some(linux_menu());
    for id in ["global/settings", "edit/undo", "edit/redo", "view/devtools", "view/reload"] {
        assert_eq!(menu_item_set_enabled(&mut menu, id, false), Err(NotFoundError::ItemNotFound));
    }
    assert_eq!(menu, Some(linux_menu()));
}

#[test]
fn labels_are_no_identifiers() {
    let mut menu = Some(linux_menu());
    assert_eq!(menu_item_set_enabled(&mut menu, "文件", false), Err(NotFoundError::ItemNotFound));
    assert_eq!(menu_item_set_enabled(&mut menu, "", false), Err(NotFoundError::ItemNotFound));
    assert_eq!(menu, Some(linux_menu()));
}

#[test]
fn disabling_an_entry_changes_that_entry_alone() {
    let mut menu = Some(linux_menu());
    assert_eq!(menu_item_set_enabled(&mut menu, "file/create-branch", false), Ok(()));
    let changed = menu.unwrap();
    assert_eq!(flag_of(&changed.entries, "file/create-branch"), Some(false));
    let mut expected = linux_menu();
    match &mut expected.entries[0] {
        MenuEntry::Submenu { children, .. } => match &mut children[3] {
            MenuEntry::Action { id, enabled, .. } => {
                assert_eq!(id, "file/create-branch");
                *enabled = false;
            }
            other => panic!("unexpected entry {:?}", other),
        },
        other => panic!("unexpected entry {:?}", other),
    }
    assert_eq!(changed, expected);
}

#[test]
fn enabling_again_restores_the_menu() {
    let mut menu = Some(linux_menu());
    assert_eq!(menu_item_set_enabled(&mut menu, "project/history", false), Ok(()));
    assert_ne!(menu, Some(linux_menu()));
    assert_eq!(menu_item_set_enabled(&mut menu, "project/history", true), Ok(()));
    assert_eq!(menu, Some(linux_menu()));
}

#[test]
fn setting_the_flag_it_already_has_succeeds_and_changes_nothing() {
    let mut menu = Some(linux_menu());
    assert_eq!(menu_item_set_enabled(&mut menu, "help/github", true), Ok(()));
    assert_eq!(menu, Some(linux_menu()));
    assert_eq!(menu_item_set_enabled(&mut menu, "help/version", false), Ok(()));
    assert_eq!(menu, Some(linux_menu()));
}

#[test]
fn the_version_entry_can_be_enabled() {
    let mut menu = Some(linux_menu());
    assert_eq!(menu_item_set_enabled(&mut menu, "help/version", true), Ok(()));
    assert_eq!(flag_of(&menu.unwrap().entries, "help/version"), Some(true));
}

#[test]
fn every_entry_of_a_built_menu_can_be_found() {
    let ids = [
        "file/add-local-repo",
        "file/clone-repo",
        "file/create-branch",
        "file/create-dependent-branch",
        "global/update",
        "view/switch-theme",
        "view/zoom-reset",
        "project/show-in-finder",
        "project/settings",
        "help/documentation",
        "help/x",
        "help/version",
    ];
    for id in ids {
        let mut menu = Some(linux_menu());
        assert_eq!(menu_item_set_enabled(&mut menu, id, false), Ok(()));
        assert_eq!(flag_of(&menu.unwrap().entries, id), Some(false));
    }
}

#[test]
fn entries_are_found_at_any_depth() {
    let tree = |deep: bool, top: bool| MenuTree {
        entries: vec![
            sub(
                "outer",
                vec![
                    action("a/top", top),
                    MenuEntry::Separator,
                    sub("inner", vec![sub("innermost", vec![action("a/deep", deep)])]),
                    MenuEntry::Predefined { kind: PredefinedKind::Quit },
                ],
            ),
            sub("empty", vec![]),
        ],
    };
    let mut menu = Some(tree(true, true));
    assert_eq!(menu_item_set_enabled(&mut menu, "a/deep", false), Ok(()));
    assert_eq!(menu, Some(tree(false, true)));
    assert_eq!(menu_item_set_enabled(&mut menu, "a/top", false), Ok(()));
    assert_eq!(menu, Some(tree(false, false)));
    assert_eq!(menu_item_set_enabled(&mut menu, "inner", false), Err(NotFoundError::ItemNotFound));
    assert_eq!(menu, Some(tree(false, false)));
}

#[test]
fn an_empty_menu_holds_no_entry() {
    let mut menu = Some(MenuTree { entries: vec![] });
    assert_eq!(menu_item_set_enabled(&mut menu, "a/b", true), Err(NotFoundError::ItemNotFound));
    assert_eq!(menu, Some(MenuTree { entries: vec![] }));
}

#[test]
fn a_name_used_twice_changes_both_entries() {
    let tree = |flag: bool| MenuTree {
        entries: vec![
            sub("one", vec![action("a/twice", flag), action("a/once", true)]),
            sub("two", vec![action("a/twice", flag)]),
        ],
    };
    let mut menu = Some(tree(true));
    assert_eq!(menu_item_set_enabled(&mut menu, "a/twice", false), Ok(()));
    assert_eq!(menu, Some(tree(false)));
}

#[test]
fn errors_describe_themselves() {
    assert_eq!(NotFoundError::MenuNotFound.message("a/b"), "menu not found");
    assert_eq!(NotFoundError::ItemNotFound.message("a/b"), "menu item not found: a/b");
}

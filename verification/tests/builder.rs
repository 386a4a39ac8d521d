use gitbutler_menu::{
    build, finish_build, BuildContext, BuildError, MenuEntry, MenuTree, Platform, PredefinedKind,
};
use std::collections::HashSet;

fn context(platform: Platform, auto_update: bool, devtools: bool, undo: bool) -> BuildContext {
    BuildContext {
        platform,
        auto_update_enabled: auto_update,
        devtools_enabled: devtools,
        undo_feature_enabled: undo,
        app_version: String::from("1.2.3"),
        app_name: String::from("GitButler"),
    }
}

fn built(platform: Platform, auto_update: bool, devtools: bool, undo: bool) -> MenuTree {
    build(&context(platform, auto_update, devtools, undo)).expect("every context gives a menu")
}

fn collect_ids(entries: &[MenuEntry], into: &mut Vec<String>) {
    for entry in entries {
        match entry {
            MenuEntry::Action { id, .. } => into.push(id.clone()),
            MenuEntry::Submenu { children, .. } => collect_ids(children, into),
            _ => {}
        }
    }
}

fn ids(menu: &MenuTree) -> Vec<String> {
    let mut found = Vec::new();
    collect_ids(&menu.entries, &mut found);
    found
}

fn collect_kinds(entries: &[MenuEntry], into: &mut Vec<PredefinedKind>) {
    for entry in entries {
        match entry {
            MenuEntry::Predefined { kind } => into.push(*kind),
            MenuEntry::Submenu { children, .. } => collect_kinds(children, into),
            _ => {}
        }
    }
}

fn kinds(menu: &MenuTree) -> Vec<PredefinedKind> {
    let mut found = Vec::new();
    collect_kinds(&menu.entries, &mut found);
    found
}

fn labels(menu: &MenuTree) -> Vec<String> {
    menu.entries
        .iter()
        .map(|entry| match entry {
            MenuEntry::Submenu { label, .. } => label.clone(),
            other => panic!("top-level entry is no submenu: {:?}", other),
        })
        .collect()
}

fn children<'a>(menu: &'a MenuTree, label: &str) -> &'a Vec<MenuEntry> {
    for entry in &menu.entries {
        if let MenuEntry::Submenu { label: own, children } = entry {
            if own == label {
                return children;
            }
        }
    }
    panic!("no submenu labelled {}", label)
}

fn item(id: &str, label: &str) -> MenuEntry {
    MenuEntry::Action {
        id: id.to_string(),
        label: label.to_string(),
        accelerator: None,
        enabled: true,
    }
}

fn keyed(id: &str, label: &str, accelerator: &str) -> MenuEntry {
    MenuEntry::Action {
        id: id.to_string(),
        label: label.to_string(),
        accelerator: Some(accelerator.to_string()),
        enabled: true,
    }
}

fn pre(kind: PredefinedKind) -> MenuEntry {
    MenuEntry::Predefined { kind }
}

const PLATFORMS: [Platform; 3] = [Platform::MacOs, Platform::Windows, Platform::Linux];

const FLAGS: [bool; 2] = [false, true];

#[test]
fn every_context_builds_without_duplicate_ids() {
    for platform in PLATFORMS {
        for auto_update in FLAGS {
            for devtools in FLAGS {
                for undo in FLAGS {
                    let outcome = build(&context(platform, auto_update, devtools, undo));
                    assert!(outcome.is_ok());
                    let all = ids(&outcome.unwrap());
                    let distinct: HashSet<&String> = all.iter().collect();
                    assert_eq!(distinct.len(), all.len(), "{:?}", all);
                }
            }
        }
    }
}

#[test]
fn every_top_level_entry_is_a_submenu() {
    for platform in PLATFORMS {
        let menu = built(platform, true, true, true);
        for entry in &menu.entries {
            assert!(matches!(entry, MenuEntry::Submenu { .. }));
        }
    }
}

#[test]
fn same_context_gives_same_menu() {
    for platform in PLATFORMS {
        assert_eq!(built(platform, true, false, true), built(platform, true, false, true));
    }
    assert_ne!(built(Platform::Linux, true, false, false), built(Platform::Linux, false, false, false));
}

#[test]
fn root_order_on_macos() {
    let menu = built(Platform::MacOs, true, true, true);
    assert_eq!(labels(&menu), vec!["GitButler", "文件", "编辑", "视图", "项目", "窗口", "帮助"]);
}

#[test]
fn root_order_on_windows() {
    let menu = built(Platform::Windows, true, true, true);
    assert_eq!(labels(&menu), vec!["文件", "编辑", "视图", "项目", "帮助"]);
}

#[test]
fn root_order_on_linux() {
    let menu = built(Platform::Linux, true, true, true);
    assert_eq!(labels(&menu), vec!["文件", "视图", "项目", "帮助"]);
}

#[test]
fn linux_has_no_edit_submenu_and_no_macos_entries() {
    for auto_update in FLAGS {
        for devtools in FLAGS {
            for undo in FLAGS {
                let menu = built(Platform::Linux, auto_update, devtools, undo);
                let top = labels(&menu);
                assert!(!top.contains(&"编辑".to_string()));
                assert!(!top.contains(&"窗口".to_string()));
                assert!(!top.contains(&"GitButler".to_string()));
                assert_eq!(kinds(&menu), vec![PredefinedKind::Quit]);
                let all = ids(&menu);
                assert!(!all.contains(&"edit/undo".to_string()));
                assert!(!all.contains(&"edit/redo".to_string()));
                assert!(!all.contains(&"global/settings".to_string()));
            }
        }
    }
}

#[test]
fn windows_has_only_quit_and_the_clipboard_entries() {
    let menu = built(Platform::Windows, true, true, true);
    assert_eq!(
        kinds(&menu),
        vec![
            PredefinedKind::Quit,
            PredefinedKind::Cut,
            PredefinedKind::Copy,
            PredefinedKind::Paste
        ]
    );
}

#[test]
fn macos_predefined_entries_in_order() {
    let menu = built(Platform::MacOs, false, false, false);
    assert_eq!(
        kinds(&menu),
        vec![
            PredefinedKind::About,
            PredefinedKind::Services,
            PredefinedKind::Hide,
            PredefinedKind::HideOthers,
            PredefinedKind::ShowAll,
            PredefinedKind::Quit,
            PredefinedKind::CloseWindow,
            PredefinedKind::Cut,
            PredefinedKind::Copy,
            PredefinedKind::Paste,
            PredefinedKind::Fullscreen,
            PredefinedKind::Minimize,
            PredefinedKind::Maximize,
            PredefinedKind::CloseWindow,
        ]
    );
}

#[test]
fn app_submenu_with_updates() {
    let menu = built(Platform::MacOs, true, false, false);
    assert_eq!(
        children(&menu, "GitButler"),
        &vec![
            pre(PredefinedKind::About),
            MenuEntry::Separator,
            keyed("global/settings", "设置", "CmdOrCtrl+,"),
            item("global/update", "检查更新…"),
            MenuEntry::Separator,
            pre(PredefinedKind::Services),
            MenuEntry::Separator,
            pre(PredefinedKind::Hide),
            pre(PredefinedKind::HideOthers),
            pre(PredefinedKind::ShowAll),
            MenuEntry::Separator,
            pre(PredefinedKind::Quit),
        ]
    );
}

#[test]
fn app_submenu_without_updates() {
    let menu = built(Platform::MacOs, false, false, false);
    assert_eq!(
        children(&menu, "GitButler"),
        &vec![
            pre(PredefinedKind::About),
            MenuEntry::Separator,
            keyed("global/settings", "设置", "CmdOrCtrl+,"),
            MenuEntry::Separator,
            pre(PredefinedKind::Services),
            MenuEntry::Separator,
            pre(PredefinedKind::Hide),
            pre(PredefinedKind::HideOthers),
            pre(PredefinedKind::ShowAll),
            MenuEntry::Separator,
            pre(PredefinedKind::Quit),
        ]
    );
}

#[test]
fn app_submenu_carries_the_given_name() {
    let mut given = context(Platform::MacOs, false, false, false);
    given.app_name = String::from("Butler Nightly");
    let menu = build(&given).unwrap();
    assert_eq!(labels(&menu)[0], "Butler Nightly");
}

fn file_head() -> Vec<MenuEntry> {
    vec![
        keyed("file/add-local-repo", "添加本地仓库…", "CmdOrCtrl+O"),
        keyed("file/clone-repo", "克隆仓库…", "CmdOrCtrl+Shift+O"),
        MenuEntry::Separator,
        keyed("file/create-branch", "创建分支…", "CmdOrCtrl+B"),
        keyed("file/create-dependent-branch", "创建依赖分支…", "CmdOrCtrl+Shift+B"),
        MenuEntry::Separator,
    ]
}

#[test]
fn file_submenu_on_macos_closes_the_window() {
    for auto_update in FLAGS {
        let menu = built(Platform::MacOs, auto_update, false, false);
        let mut expected = file_head();
        expected.push(pre(PredefinedKind::CloseWindow));
        assert_eq!(children(&menu, "文件"), &expected);
    }
}

#[test]
fn file_submenu_off_macos_quits_and_updates() {
    for platform in [Platform::Windows, Platform::Linux] {
        let menu = built(platform, true, false, false);
        let mut expected = file_head();
        expected.push(pre(PredefinedKind::Quit));
        expected.push(item("global/update", "检查更新…"));
        assert_eq!(children(&menu, "文件"), &expected);
    }
}

#[test]
fn file_submenu_off_macos_without_updates() {
    for platform in [Platform::Windows, Platform::Linux] {
        let menu = built(platform, false, false, false);
        let mut expected = file_head();
        expected.push(pre(PredefinedKind::Quit));
        assert_eq!(children(&menu, "文件"), &expected);
    }
}

#[test]
fn update_entry_appears_at_most_once() {
    for platform in PLATFORMS {
        for auto_update in FLAGS {
            let menu = built(platform, auto_update, true, true);
            let count = ids(&menu).iter().filter(|id| id.as_str() == "global/update").count();
            assert_eq!(count, if auto_update { 1 } else { 0 });
        }
    }
}

#[test]
fn edit_submenu_on_macos_with_undo() {
    let menu = built(Platform::MacOs, false, false, true);
    assert_eq!(
        children(&menu, "编辑"),
        &vec![
            keyed("edit/undo", "撤销", "CmdOrCtrl+Z"),
            keyed("edit/redo", "重做", "CmdOrCtrl+Shift+Z"),
            MenuEntry::Separator,
            pre(PredefinedKind::Cut),
            pre(PredefinedKind::Copy),
            pre(PredefinedKind::Paste),
        ]
    );
    let mut actions = Vec::new();
    collect_ids(children(&menu, "编辑"), &mut actions);
    assert_eq!(actions, vec!["edit/undo", "edit/redo"]);
}

#[test]
fn edit_submenu_on_macos_without_undo() {
    let menu = built(Platform::MacOs, false, false, false);
    assert_eq!(
        children(&menu, "编辑"),
        &vec![pre(PredefinedKind::Cut), pre(PredefinedKind::Copy), pre(PredefinedKind::Paste)]
    );
}

#[test]
fn edit_submenu_on_windows_never_has_undo() {
    for undo in FLAGS {
        let menu = built(Platform::Windows, true, true, undo);
        assert_eq!(
            children(&menu, "编辑"),
            &vec![pre(PredefinedKind::Cut), pre(PredefinedKind::Copy), pre(PredefinedKind::Paste)]
        );
        let all = ids(&menu);
        assert!(!all.contains(&"edit/undo".to_string()));
        assert!(!all.contains(&"edit/redo".to_string()));
    }
}

fn view_fixed() -> Vec<MenuEntry> {
    vec![
        keyed("view/switch-theme", "切换主题", "CmdOrCtrl+T"),
        keyed("view/toggle-sidebar", "切换未分配面板", "CmdOrCtrl+\\"),
        MenuEntry::Separator,
        keyed("view/zoom-in", "放大", "CmdOrCtrl+="),
        keyed("view/zoom-out", "缩小", "CmdOrCtrl+-"),
        keyed("view/zoom-reset", "重置缩放", "CmdOrCtrl+0"),
        MenuEntry::Separator,
    ]
}

#[test]
fn view_submenu_plain() {
    for platform in [Platform::Windows, Platform::Linux] {
        let menu = built(platform, false, false, false);
        assert_eq!(children(&menu, "视图"), &view_fixed());
    }
}

#[test]
fn view_submenu_on_macos_starts_with_fullscreen() {
    let menu = built(Platform::MacOs, false, false, false);
    let mut expected = vec![pre(PredefinedKind::Fullscreen)];
    expected.extend(view_fixed());
    assert_eq!(children(&menu, "视图"), &expected);
}

#[test]
fn view_submenu_with_devtools() {
    let menu = built(Platform::Linux, false, true, false);
    let mut expected = view_fixed();
    expected.push(keyed("view/devtools", "开发者工具", "CmdOrCtrl+Shift+C"));
    expected.push(keyed("view/reload", "重新加载视图", "CmdOrCtrl+R"));
    assert_eq!(children(&menu, "视图"), &expected);
}

#[test]
fn devtools_entry_follows_the_flag() {
    for platform in PLATFORMS {
        for devtools in FLAGS {
            let all = ids(&built(platform, true, devtools, true));
            assert_eq!(all.contains(&"view/devtools".to_string()), devtools);
            assert_eq!(all.contains(&"view/reload".to_string()), devtools);
        }
    }
}

fn project(file_manager: &str) -> Vec<MenuEntry> {
    vec![
        keyed("project/history", "操作历史", "CmdOrCtrl+Shift+H"),
        MenuEntry::Separator,
        item("project/open-in-vscode", "在编辑器中打开"),
        item("project/show-in-finder", file_manager),
        MenuEntry::Separator,
        item("project/settings", "项目设置"),
    ]
}

#[test]
fn project_submenu_names_the_file_manager_of_the_platform() {
    assert_eq!(children(&built(Platform::MacOs, false, false, false), "项目"), &project("在 Finder 中显示"));
    assert_eq!(children(&built(Platform::Windows, false, false, false), "项目"), &project("在资源管理器中显示"));
    assert_eq!(children(&built(Platform::Linux, false, false, false), "项目"), &project("在文件管理器中显示"));
}

#[test]
fn window_submenu_on_macos() {
    let menu = built(Platform::MacOs, false, false, false);
    assert_eq!(
        children(&menu, "窗口"),
        &vec![
            pre(PredefinedKind::Minimize),
            pre(PredefinedKind::Maximize),
            MenuEntry::Separator,
            pre(PredefinedKind::CloseWindow),
        ]
    );
}

#[test]
fn help_submenu_ends_with_the_disabled_version() {
    for platform in PLATFORMS {
        let menu = built(platform, true, true, true);
        assert_eq!(
            children(&menu, "帮助"),
            &vec![
                item("help/documentation", "文档"),
                item("help/debugging-guide", "调试指南"),
                item("help/github", "源代码"),
                item("help/release-notes", "发布说明"),
                MenuEntry::Separator,
                item("help/share-debug-info", "分享调试信息…"),
                item("help/report-issue", "创建问题反馈"),
                MenuEntry::Separator,
                item("help/open-logs-folder", "打开日志文件夹"),
                item("help/open-config-folder", "打开配置文件夹"),
                MenuEntry::Separator,
                item("help/discord", "Discord"),
                item("help/youtube", "YouTube"),
                item("help/bluesky", "Bluesky"),
                item("help/x", "X"),
                MenuEntry::Separator,
                MenuEntry::Action {
                    id: "help/version".to_string(),
                    label: "Version 1.2.3".to_string(),
                    accelerator: None,
                    enabled: false,
                },
            ]
        );
    }
}

#[test]
fn version_label_embeds_the_given_version() {
    let mut given = context(Platform::Linux, false, false, false);
    given.app_version = String::from("0.14.7-nightly");
    let menu = build(&given).unwrap();
    match children(&menu, "帮助").last().unwrap() {
        MenuEntry::Action { label, enabled, .. } => {
            assert_eq!(label, "Version 0.14.7-nightly");
            assert!(!*enabled);
        }
        other => panic!("unexpected entry {:?}", other),
    }
}

#[test]
fn all_identifiers_of_the_fullest_macos_menu() {
    let menu = built(Platform::MacOs, true, true, true);
    assert_eq!(
        ids(&menu),
        vec![
            "global/settings",
            "global/update",
            "file/add-local-repo",
            "file/clone-repo",
            "file/create-branch",
            "file/create-dependent-branch",
            "edit/undo",
            "edit/redo",
            "view/switch-theme",
            "view/toggle-sidebar",
            "view/zoom-in",
            "view/zoom-out",
            "view/zoom-reset",
            "view/devtools",
            "view/reload",
            "project/history",
            "project/open-in-vscode",
            "project/show-in-finder",
            "project/settings",
            "help/documentation",
            "help/debugging-guide",
            "help/github",
            "help/release-notes",
            "help/share-debug-info",
            "help/report-issue",
            "help/open-logs-folder",
            "help/open-config-folder",
            "help/discord",
            "help/youtube",
            "help/bluesky",
            "help/x",
            "help/version",
        ]
    );
}

#[test]
fn all_identifiers_of_the_barest_linux_menu() {
    let menu = built(Platform::Linux, false, false, false);
    assert_eq!(
        ids(&menu),
        vec![
            "file/add-local-repo",
            "file/clone-repo",
            "file/create-branch",
            "file/create-dependent-branch",
            "view/switch-theme",
            "view/toggle-sidebar",
            "view/zoom-in",
            "view/zoom-out",
            "view/zoom-reset",
            "project/history",
            "project/open-in-vscode",
            "project/show-in-finder",
            "project/settings",
            "help/documentation",
            "help/debugging-guide",
            "help/github",
            "help/release-notes",
            "help/share-debug-info",
            "help/report-issue",
            "help/open-logs-folder",
            "help/open-config-folder",
            "help/discord",
            "help/youtube",
            "help/bluesky",
            "help/x",
            "help/version",
        ]
    );
}

fn check_enabled_flags(entries: &[MenuEntry]) {
    for entry in entries {
        match entry {
            MenuEntry::Action { id, enabled, .. } => assert_eq!(*enabled, id != "help/version"),
            MenuEntry::Submenu { children, .. } => check_enabled_flags(children),
            _ => {}
        }
    }
}

#[test]
fn only_the_version_entry_is_disabled() {
    for platform in PLATFORMS {
        check_enabled_flags(&built(platform, true, true, true).entries);
    }
}

#[test]
fn entry_builders_fill_in_the_fields() {
    assert_eq!(MenuEntry::item("a/b", "Label"), item("a/b", "Label"));
    assert_eq!(MenuEntry::keyed_item("a/b", "Label", "CmdOrCtrl+K"), keyed("a/b", "Label", "CmdOrCtrl+K"));
    assert_eq!(
        MenuEntry::disabled_item("a/b", "Label".to_string()),
        MenuEntry::Action {
            id: "a/b".to_string(),
            label: "Label".to_string(),
            accelerator: None,
            enabled: false
        }
    );
    assert_eq!(MenuEntry::predefined(PredefinedKind::Copy), pre(PredefinedKind::Copy));
    assert_eq!(
        MenuEntry::submenu("Top".to_string(), vec![MenuEntry::Separator]),
        MenuEntry::Submenu { label: "Top".to_string(), children: vec![MenuEntry::Separator] }
    );
}

#[test]
fn a_refusal_of_the_toolkit_leaves_no_menu() {
    let menu = built(Platform::Windows, true, true, true);
    assert_eq!(
        finish_build(menu, Err("out of handles".to_string())),
        Err(BuildError::Toolkit { reason: "out of handles".to_string() })
    );
}

#[test]
fn a_menu_the_toolkit_created_stands() {
    let menu = built(Platform::Windows, true, true, true);
    assert_eq!(finish_build(menu, Ok(())), Ok(built(Platform::Windows, true, true, true)));
}

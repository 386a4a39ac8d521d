use vstd::prelude::*;
use vstd::string::StringExecFns;
use crate::ident::{fingerprint, lemma_identifier_fingerprints};
use crate::tree::{
    add_entry, disabled_item, entry_ids, entry_views, item, keyed_item, lemma_seq_ids_concat,
    lemma_seq_ids_push, lemma_seq_kinds_concat, lemma_seq_kinds_push, predefined, seq_ids,
    seq_kinds, submenu, well_formed, EntryView, MenuEntry, MenuTree, Platform, PredefinedKind,
};

verus! {

/// Everything the shape of the menu depends on.
#[derive(Clone, Debug, PartialEq, Eq)]
pub struct BuildContext {
    pub platform: Platform,
    pub auto_update_enabled: bool,
    pub devtools_enabled: bool,
    pub undo_feature_enabled: bool,
    pub app_version: String,
    pub app_name: String,
}

/// The mathematical value of a [`BuildContext`].
pub struct ContextView {
    pub platform: Platform,
    pub auto_update_enabled: bool,
    pub devtools_enabled: bool,
    pub undo_feature_enabled: bool,
    pub app_version: Seq<char>,
    pub app_name: Seq<char>,
}

impl View for BuildContext {
    type V = ContextView;

    open spec fn view(&self) -> ContextView {
        ContextView {
            platform: self.platform,
            auto_update_enabled: self.auto_update_enabled,
            devtools_enabled: self.devtools_enabled,
            undo_feature_enabled: self.undo_feature_enabled,
            app_version: self.app_version@,
            app_name: self.app_name@,
        }
    }
}

/// Why no menu could be had.
#[derive(Clone, Debug, PartialEq, Eq)]
pub enum BuildError {
    /// The toolkit refused to create or install an entry.
    Toolkit { reason: String },
}

// ---------------------------------------------------------------------------
// What the menu is
// ---------------------------------------------------------------------------

/// The entry that checks for a new release.
pub open spec fn update_item() -> EntryView {
    item("global/update"@, "检查更新…"@)
}

/// How the entry that reveals the project folder names the platform's file manager.
pub open spec fn file_manager_label(platform: Platform) -> Seq<char> {
    match platform {
        Platform::MacOs => "在 Finder 中显示"@,
        Platform::Windows => "在资源管理器中显示"@,
        Platform::Linux => "在文件管理器中显示"@,
    }
}

/// The entry that shows the version and cannot be clicked.
pub open spec fn version_item(ctx: ContextView) -> EntryView {
    disabled_item("help/version"@, "Version "@ + ctx.app_version)
}

/// The start of the application's own submenu.
pub open spec fn app_head() -> Seq<EntryView> {
    Seq::empty()
        .push(predefined(PredefinedKind::About))
        .push(EntryView::Separator)
        .push(keyed_item("global/settings"@, "设置"@, "CmdOrCtrl+,"@))
}

/// The update entry, where updates are looked for.
pub open spec fn update_part(ctx: ContextView) -> Seq<EntryView> {
    if ctx.auto_update_enabled {
        Seq::empty().push(update_item())
    } else {
        Seq::empty()
    }
}

/// The end of the application's own submenu.
pub open spec fn app_tail() -> Seq<EntryView> {
    Seq::empty()
        .push(EntryView::Separator)
        .push(predefined(PredefinedKind::Services))
        .push(EntryView::Separator)
        .push(predefined(PredefinedKind::Hide))
        .push(predefined(PredefinedKind::HideOthers))
        .push(predefined(PredefinedKind::ShowAll))
        .push(EntryView::Separator)
        .push(predefined(PredefinedKind::Quit))
}

/// The application's own submenu, which only macOS has.
pub open spec fn app_submenu(ctx: ContextView) -> EntryView {
    submenu(ctx.app_name, app_head() + update_part(ctx) + app_tail())
}

/// The entries every File submenu starts with.
pub open spec fn file_head() -> Seq<EntryView> {
    Seq::empty()
        .push(keyed_item("file/add-local-repo"@, "添加本地仓库…"@, "CmdOrCtrl+O"@))
        .push(keyed_item("file/clone-repo"@, "克隆仓库…"@, "CmdOrCtrl+Shift+O"@))
        .push(EntryView::Separator)
        .push(keyed_item("file/create-branch"@, "创建分支…"@, "CmdOrCtrl+B"@))
        .push(keyed_item("file/create-dependent-branch"@, "创建依赖分支…"@, "CmdOrCtrl+Shift+B"@))
        .push(EntryView::Separator)
}

/// How the File submenu ends: macOS closes the window there; the others
/// quit there and, having no submenu of the application's own, look for
/// updates there.
pub open spec fn file_tail(ctx: ContextView) -> Seq<EntryView> {
    if ctx.platform == Platform::MacOs {
        Seq::empty().push(predefined(PredefinedKind::CloseWindow))
    } else {
        Seq::empty().push(predefined(PredefinedKind::Quit)) + update_part(ctx)
    }
}

/// The File submenu.
pub open spec fn file_submenu(ctx: ContextView) -> EntryView {
    submenu("文件"@, file_head() + file_tail(ctx))
}

/// Undo and redo, which only macOS offers, and only where the feature is on.
pub open spec fn undo_part(ctx: ContextView) -> Seq<EntryView> {
    if ctx.undo_feature_enabled && ctx.platform == Platform::MacOs {
        Seq::empty()
            .push(keyed_item("edit/undo"@, "撤销"@, "CmdOrCtrl+Z"@))
            .push(keyed_item("edit/redo"@, "重做"@, "CmdOrCtrl+Shift+Z"@))
            .push(EntryView::Separator)
    } else {
        Seq::empty()
    }
}

/// Cut, copy and paste.
pub open spec fn clipboard_part() -> Seq<EntryView> {
    Seq::empty()
        .push(predefined(PredefinedKind::Cut))
        .push(predefined(PredefinedKind::Copy))
        .push(predefined(PredefinedKind::Paste))
}

/// The Edit submenu, which Linux does not have.
pub open spec fn edit_submenu(ctx: ContextView) -> EntryView {
    submenu("编辑"@, undo_part(ctx) + clipboard_part())
}

/// What macOS puts first in the View submenu.
pub open spec fn fullscreen_part(ctx: ContextView) -> Seq<EntryView> {
    if ctx.platform == Platform::MacOs {
        Seq::empty().push(predefined(PredefinedKind::Fullscreen))
    } else {
        Seq::empty()
    }
}

/// The entries every View submenu has.
pub open spec fn view_fixed() -> Seq<EntryView> {
    Seq::empty()
        .push(keyed_item("view/switch-theme"@, "切换主题"@, "CmdOrCtrl+T"@))
        .push(keyed_item("view/toggle-sidebar"@, "切换未分配面板"@, "CmdOrCtrl+\\"@))
        .push(EntryView::Separator)
        .push(keyed_item("view/zoom-in"@, "放大"@, "CmdOrCtrl+="@))
        .push(keyed_item("view/zoom-out"@, "缩小"@, "CmdOrCtrl+-"@))
        .push(keyed_item("view/zoom-reset"@, "重置缩放"@, "CmdOrCtrl+0"@))
        .push(EntryView::Separator)
}

/// The entries that only builds with developer tools have.
pub open spec fn devtools_part(ctx: ContextView) -> Seq<EntryView> {
    if ctx.devtools_enabled {
        Seq::empty()
            .push(keyed_item("view/devtools"@, "开发者工具"@, "CmdOrCtrl+Shift+C"@))
            .push(keyed_item("view/reload"@, "重新加载视图"@, "CmdOrCtrl+R"@))
    } else {
        Seq::empty()
    }
}

/// The View submenu.
pub open spec fn view_submenu(ctx: ContextView) -> EntryView {
    submenu("视图"@, fullscreen_part(ctx) + view_fixed() + devtools_part(ctx))
}

/// The Project submenu.
pub open spec fn project_submenu(ctx: ContextView) -> EntryView {
    submenu(
        "项目"@,
        Seq::empty()
            .push(keyed_item("project/history"@, "操作历史"@, "CmdOrCtrl+Shift+H"@))
            .push(EntryView::Separator)
            .push(item("project/open-in-vscode"@, "在编辑器中打开"@))
            .push(item("project/show-in-finder"@, file_manager_label(ctx.platform)))
            .push(EntryView::Separator)
            .push(item("project/settings"@, "项目设置"@)),
    )
}

/// The Window submenu, which only macOS has.
pub open spec fn window_submenu() -> EntryView {
    submenu(
        "窗口"@,
        Seq::empty()
            .push(predefined(PredefinedKind::Minimize))
            .push(predefined(PredefinedKind::Maximize))
            .push(EntryView::Separator)
            .push(predefined(PredefinedKind::CloseWindow)),
    )
}

/// The entries of the Help submenu above the version.
pub open spec fn help_fixed() -> Seq<EntryView> {
    Seq::empty()
        .push(item("help/documentation"@, "文档"@))
        .push(item("help/debugging-guide"@, "调试指南"@))
        .push(item("help/github"@, "源代码"@))
        .push(item("help/release-notes"@, "发布说明"@))
        .push(EntryView::Separator)
        .push(item("help/share-debug-info"@, "分享调试信息…"@))
        .push(item("help/report-issue"@, "创建问题反馈"@))
        .push(EntryView::Separator)
        .push(item("help/open-logs-folder"@, "打开日志文件夹"@))
        .push(item("help/open-config-folder"@, "打开配置文件夹"@))
        .push(EntryView::Separator)
        .push(item("help/discord"@, "Discord"@))
        .push(item("help/youtube"@, "YouTube"@))
        .push(item("help/bluesky"@, "Bluesky"@))
        .push(item("help/x"@, "X"@))
        .push(EntryView::Separator)
}

/// The Help submenu.
pub open spec fn help_submenu(ctx: ContextView) -> EntryView {
    submenu("帮助"@, help_fixed().push(version_item(ctx)))
}

/// The menu for `ctx`: the top-level submenus, in display order.
pub open spec fn menu_for(ctx: ContextView) -> Seq<EntryView> {
    match ctx.platform {
        Platform::MacOs => Seq::empty()
            .push(app_submenu(ctx))
            .push(file_submenu(ctx))
            .push(edit_submenu(ctx))
            .push(view_submenu(ctx))
            .push(project_submenu(ctx))
            .push(window_submenu())
            .push(help_submenu(ctx)),
        Platform::Windows => Seq::empty()
            .push(file_submenu(ctx))
            .push(edit_submenu(ctx))
            .push(view_submenu(ctx))
            .push(project_submenu(ctx))
            .push(help_submenu(ctx)),
        Platform::Linux => Seq::empty()
            .push(file_submenu(ctx))
            .push(view_submenu(ctx))
            .push(project_submenu(ctx))
            .push(help_submenu(ctx)),
    }
}

// ---------------------------------------------------------------------------
// Which identifiers it holds
// ---------------------------------------------------------------------------

/// The update identifier, where `wanted` says that the entry is there.
pub open spec fn update_id(wanted: bool) -> Seq<Seq<char>> {
    if wanted {
        seq!["global/update"@]
    } else {
        Seq::empty()
    }
}

/// The identifiers of the application's own submenu.
pub open spec fn app_ids(ctx: ContextView) -> Seq<Seq<char>> {
    seq!["global/settings"@] + update_id(ctx.auto_update_enabled)
}

/// The identifiers of the File submenu.
pub open spec fn file_ids(ctx: ContextView) -> Seq<Seq<char>> {
    seq![
        "file/add-local-repo"@,
        "file/clone-repo"@,
        "file/create-branch"@,
        "file/create-dependent-branch"@,
    ] + update_id(ctx.platform != Platform::MacOs && ctx.auto_update_enabled)
}

/// The identifiers of the Edit submenu.
pub open spec fn edit_ids(ctx: ContextView) -> Seq<Seq<char>> {
    if ctx.undo_feature_enabled && ctx.platform == Platform::MacOs {
        seq!["edit/undo"@, "edit/redo"@]
    } else {
        Seq::empty()
    }
}

/// The identifiers of the View submenu.
pub open spec fn view_ids(ctx: ContextView) -> Seq<Seq<char>> {
    seq![
        "view/switch-theme"@,
        "view/toggle-sidebar"@,
        "view/zoom-in"@,
        "view/zoom-out"@,
        "view/zoom-reset"@,
    ] + (if ctx.devtools_enabled {
        seq!["view/devtools"@, "view/reload"@]
    } else {
        Seq::empty()
    })
}

/// The identifiers of the Project submenu.
pub open spec fn project_ids() -> Seq<Seq<char>> {
    seq![
        "project/history"@,
        "project/open-in-vscode"@,
        "project/show-in-finder"@,
        "project/settings"@,
    ]
}

/// The identifiers of the Help submenu.
pub open spec fn help_ids() -> Seq<Seq<char>> {
    seq![
        "help/documentation"@,
        "help/debugging-guide"@,
        "help/github"@,
        "help/release-notes"@,
        "help/share-debug-info"@,
        "help/report-issue"@,
        "help/open-logs-folder"@,
        "help/open-config-folder"@,
        "help/discord"@,
        "help/youtube"@,
        "help/bluesky"@,
        "help/x"@,
        "help/version"@,
    ]
}

/// Every identifier of the menu for `ctx`, in display order.
pub open spec fn menu_ids(ctx: ContextView) -> Seq<Seq<char>> {
    (if ctx.platform == Platform::MacOs {
        app_ids(ctx)
    } else {
        Seq::empty()
    }) + file_ids(ctx) + (if ctx.platform == Platform::Linux {
        Seq::empty()
    } else {
        edit_ids(ctx)
    }) + view_ids(ctx) + project_ids() + help_ids()
}

/// The identifiers of the application's own submenu are those listed.
pub proof fn lemma_app_ids(ctx: ContextView)
    ensures
        entry_ids(app_submenu(ctx)) == app_ids(ctx),
{
    broadcast use {lemma_seq_ids_push, lemma_seq_ids_concat};
    assert(seq_ids(app_submenu(ctx)->children) =~= app_ids(ctx));
}

/// The identifiers of the File submenu are those listed.
pub proof fn lemma_file_ids(ctx: ContextView)
    ensures
        entry_ids(file_submenu(ctx)) == file_ids(ctx),
{
    broadcast use {lemma_seq_ids_push, lemma_seq_ids_concat};
    assert(seq_ids(file_submenu(ctx)->children) =~= file_ids(ctx));
}

/// The identifiers of the Edit submenu are those listed.
pub proof fn lemma_edit_ids(ctx: ContextView)
    ensures
        entry_ids(edit_submenu(ctx)) == edit_ids(ctx),
{
    broadcast use {lemma_seq_ids_push, lemma_seq_ids_concat};
    assert(seq_ids(edit_submenu(ctx)->children) =~= edit_ids(ctx));
}

/// The identifiers of the View submenu are those listed.
pub proof fn lemma_view_ids(ctx: ContextView)
    ensures
        entry_ids(view_submenu(ctx)) == view_ids(ctx),
{
    broadcast use {lemma_seq_ids_push, lemma_seq_ids_concat};
    assert(seq_ids(view_submenu(ctx)->children) =~= view_ids(ctx));
}

/// The identifiers of the Project submenu are those listed.
pub proof fn lemma_project_ids(ctx: ContextView)
    ensures
        entry_ids(project_submenu(ctx)) == project_ids(),
{
    broadcast use {lemma_seq_ids_push, lemma_seq_ids_concat};
    assert(seq_ids(project_submenu(ctx)->children) =~= project_ids());
}

/// The Window submenu holds no action entry.
pub proof fn lemma_window_ids()
    ensures
        entry_ids(window_submenu()) == Seq::<Seq<char>>::empty(),
{
    broadcast use {lemma_seq_ids_push, lemma_seq_ids_concat};
    assert(seq_ids(window_submenu()->children) =~= Seq::<Seq<char>>::empty());
}

/// The identifiers of the Help submenu are those listed.
pub proof fn lemma_help_ids(ctx: ContextView)
    ensures
        entry_ids(help_submenu(ctx)) == help_ids(),
{
    broadcast use {lemma_seq_ids_push, lemma_seq_ids_concat};
    assert(seq_ids(help_submenu(ctx)->children) =~= help_ids());
}

/// The identifiers of the whole menu are those of its submenus, in order.
pub proof fn lemma_menu_ids(ctx: ContextView)
    ensures
        seq_ids(menu_for(ctx)) == menu_ids(ctx),
{
    broadcast use {lemma_seq_ids_push, lemma_seq_ids_concat};
    lemma_app_ids(ctx);
    lemma_file_ids(ctx);
    lemma_edit_ids(ctx);
    lemma_view_ids(ctx);
    lemma_project_ids(ctx);
    lemma_window_ids();
    lemma_help_ids(ctx);
    assert(seq_ids(menu_for(ctx)) =~= menu_ids(ctx));
}

/// Whether every identifier of `ids` starts with one of `initials`.
pub open spec fn starts_within(ids: Seq<Seq<char>>, initials: Set<char>) -> bool {
    forall|i: int| 0 <= i < ids.len() ==> initials.contains(#[trigger] ids[i][0])
}

/// Two lists without duplicates, whose identifiers start with different
/// characters, join to a list without duplicates.
proof fn lemma_join_unique(
    front: Seq<Seq<char>>,
    back: Seq<Seq<char>>,
    front_initials: Set<char>,
    back_initials: Set<char>,
)
    requires
        front.no_duplicates(),
        back.no_duplicates(),
        starts_within(front, front_initials),
        starts_within(back, back_initials),
        front_initials.disjoint(back_initials),
    ensures
        (front + back).no_duplicates(),
        starts_within(front + back, front_initials + back_initials),
{
    assert forall|i: int, j: int| 0 <= i < front.len() && 0 <= j < back.len() implies front[i]
        != back[j] by {
        assert(front_initials.contains(front[i][0]));
        assert(back_initials.contains(back[j][0]));
    }
    vstd::seq_lib::lemma_no_dup_in_concat(front, back);
}

/// The identifiers of one group differ from each other and start alike.
proof fn lemma_group_ids(ctx: ContextView)
    ensures
        app_ids(ctx).no_duplicates(),
        starts_within(app_ids(ctx), set!['g']),
        file_ids(ctx).no_duplicates(),
        starts_within(file_ids(ctx), set!['f', 'g']),
        ctx.platform == Platform::MacOs ==> starts_within(file_ids(ctx), set!['f']),
        edit_ids(ctx).no_duplicates(),
        starts_within(edit_ids(ctx), set!['e']),
        view_ids(ctx).no_duplicates(),
        starts_within(view_ids(ctx), set!['v']),
        project_ids().no_duplicates(),
        starts_within(project_ids(), set!['p']),
        help_ids().no_duplicates(),
        starts_within(help_ids(), set!['h']),
{
    lemma_identifier_fingerprints();
    assert forall|i: int, j: int|
        0 <= i < app_ids(ctx).len() && 0 <= j < app_ids(ctx).len() && i != j implies fingerprint(
        app_ids(ctx)[i],
    ) != fingerprint(app_ids(ctx)[j]) by {}
    assert forall|i: int, j: int|
        0 <= i < file_ids(ctx).len() && 0 <= j < file_ids(ctx).len() && i != j implies fingerprint(
        file_ids(ctx)[i],
    ) != fingerprint(file_ids(ctx)[j]) by {}
    assert forall|i: int, j: int|
        0 <= i < edit_ids(ctx).len() && 0 <= j < edit_ids(ctx).len() && i != j implies fingerprint(
        edit_ids(ctx)[i],
    ) != fingerprint(edit_ids(ctx)[j]) by {}
    assert forall|i: int, j: int|
        0 <= i < view_ids(ctx).len() && 0 <= j < view_ids(ctx).len() && i != j implies fingerprint(
        view_ids(ctx)[i],
    ) != fingerprint(view_ids(ctx)[j]) by {}
    assert forall|i: int, j: int|
        0 <= i < project_ids().len() && 0 <= j < project_ids().len() && i != j implies fingerprint(
        project_ids()[i],
    ) != fingerprint(project_ids()[j]) by {}
    assert forall|i: int, j: int|
        0 <= i < help_ids().len() && 0 <= j < help_ids().len() && i != j implies fingerprint(
        help_ids()[i],
    ) != fingerprint(help_ids()[j]) by {}
    assert forall|i: int| 0 <= i < app_ids(ctx).len() implies fingerprint(app_ids(ctx)[i]).1
        == 'g' by {}
    assert forall|i: int| 0 <= i < file_ids(ctx).len() implies fingerprint(file_ids(ctx)[i]).1
        == 'f' || (ctx.platform != Platform::MacOs && fingerprint(file_ids(ctx)[i]).1 == 'g') by {}
    assert forall|i: int| 0 <= i < edit_ids(ctx).len() implies fingerprint(edit_ids(ctx)[i]).1
        == 'e' by {}
    assert forall|i: int| 0 <= i < view_ids(ctx).len() implies fingerprint(view_ids(ctx)[i]).1
        == 'v' by {}
    assert forall|i: int| 0 <= i < project_ids().len() implies fingerprint(project_ids()[i]).1
        == 'p' by {}
    assert forall|i: int| 0 <= i < help_ids().len() implies fingerprint(help_ids()[i]).1
        == 'h' by {}
}

/// No identifier names two entries of a built menu.
pub proof fn lemma_menu_ids_unique(ctx: ContextView)
    ensures
        menu_ids(ctx).no_duplicates(),
{
    lemma_group_ids(ctx);
    let none = Seq::<Seq<char>>::empty();
    let app = if ctx.platform == Platform::MacOs {
        app_ids(ctx)
    } else {
        none
    };
    let edit = if ctx.platform == Platform::Linux {
        none
    } else {
        edit_ids(ctx)
    };
    if ctx.platform == Platform::MacOs {
        lemma_join_unique(app, file_ids(ctx), set!['g'], set!['f']);
        assert(set!['g'] + set!['f'] =~= set!['f', 'g']);
    } else {
        assert(app + file_ids(ctx) =~= file_ids(ctx));
    }
    let upto_file = app + file_ids(ctx);
    lemma_join_unique(upto_file, edit, set!['f', 'g'], set!['e']);
    let upto_edit = upto_file + edit;
    lemma_join_unique(upto_edit, view_ids(ctx), set!['f', 'g'] + set!['e'], set!['v']);
    let upto_view = upto_edit + view_ids(ctx);
    lemma_join_unique(upto_view, project_ids(), set!['f', 'g'] + set!['e'] + set!['v'], set!['p']);
    let upto_project = upto_view + project_ids();
    lemma_join_unique(
        upto_project,
        help_ids(),
        set!['f', 'g'] + set!['e'] + set!['v'] + set!['p'],
        set!['h'],
    );
}

/// Every menu that is built is well formed: its top-level entries are
/// submenus, and no identifier names two of its action entries.
pub proof fn lemma_menu_well_formed(ctx: ContextView)
    ensures
        well_formed(menu_for(ctx)),
{
    lemma_menu_ids(ctx);
    lemma_menu_ids_unique(ctx);
}

/// Off macOS a menu has neither the application's own submenu nor a Window
/// submenu, and none of the toolkit's entries that only macOS has: on Linux,
/// which has no Edit submenu either, the one such entry is Quit; on Windows
/// they are Quit, Cut, Copy and Paste.
pub proof fn lemma_menu_off_macos(ctx: ContextView)
    requires
        ctx.platform != Platform::MacOs,
    ensures
        ctx.platform == Platform::Linux ==> menu_for(ctx) == seq![
            file_submenu(ctx),
            view_submenu(ctx),
            project_submenu(ctx),
            help_submenu(ctx),
        ] && seq_kinds(menu_for(ctx)) == seq![PredefinedKind::Quit],
        ctx.platform == Platform::Windows ==> menu_for(ctx) == seq![
            file_submenu(ctx),
            edit_submenu(ctx),
            view_submenu(ctx),
            project_submenu(ctx),
            help_submenu(ctx),
        ] && seq_kinds(menu_for(ctx)) == seq![
            PredefinedKind::Quit,
            PredefinedKind::Cut,
            PredefinedKind::Copy,
            PredefinedKind::Paste,
        ],
{
    broadcast use {lemma_seq_kinds_push, lemma_seq_kinds_concat};
    assert(seq_kinds(file_submenu(ctx)->children) =~= seq![PredefinedKind::Quit]);
    assert(seq_kinds(edit_submenu(ctx)->children) =~= seq![
        PredefinedKind::Cut,
        PredefinedKind::Copy,
        PredefinedKind::Paste,
    ]);
    assert(seq_kinds(view_submenu(ctx)->children) =~= Seq::<PredefinedKind>::empty());
    assert(seq_kinds(project_submenu(ctx)->children) =~= Seq::<PredefinedKind>::empty());
    assert(seq_kinds(help_submenu(ctx)->children) =~= Seq::<PredefinedKind>::empty());
    if ctx.platform == Platform::Linux {
        assert(menu_for(ctx) =~= seq![
            file_submenu(ctx),
            view_submenu(ctx),
            project_submenu(ctx),
            help_submenu(ctx),
        ]);
        assert(seq_kinds(menu_for(ctx)) =~= seq![PredefinedKind::Quit]);
    } else {
        assert(menu_for(ctx) =~= seq![
            file_submenu(ctx),
            edit_submenu(ctx),
            view_submenu(ctx),
            project_submenu(ctx),
            help_submenu(ctx),
        ]);
        assert(seq_kinds(menu_for(ctx)) =~= seq![
            PredefinedKind::Quit,
            PredefinedKind::Cut,
            PredefinedKind::Copy,
            PredefinedKind::Paste,
        ]);
    }
}

/// Undo and redo are offered on macOS alone. With the feature on, they are
/// the first two entries of the Edit submenu there, undo before redo, and its
/// only action entries. On Windows the Edit submenu has no action entry,
/// whatever the feature says.
pub proof fn lemma_undo_only_on_macos(ctx: ContextView)
    ensures
        ctx.platform == Platform::MacOs ==> menu_for(ctx)[2] == edit_submenu(ctx),
        ctx.platform == Platform::MacOs && ctx.undo_feature_enabled ==> {
            &&& edit_submenu(ctx)->children[0] == keyed_item("edit/undo"@, "撤销"@, "CmdOrCtrl+Z"@)
            &&& edit_submenu(ctx)->children[1] == keyed_item(
                "edit/redo"@,
                "重做"@,
                "CmdOrCtrl+Shift+Z"@,
            )
            &&& entry_ids(edit_submenu(ctx)) == seq!["edit/undo"@, "edit/redo"@]
        },
        ctx.platform == Platform::Windows ==> menu_for(ctx)[1] == edit_submenu(ctx) && entry_ids(
            edit_submenu(ctx),
        ) == Seq::<Seq<char>>::empty(),
        !seq_ids(menu_for(ctx)).contains("edit/undo"@) || (ctx.platform == Platform::MacOs
            && ctx.undo_feature_enabled),
        !seq_ids(menu_for(ctx)).contains("edit/redo"@) || (ctx.platform == Platform::MacOs
            && ctx.undo_feature_enabled),
{
    lemma_edit_ids(ctx);
    lemma_menu_ids(ctx);
    lemma_identifier_fingerprints();
    let ids = menu_ids(ctx);
    if !(ctx.platform == Platform::MacOs && ctx.undo_feature_enabled) {
        assert forall|i: int| 0 <= i < ids.len() implies ids[i] != "edit/undo"@ && ids[i]
            != "edit/redo"@ by {
            assert(fingerprint(ids[i]) != fingerprint("edit/undo"@));
            assert(fingerprint(ids[i]) != fingerprint("edit/redo"@));
        }
    }
}

/// The entry that toggles the developer tools is in the menu exactly where
/// the build has developer tools.
pub proof fn lemma_devtools_entry_follows_flag(ctx: ContextView)
    ensures
        seq_ids(menu_for(ctx)).contains("view/devtools"@) <==> ctx.devtools_enabled,
{
    lemma_menu_ids(ctx);
    lemma_identifier_fingerprints();
    let ids = menu_ids(ctx);
    if ctx.devtools_enabled {
        let at = ids.len() - 19;
        assert(view_ids(ctx)[5] == "view/devtools"@);
        assert(ids[at] == view_ids(ctx)[5]);
    } else {
        assert forall|i: int| 0 <= i < ids.len() implies ids[i] != "view/devtools"@ by {
            assert(fingerprint(ids[i]) != fingerprint("view/devtools"@));
        }
    }
}

// ---------------------------------------------------------------------------
// Building it
// ---------------------------------------------------------------------------

fn update_entry() -> (entry: MenuEntry)
    ensures
        entry@ == update_item(),
{
    MenuEntry::item("global/update", "检查更新…")
}

fn file_manager_text(platform: Platform) -> (label: &'static str)
    ensures
        label@ == file_manager_label(platform),
{
    match platform {
        Platform::MacOs => "在 Finder 中显示",
        Platform::Windows => "在资源管理器中显示",
        Platform::Linux => "在文件管理器中显示",
    }
}

fn no_entries() -> (entries: Vec<MenuEntry>)
    ensures
        entry_views(entries@) == Seq::<EntryView>::empty(),
{
    let entries: Vec<MenuEntry> = Vec::new();
    assert(entry_views(entries@) =~= Seq::<EntryView>::empty());
    entries
}

fn app_menu(context: &BuildContext) -> (entry: MenuEntry)
    ensures
        entry@ == app_submenu(context@),
{
    let mut children = no_entries();
    add_entry(&mut children, MenuEntry::predefined(PredefinedKind::About));
    add_entry(&mut children, MenuEntry::Separator);
    add_entry(&mut children, MenuEntry::keyed_item("global/settings", "设置", "CmdOrCtrl+,"));
    if context.auto_update_enabled {
        add_entry(&mut children, update_entry());
    }
    add_entry(&mut children, MenuEntry::Separator);
    add_entry(&mut children, MenuEntry::predefined(PredefinedKind::Services));
    add_entry(&mut children, MenuEntry::Separator);
    add_entry(&mut children, MenuEntry::predefined(PredefinedKind::Hide));
    add_entry(&mut children, MenuEntry::predefined(PredefinedKind::HideOthers));
    add_entry(&mut children, MenuEntry::predefined(PredefinedKind::ShowAll));
    add_entry(&mut children, MenuEntry::Separator);
    add_entry(&mut children, MenuEntry::predefined(PredefinedKind::Quit));
    assert(entry_views(children@) =~= app_head() + update_part(context@) + app_tail());
    MenuEntry::submenu(context.app_name.clone(), children)
}

fn file_menu(context: &BuildContext) -> (entry: MenuEntry)
    ensures
        entry@ == file_submenu(context@),
{
    let mut children = no_entries();
    add_entry(&mut children, MenuEntry::keyed_item("file/add-local-repo", "添加本地仓库…", "CmdOrCtrl+O"));
    add_entry(&mut children, MenuEntry::keyed_item("file/clone-repo", "克隆仓库…", "CmdOrCtrl+Shift+O"));
    add_entry(&mut children, MenuEntry::Separator);
    add_entry(&mut children, MenuEntry::keyed_item("file/create-branch", "创建分支…", "CmdOrCtrl+B"));
    add_entry(&mut children, MenuEntry::keyed_item("file/create-dependent-branch", "创建依赖分支…", "CmdOrCtrl+Shift+B"));
    add_entry(&mut children, MenuEntry::Separator);
    match context.platform {
        Platform::MacOs => {
            add_entry(&mut children, MenuEntry::predefined(PredefinedKind::CloseWindow));
        },
        _ => {
            add_entry(&mut children, MenuEntry::predefined(PredefinedKind::Quit));
            if context.auto_update_enabled {
                add_entry(&mut children, update_entry());
            }
        },
    }
    assert(entry_views(children@) =~= file_head() + file_tail(context@));
    MenuEntry::submenu(String::from_str("文件"), children)
}

fn edit_menu(context: &BuildContext) -> (entry: MenuEntry)
    ensures
        entry@ == edit_submenu(context@),
{
    let mut children = no_entries();
    if context.undo_feature_enabled && is_macos(context.platform) {
        add_entry(&mut children, MenuEntry::keyed_item("edit/undo", "撤销", "CmdOrCtrl+Z"));
        add_entry(&mut children, MenuEntry::keyed_item("edit/redo", "重做", "CmdOrCtrl+Shift+Z"));
        add_entry(&mut children, MenuEntry::Separator);
    }
    add_entry(&mut children, MenuEntry::predefined(PredefinedKind::Cut));
    add_entry(&mut children, MenuEntry::predefined(PredefinedKind::Copy));
    add_entry(&mut children, MenuEntry::predefined(PredefinedKind::Paste));
    assert(entry_views(children@) =~= undo_part(context@) + clipboard_part());
    MenuEntry::submenu(String::from_str("编辑"), children)
}

fn view_menu(context: &BuildContext) -> (entry: MenuEntry)
    ensures
        entry@ == view_submenu(context@),
{
    let mut children = no_entries();
    if is_macos(context.platform) {
        add_entry(&mut children, MenuEntry::predefined(PredefinedKind::Fullscreen));
    }
    add_entry(&mut children, MenuEntry::keyed_item("view/switch-theme", "切换主题", "CmdOrCtrl+T"));
    add_entry(&mut children, MenuEntry::keyed_item("view/toggle-sidebar", "切换未分配面板", "CmdOrCtrl+\\"));
    add_entry(&mut children, MenuEntry::Separator);
    add_entry(&mut children, MenuEntry::keyed_item("view/zoom-in", "放大", "CmdOrCtrl+="));
    add_entry(&mut children, MenuEntry::keyed_item("view/zoom-out", "缩小", "CmdOrCtrl+-"));
    add_entry(&mut children, MenuEntry::keyed_item("view/zoom-reset", "重置缩放", "CmdOrCtrl+0"));
    add_entry(&mut children, MenuEntry::Separator);
    if context.devtools_enabled {
        add_entry(&mut children, MenuEntry::keyed_item("view/devtools", "开发者工具", "CmdOrCtrl+Shift+C"));
        add_entry(&mut children, MenuEntry::keyed_item("view/reload", "重新加载视图", "CmdOrCtrl+R"));
    }
    assert(entry_views(children@) =~= fullscreen_part(context@) + view_fixed() + devtools_part(
        context@,
    ));
    MenuEntry::submenu(String::from_str("视图"), children)
}

fn project_menu(context: &BuildContext) -> (entry: MenuEntry)
    ensures
        entry@ == project_submenu(context@),
{
    let mut children = no_entries();
    add_entry(&mut children, MenuEntry::keyed_item("project/history", "操作历史", "CmdOrCtrl+Shift+H"));
    add_entry(&mut children, MenuEntry::Separator);
    add_entry(&mut children, MenuEntry::item("project/open-in-vscode", "在编辑器中打开"));
    add_entry(&mut children, MenuEntry::item("project/show-in-finder", file_manager_text(context.platform)));
    add_entry(&mut children, MenuEntry::Separator);
    add_entry(&mut children, MenuEntry::item("project/settings", "项目设置"));
    MenuEntry::submenu(String::from_str("项目"), children)
}

fn window_menu() -> (entry: MenuEntry)
    ensures
        entry@ == window_submenu(),
{
    let mut children = no_entries();
    add_entry(&mut children, MenuEntry::predefined(PredefinedKind::Minimize));
    add_entry(&mut children, MenuEntry::predefined(PredefinedKind::Maximize));
    add_entry(&mut children, MenuEntry::Separator);
    add_entry(&mut children, MenuEntry::predefined(PredefinedKind::CloseWindow));
    MenuEntry::submenu(String::from_str("窗口"), children)
}

fn help_menu(context: &BuildContext) -> (entry: MenuEntry)
    ensures
        entry@ == help_submenu(context@),
{
    let mut children = no_entries();
    add_entry(&mut children, MenuEntry::item("help/documentation", "文档"));
    add_entry(&mut children, MenuEntry::item("help/debugging-guide", "调试指南"));
    add_entry(&mut children, MenuEntry::item("help/github", "源代码"));
    add_entry(&mut children, MenuEntry::item("help/release-notes", "发布说明"));
    add_entry(&mut children, MenuEntry::Separator);
    add_entry(&mut children, MenuEntry::item("help/share-debug-info", "分享调试信息…"));
    add_entry(&mut children, MenuEntry::item("help/report-issue", "创建问题反馈"));
    add_entry(&mut children, MenuEntry::Separator);
    add_entry(&mut children, MenuEntry::item("help/open-logs-folder", "打开日志文件夹"));
    add_entry(&mut children, MenuEntry::item("help/open-config-folder", "打开配置文件夹"));
    add_entry(&mut children, MenuEntry::Separator);
    add_entry(&mut children, MenuEntry::item("help/discord", "Discord"));
    add_entry(&mut children, MenuEntry::item("help/youtube", "YouTube"));
    add_entry(&mut children, MenuEntry::item("help/bluesky", "Bluesky"));
    add_entry(&mut children, MenuEntry::item("help/x", "X"));
    add_entry(&mut children, MenuEntry::Separator);
    let version = String::from_str("Version ").concat(context.app_version.as_str());
    add_entry(&mut children, MenuEntry::disabled_item("help/version", version));
    MenuEntry::submenu(String::from_str("帮助"), children)
}

fn is_macos(platform: Platform) -> (yes: bool)
    ensures
        yes == (platform == Platform::MacOs),
{
    match platform {
        Platform::MacOs => true,
        _ => false,
    }
}

fn is_linux(platform: Platform) -> (yes: bool)
    ensures
        yes == (platform == Platform::Linux),
{
    match platform {
        Platform::Linux => true,
        _ => false,
    }
}

/// Assembles the menu for `context`.
///
/// Every context gives a menu, and the same context gives the same menu: it
/// is [`menu_for`] of the context, entry for entry. The menu is well formed.
/// Assembling the entries cannot fail; what the toolkit makes of them is
/// settled by [`finish_build`].
pub fn build(context: &BuildContext) -> (outcome: Result<MenuTree, BuildError>)
    ensures
        outcome matches Ok(menu) && menu@ == menu_for(context@) && well_formed(menu@),
{
    let mut entries = no_entries();
    if is_macos(context.platform) {
        add_entry(&mut entries, app_menu(context));
    }
    add_entry(&mut entries, file_menu(context));
    if !is_linux(context.platform) {
        add_entry(&mut entries, edit_menu(context));
    }
    add_entry(&mut entries, view_menu(context));
    add_entry(&mut entries, project_menu(context));
    if is_macos(context.platform) {
        add_entry(&mut entries, window_menu());
    }
    add_entry(&mut entries, help_menu(context));
    proof {
        lemma_menu_well_formed(context@);
    }
    Ok(MenuTree { entries })
}
/// Settles a build once the toolkit has been asked to create the entries of
/// `menu`: where it created them all, the menu stands; where it refused,
/// there is no menu at all, and the refusal is the error.
pub fn finish_build(menu: MenuTree, toolkit: Result<(), String>) -> (outcome: Result<
    MenuTree,
    BuildError,
>)
    ensures
        toolkit is Ok ==> outcome == Ok::<MenuTree, BuildError>(menu),
        toolkit matches Err(refusal) ==> outcome matches Err(BuildError::Toolkit { reason })
            && reason@ == refusal@,
{
    match toolkit {
        Ok(_) => Ok(menu),
        Err(reason) => Err(BuildError::Toolkit { reason }),
    }
}

} // verus!

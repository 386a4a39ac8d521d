use vstd::prelude::*;

verus! {

/// Three properties of an identifier: its length, its first character and
/// its fourth character from the end. The first character tells the group
/// of an identifier; the length and the fourth character from the end
/// together tell every identifier of this menu from every other. All three
/// together tell the forwarded tokens apart.
pub open spec fn fingerprint(id: Seq<char>) -> (nat, char, char) {
    (id.len(), id[0], id[id.len() - 4])
}

/// The fingerprint of each identifier the menu can produce. No two of them
/// agree, which is how the identifiers are known to differ.
pub proof fn lemma_identifier_fingerprints()
    ensures
        fingerprint("global/settings"@) == (15nat, 'g', 'i'),
        fingerprint("global/update"@) == (13nat, 'g', 'd'),
        fingerprint("file/add-local-repo"@) == (19nat, 'f', 'r'),
        fingerprint("file/clone-repo"@) == (15nat, 'f', 'r'),
        fingerprint("file/create-branch"@) == (18nat, 'f', 'a'),
        fingerprint("file/create-dependent-branch"@) == (28nat, 'f', 'a'),
        fingerprint("edit/undo"@) == (9nat, 'e', 'u'),
        fingerprint("edit/redo"@) == (9nat, 'e', 'r'),
        fingerprint("view/switch-theme"@) == (17nat, 'v', 'h'),
        fingerprint("view/toggle-sidebar"@) == (19nat, 'v', 'e'),
        fingerprint("view/zoom-in"@) == (12nat, 'v', 'm'),
        fingerprint("view/zoom-out"@) == (13nat, 'v', '-'),
        fingerprint("view/zoom-reset"@) == (15nat, 'v', 'e'),
        fingerprint("view/devtools"@) == (13nat, 'v', 'o'),
        fingerprint("view/reload"@) == (11nat, 'v', 'l'),
        fingerprint("project/history"@) == (15nat, 'p', 't'),
        fingerprint("project/open-in-vscode"@) == (22nat, 'p', 'c'),
        fingerprint("project/show-in-finder"@) == (22nat, 'p', 'n'),
        fingerprint("project/settings"@) == (16nat, 'p', 'i'),
        fingerprint("help/documentation"@) == (18nat, 'h', 't'),
        fingerprint("help/debugging-guide"@) == (20nat, 'h', 'u'),
        fingerprint("help/github"@) == (11nat, 'h', 't'),
        fingerprint("help/release-notes"@) == (18nat, 'h', 'o'),
        fingerprint("help/share-debug-info"@) == (21nat, 'h', 'i'),
        fingerprint("help/report-issue"@) == (17nat, 'h', 's'),
        fingerprint("help/open-logs-folder"@) == (21nat, 'h', 'l'),
        fingerprint("help/open-config-folder"@) == (23nat, 'h', 'l'),
        fingerprint("help/discord"@) == (12nat, 'h', 'c'),
        fingerprint("help/youtube"@) == (12nat, 'h', 't'),
        fingerprint("help/bluesky"@) == (12nat, 'h', 'e'),
        fingerprint("help/x"@) == (6nat, 'h', 'l'),
        fingerprint("help/version"@) == (12nat, 'h', 's'),
{
    reveal_strlit("global/settings");
    reveal_strlit("global/update");
    reveal_strlit("file/add-local-repo");
    reveal_strlit("file/clone-repo");
    reveal_strlit("file/create-branch");
    reveal_strlit("file/create-dependent-branch");
    reveal_strlit("edit/undo");
    reveal_strlit("edit/redo");
    reveal_strlit("view/switch-theme");
    reveal_strlit("view/toggle-sidebar");
    reveal_strlit("view/zoom-in");
    reveal_strlit("view/zoom-out");
    reveal_strlit("view/zoom-reset");
    reveal_strlit("view/devtools");
    reveal_strlit("view/reload");
    reveal_strlit("project/history");
    reveal_strlit("project/open-in-vscode");
    reveal_strlit("project/show-in-finder");
    reveal_strlit("project/settings");
    reveal_strlit("help/documentation");
    reveal_strlit("help/debugging-guide");
    reveal_strlit("help/github");
    reveal_strlit("help/release-notes");
    reveal_strlit("help/share-debug-info");
    reveal_strlit("help/report-issue");
    reveal_strlit("help/open-logs-folder");
    reveal_strlit("help/open-config-folder");
    reveal_strlit("help/discord");
    reveal_strlit("help/youtube");
    reveal_strlit("help/bluesky");
    reveal_strlit("help/x");
    reveal_strlit("help/version");
}

/// The fingerprint of each token that is forwarded to the user interface.
/// No two of them agree.
pub proof fn lemma_token_fingerprints()
    ensures
        fingerprint("add-local-repo"@) == (14nat, 'a', 'r'),
        fingerprint("clone-repo"@) == (10nat, 'c', 'r'),
        fingerprint("create-branch"@) == (13nat, 'c', 'a'),
        fingerprint("create-dependent-branch"@) == (23nat, 'c', 'a'),
        fingerprint("switch-theme"@) == (12nat, 's', 'h'),
        fingerprint("toggle-sidebar"@) == (14nat, 't', 'e'),
        fingerprint("reload"@) == (6nat, 'r', 'l'),
        fingerprint("zoom-in"@) == (7nat, 'z', 'm'),
        fingerprint("zoom-out"@) == (8nat, 'z', '-'),
        fingerprint("zoom-reset"@) == (10nat, 'z', 'e'),
        fingerprint("share-debug-info"@) == (16nat, 's', 'i'),
        fingerprint("history"@) == (7nat, 'h', 't'),
        fingerprint("open-in-vscode"@) == (14nat, 'o', 'c'),
        fingerprint("show-in-finder"@) == (14nat, 's', 'n'),
        fingerprint("project-settings"@) == (16nat, 'p', 'i'),
        fingerprint("global-settings"@) == (15nat, 'g', 'i'),
        fingerprint("update"@) == (6nat, 'u', 'd'),
{
    reveal_strlit("add-local-repo");
    reveal_strlit("clone-repo");
    reveal_strlit("create-branch");
    reveal_strlit("create-dependent-branch");
    reveal_strlit("switch-theme");
    reveal_strlit("toggle-sidebar");
    reveal_strlit("reload");
    reveal_strlit("zoom-in");
    reveal_strlit("zoom-out");
    reveal_strlit("zoom-reset");
    reveal_strlit("share-debug-info");
    reveal_strlit("history");
    reveal_strlit("open-in-vscode");
    reveal_strlit("show-in-finder");
    reveal_strlit("project-settings");
    reveal_strlit("global-settings");
    reveal_strlit("update");
}

} // verus!

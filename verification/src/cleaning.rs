//! Disk cleaning: the temporary folders, the cleaning categories with the
//! folders each one covers, what a category scan reports, and what cleaning a
//! category removes.

use vstd::prelude::*;
use crate::text::{double_quotes, quote_doubled, chars_le, chars_less, chars_of, same_text, starts_with, starts_with_chars};

verus! {

/// How the files of a category are counted.
#[derive(Clone, Copy, PartialEq, Eq, Structural)]
pub enum ScanKind {
    /// Every file below the folder that can be deleted now.
    Deletable,
    /// Every file below the folder.
    Tree,
    /// The `thumbcache_` files directly in the folder.
    Thumbnails,
}

/// When a scanned category is listed.
#[derive(Clone, Copy, PartialEq, Eq, Structural)]
pub enum ShowRule {
    Always,
    /// Only when it holds at least one file.
    FilesFound,
    /// Only when it holds at least one file or one byte.
    AnythingFound,
}

/// One cleaning category and the folders it covers.
pub struct CategoryTarget {
    pub id: &'static str,
    pub label: &'static str,
    pub dirs: Vec<String>,
    pub requires_admin: bool,
    pub scan: ScanKind,
    pub shown: ShowRule,
}

/// What a `CategoryTarget` holds, its folders as text.
pub struct TargetRecord {
    pub id: &'static str,
    pub label: &'static str,
    pub dirs: Seq<Seq<char>>,
    pub requires_admin: bool,
    pub scan: ScanKind,
    pub shown: ShowRule,
}

impl View for CategoryTarget {
    type V = TargetRecord;

    open spec fn view(&self) -> TargetRecord {
        TargetRecord {
            id: self.id,
            label: self.label,
            dirs: Seq::new(self.dirs@.len(), |i: int| self.dirs@[i]@),
            requires_admin: self.requires_admin,
            scan: self.scan,
            shown: self.shown,
        }
    }
}

/// A target with one folder.
pub open spec fn target1(
    id: &'static str,
    label: &'static str,
    dir: Seq<char>,
    requires_admin: bool,
    scan: ScanKind,
    shown: ShowRule,
) -> TargetRecord {
    TargetRecord { id, label, dirs: seq![dir], requires_admin, scan, shown }
}

/// The cleaning categories, in the order in which they are listed, for the
/// user's local and roaming application data folders and temporary folder.
pub open spec fn target_table(local: Seq<char>, appdata: Seq<char>, temp: Seq<char>) -> Seq<TargetRecord> {
    seq![
        target1("temp_user", "Temp utilisateur", temp, false, ScanKind::Deletable, ShowRule::Always),
        target1("temp_windows", "Temp Windows", "C:\\Windows\\Temp"@, true, ScanKind::Tree, ShowRule::Always),
        target1("prefetch", "Cache Prefetch", "C:\\Windows\\Prefetch"@, true, ScanKind::Tree, ShowRule::Always),
        target1(
            "windows_update",
            "Windows Update cache",
            "C:\\Windows\\SoftwareDistribution\\Download"@,
            true,
            ScanKind::Tree,
            ShowRule::Always,
        ),
        target1(
            "chrome",
            "Cache Chrome",
            local + "\\Google\\Chrome\\User Data\\Default\\Cache"@,
            false,
            ScanKind::Tree,
            ShowRule::Always,
        ),
        target1(
            "edge",
            "Cache Edge",
            local + "\\Microsoft\\Edge\\User Data\\Default\\Cache"@,
            false,
            ScanKind::Tree,
            ShowRule::Always,
        ),
        target1(
            "firefox",
            "Cache Firefox",
            appdata + "\\Mozilla\\Firefox\\Profiles"@,
            false,
            ScanKind::Tree,
            ShowRule::Always,
        ),
        target1(
            "thumbnails",
            "Vignettes Windows",
            local + "\\Microsoft\\Windows\\Explorer"@,
            false,
            ScanKind::Thumbnails,
            ShowRule::Always,
        ),
        target1(
            "brave",
            "Cache Brave",
            local + "\\BraveSoftware\\Brave-Browser\\User Data\\Default\\Cache"@,
            false,
            ScanKind::Tree,
            ShowRule::FilesFound,
        ),
        target1("dx_cache", "Cache Shader DirectX", local + "\\D3DSCache"@, false, ScanKind::Tree, ShowRule::Always),
        TargetRecord {
            id: "nvidia_cache",
            label: "Cache GPU NVIDIA",
            dirs: seq![local + "\\NVIDIA\\DXCache"@, local + "\\NVIDIA\\GLCache"@],
            requires_admin: false,
            scan: ScanKind::Tree,
            shown: ShowRule::AnythingFound,
        },
        target1("amd_cache", "Cache GPU AMD", local + "\\AMD\\DxCache"@, false, ScanKind::Tree, ShowRule::AnythingFound),
        target1(
            "wer",
            "Rapports d'erreurs Windows",
            local + "\\Microsoft\\Windows\\WER\\ReportArchive"@,
            false,
            ScanKind::Tree,
            ShowRule::Always,
        ),
        target1(
            "recent",
            "Fichiers récents",
            appdata + "\\Microsoft\\Windows\\Recent"@,
            false,
            ScanKind::Tree,
            ShowRule::Always,
        ),
    ]
}

/// `base` followed by `suffix`.
fn joined(base: &str, suffix: &str) -> (r: String)
    ensures
        r@ == base@ + suffix@,
{
    let mut s = String::from_str(base);
    s.append(suffix);
    s
}

/// A target with one folder.
fn one_dir(
    id: &'static str,
    label: &'static str,
    dir: String,
    requires_admin: bool,
    scan: ScanKind,
    shown: ShowRule,
) -> (t: CategoryTarget)
    ensures
        t@ == target1(id, label, dir@, requires_admin, scan, shown),
{
    let mut dirs: Vec<String> = Vec::new();
    dirs.push(dir);
    let t = CategoryTarget { id, label, dirs, requires_admin, scan, shown };
    assert(t@.dirs =~= seq![t.dirs@[0]@]);
    t
}

/// The cleaning categories for the given folders (see `target_table`).
pub fn category_targets(local: &str, appdata: &str, temp: &str) -> (r: Vec<CategoryTarget>)
    ensures
        r@.len() == target_table(local@, appdata@, temp@).len(),
        forall|i: int| 0 <= i < r@.len() ==> #[trigger] r@[i]@ == target_table(local@, appdata@, temp@)[i],
{
    let mut nvidia: Vec<String> = Vec::new();
    nvidia.push(joined(local, "\\NVIDIA\\DXCache"));
    nvidia.push(joined(local, "\\NVIDIA\\GLCache"));
    let nv = CategoryTarget {
        id: "nvidia_cache",
        label: "Cache GPU NVIDIA",
        dirs: nvidia,
        requires_admin: false,
        scan: ScanKind::Tree,
        shown: ShowRule::AnythingFound,
    };
    assert(nv@.dirs =~= seq![local@ + "\\NVIDIA\\DXCache"@, local@ + "\\NVIDIA\\GLCache"@]);
    let r = vec![
        one_dir("temp_user", "Temp utilisateur", String::from_str(temp), false, ScanKind::Deletable, ShowRule::Always),
        one_dir("temp_windows", "Temp Windows", String::from_str("C:\\Windows\\Temp"), true, ScanKind::Tree, ShowRule::Always),
        one_dir("prefetch", "Cache Prefetch", String::from_str("C:\\Windows\\Prefetch"), true, ScanKind::Tree, ShowRule::Always),
        one_dir(
            "windows_update",
            "Windows Update cache",
            String::from_str("C:\\Windows\\SoftwareDistribution\\Download"),
            true,
            ScanKind::Tree,
            ShowRule::Always,
        ),
        one_dir(
            "chrome",
            "Cache Chrome",
            joined(local, "\\Google\\Chrome\\User Data\\Default\\Cache"),
            false,
            ScanKind::Tree,
            ShowRule::Always,
        ),
        one_dir(
            "edge",
            "Cache Edge",
            joined(local, "\\Microsoft\\Edge\\User Data\\Default\\Cache"),
            false,
            ScanKind::Tree,
            ShowRule::Always,
        ),
        one_dir(
            "firefox",
            "Cache Firefox",
            joined(appdata, "\\Mozilla\\Firefox\\Profiles"),
            false,
            ScanKind::Tree,
            ShowRule::Always,
        ),
        one_dir(
            "thumbnails",
            "Vignettes Windows",
            joined(local, "\\Microsoft\\Windows\\Explorer"),
            false,
            ScanKind::Thumbnails,
            ShowRule::Always,
        ),
        one_dir(
            "brave",
            "Cache Brave",
            joined(local, "\\BraveSoftware\\Brave-Browser\\User Data\\Default\\Cache"),
            false,
            ScanKind::Tree,
            ShowRule::FilesFound,
        ),
        one_dir("dx_cache", "Cache Shader DirectX", joined(local, "\\D3DSCache"), false, ScanKind::Tree, ShowRule::Always),
        nv,
        one_dir("amd_cache", "Cache GPU AMD", joined(local, "\\AMD\\DxCache"), false, ScanKind::Tree, ShowRule::AnythingFound),
        one_dir(
            "wer",
            "Rapports d'erreurs Windows",
            joined(local, "\\Microsoft\\Windows\\WER\\ReportArchive"),
            false,
            ScanKind::Tree,
            ShowRule::Always,
        ),
        one_dir(
            "recent",
            "Fichiers récents",
            joined(appdata, "\\Microsoft\\Windows\\Recent"),
            false,
            ScanKind::Tree,
            ShowRule::Always,
        ),
    ];
    r
}


/// The script that empties the user's temporary folder `temp` and prints how
/// many bytes that freed: it sums the sizes below the folder, removes its
/// content, sums again and prints the difference (at least 0). The folder is
/// quoted for PowerShell.
pub open spec fn temp_clean_script(temp: Seq<char>) -> Seq<char> {
    let t = quote_doubled(temp);
    "$b=(gci '"@ + t + "\\*' -r -fo -ea 0|measure -p Length -s).Sum;if(-not $b){$b=0};gci '"@ + t
        + "\\*' -fo -ea 0|ri -r -fo -ea 0;$a=(gci '"@ + t
        + "\\*' -r -fo -ea 0|measure -p Length -s).Sum;if(-not $a){$a=0};[Math]::Max(0,$b-$a)"@
}

/// The script that empties the user's temporary folder (see
/// `temp_clean_script`).
pub fn temp_clean_script_for(temp: &str) -> (r: String)
    ensures
        r@ == temp_clean_script(temp@),
{
    let q = double_quotes(temp);
    let t = q.as_str();
    let mut s = String::from_str("$b=(gci '");
    s.append(t);
    s.append("\\*' -r -fo -ea 0|measure -p Length -s).Sum;if(-not $b){$b=0};gci '");
    s.append(t);
    s.append("\\*' -fo -ea 0|ri -r -fo -ea 0;$a=(gci '");
    s.append(t);
    s.append("\\*' -r -fo -ea 0|measure -p Length -s).Sum;if(-not $a){$a=0};[Math]::Max(0,$b-$a)");
    s
}

/// What cleaning one category does.
pub enum CleanAction {
    /// Run this script, which empties the temporary folder and prints the bytes freed.
    TempScript(String),
    /// Delete every file below each of these folders.
    RemoveTrees(Vec<String>),
    /// Delete the `thumbcache_` files directly in this folder.
    RemoveThumbnails(String),
    /// Nothing: the category is unknown.
    Nothing,
}

/// What a `CleanAction` holds, as text.
pub enum ActionRecord {
    TempScript(Seq<char>),
    RemoveTrees(Seq<Seq<char>>),
    RemoveThumbnails(Seq<char>),
    Nothing,
}

impl View for CleanAction {
    type V = ActionRecord;

    open spec fn view(&self) -> ActionRecord {
        match self {
            CleanAction::TempScript(s) => ActionRecord::TempScript(s@),
            CleanAction::RemoveTrees(v) => ActionRecord::RemoveTrees(
                Seq::new(v@.len(), |i: int| v@[i]@),
            ),
            CleanAction::RemoveThumbnails(d) => ActionRecord::RemoveThumbnails(d@),
            CleanAction::Nothing => ActionRecord::Nothing,
        }
    }
}

/// What cleaning the category `id` does, for the user's local and roaming
/// application data folders and temporary folder.
pub open spec fn clean_action_for(id: Seq<char>, local: Seq<char>, appdata: Seq<char>, temp: Seq<char>) -> ActionRecord {
    if id == "temp_user"@ {
        ActionRecord::TempScript(temp_clean_script(temp))
    } else if id == "temp_windows"@ {
        ActionRecord::RemoveTrees(seq!["C:\\Windows\\Temp"@])
    } else if id == "prefetch"@ {
        ActionRecord::RemoveTrees(seq!["C:\\Windows\\Prefetch"@])
    } else if id == "windows_update"@ {
        ActionRecord::RemoveTrees(seq!["C:\\Windows\\SoftwareDistribution\\Download"@])
    } else if id == "chrome"@ {
        ActionRecord::RemoveTrees(seq![local + "\\Google\\Chrome\\User Data\\Default\\Cache"@])
    } else if id == "edge"@ {
        ActionRecord::RemoveTrees(seq![local + "\\Microsoft\\Edge\\User Data\\Default\\Cache"@])
    } else if id == "firefox"@ {
        ActionRecord::RemoveTrees(seq![appdata + "\\Mozilla\\Firefox\\Profiles"@])
    } else if id == "brave"@ {
        ActionRecord::RemoveTrees(seq![local + "\\BraveSoftware\\Brave-Browser\\User Data\\Default\\Cache"@])
    } else if id == "thumbnails"@ {
        ActionRecord::RemoveThumbnails(local + "\\Microsoft\\Windows\\Explorer"@)
    } else if id == "dx_cache"@ {
        ActionRecord::RemoveTrees(seq![local + "\\D3DSCache"@])
    } else if id == "nvidia_cache"@ {
        ActionRecord::RemoveTrees(seq![local + "\\NVIDIA\\DXCache"@, local + "\\NVIDIA\\GLCache"@])
    } else if id == "amd_cache"@ {
        ActionRecord::RemoveTrees(seq![local + "\\AMD\\DxCache"@])
    } else if id == "wer"@ {
        ActionRecord::RemoveTrees(seq![local + "\\Microsoft\\Windows\\WER\\ReportArchive"@])
    } else if id == "recent"@ {
        ActionRecord::RemoveTrees(seq![appdata + "\\Microsoft\\Windows\\Recent"@])
    } else {
        ActionRecord::Nothing
    }
}

/// Removal of the files below one folder.
fn trees1(dir: String) -> (a: CleanAction)
    ensures
        a@ == ActionRecord::RemoveTrees(seq![dir@]),
{
    let mut v: Vec<String> = Vec::new();
    v.push(dir);
    let a = CleanAction::RemoveTrees(v);
    assert(Seq::new(v@.len(), |i: int| v@[i]@) =~= seq![dir@]);
    a
}

/// What cleaning the category `id` does (see `clean_action_for`).
pub fn clean_action(id: &str, local: &str, appdata: &str, temp: &str) -> (r: CleanAction)
    ensures
        r@ == clean_action_for(id@, local@, appdata@, temp@),
{
    if same_text(id, "temp_user") {
        CleanAction::TempScript(temp_clean_script_for(temp))
    } else if same_text(id, "temp_windows") {
        trees1(String::from_str("C:\\Windows\\Temp"))
    } else if same_text(id, "prefetch") {
        trees1(String::from_str("C:\\Windows\\Prefetch"))
    } else if same_text(id, "windows_update") {
        trees1(String::from_str("C:\\Windows\\SoftwareDistribution\\Download"))
    } else if same_text(id, "chrome") {
        trees1(joined(local, "\\Google\\Chrome\\User Data\\Default\\Cache"))
    } else if same_text(id, "edge") {
        trees1(joined(local, "\\Microsoft\\Edge\\User Data\\Default\\Cache"))
    } else if same_text(id, "firefox") {
        trees1(joined(appdata, "\\Mozilla\\Firefox\\Profiles"))
    } else if same_text(id, "brave") {
        trees1(joined(local, "\\BraveSoftware\\Brave-Browser\\User Data\\Default\\Cache"))
    } else if same_text(id, "thumbnails") {
        CleanAction::RemoveThumbnails(joined(local, "\\Microsoft\\Windows\\Explorer"))
    } else if same_text(id, "dx_cache") {
        trees1(joined(local, "\\D3DSCache"))
    } else if same_text(id, "nvidia_cache") {
        let mut v: Vec<String> = Vec::new();
        v.push(joined(local, "\\NVIDIA\\DXCache"));
        v.push(joined(local, "\\NVIDIA\\GLCache"));
        let a = CleanAction::RemoveTrees(v);
        assert(Seq::new(v@.len(), |i: int| v@[i]@) =~= seq![
            local@ + "\\NVIDIA\\DXCache"@,
            local@ + "\\NVIDIA\\GLCache"@,
        ]);
        a
    } else if same_text(id, "amd_cache") {
        trees1(joined(local, "\\AMD\\DxCache"))
    } else if same_text(id, "wer") {
        trees1(joined(local, "\\Microsoft\\Windows\\WER\\ReportArchive"))
    } else if same_text(id, "recent") {
        trees1(joined(appdata, "\\Microsoft\\Windows\\Recent"))
    } else {
        CleanAction::Nothing
    }
}

/// The cleaning that a listed category calls for, by the way it is scanned: the
/// temporary-folder script for the folder scanned for deletable files, removal
/// of every scanned folder, or removal of the thumbnail files.
pub open spec fn action_for_target(t: TargetRecord) -> ActionRecord {
    match t.scan {
        ScanKind::Deletable => ActionRecord::TempScript(temp_clean_script(t.dirs[0])),
        ScanKind::Tree => ActionRecord::RemoveTrees(t.dirs),
        ScanKind::Thumbnails => ActionRecord::RemoveThumbnails(t.dirs[0]),
    }
}

/// The length and first character of each category identifier: no two agree
/// in both.
proof fn lemma_category_id_facts()
    ensures
        "temp_user"@.len() == 9 && "temp_user"@[0] == 't',
        "temp_windows"@.len() == 12 && "temp_windows"@[0] == 't',
        "prefetch"@.len() == 8 && "prefetch"@[0] == 'p',
        "windows_update"@.len() == 14 && "windows_update"@[0] == 'w',
        "chrome"@.len() == 6 && "chrome"@[0] == 'c',
        "edge"@.len() == 4 && "edge"@[0] == 'e',
        "firefox"@.len() == 7 && "firefox"@[0] == 'f',
        "thumbnails"@.len() == 10 && "thumbnails"@[0] == 't',
        "brave"@.len() == 5 && "brave"@[0] == 'b',
        "dx_cache"@.len() == 8 && "dx_cache"@[0] == 'd',
        "nvidia_cache"@.len() == 12 && "nvidia_cache"@[0] == 'n',
        "amd_cache"@.len() == 9 && "amd_cache"@[0] == 'a',
        "wer"@.len() == 3 && "wer"@[0] == 'w',
        "recent"@.len() == 6 && "recent"@[0] == 'r',
{
    reveal_strlit("temp_user");
    assert("temp_user"@.len() == 9 && "temp_user"@[0] == 't');
    reveal_strlit("temp_windows");
    assert("temp_windows"@.len() == 12 && "temp_windows"@[0] == 't');
    reveal_strlit("prefetch");
    assert("prefetch"@.len() == 8 && "prefetch"@[0] == 'p');
    reveal_strlit("windows_update");
    assert("windows_update"@.len() == 14 && "windows_update"@[0] == 'w');
    reveal_strlit("chrome");
    assert("chrome"@.len() == 6 && "chrome"@[0] == 'c');
    reveal_strlit("edge");
    assert("edge"@.len() == 4 && "edge"@[0] == 'e');
    reveal_strlit("firefox");
    assert("firefox"@.len() == 7 && "firefox"@[0] == 'f');
    reveal_strlit("thumbnails");
    assert("thumbnails"@.len() == 10 && "thumbnails"@[0] == 't');
    reveal_strlit("brave");
    assert("brave"@.len() == 5 && "brave"@[0] == 'b');
    reveal_strlit("dx_cache");
    assert("dx_cache"@.len() == 8 && "dx_cache"@[0] == 'd');
    reveal_strlit("nvidia_cache");
    assert("nvidia_cache"@.len() == 12 && "nvidia_cache"@[0] == 'n');
    reveal_strlit("amd_cache");
    assert("amd_cache"@.len() == 9 && "amd_cache"@[0] == 'a');
    reveal_strlit("wer");
    assert("wer"@.len() == 3 && "wer"@[0] == 'w');
    reveal_strlit("recent");
    assert("recent"@.len() == 6 && "recent"@[0] == 'r');
}

/// Every category that the scan can list is one that cleaning knows, and
/// cleaning it works on exactly the folders that the scan measured; any other
/// category identifier is ignored.
pub proof fn law_cleaning_matches_scan(local: Seq<char>, appdata: Seq<char>, temp: Seq<char>, id: Seq<char>)
    ensures
        forall|i: int|
            0 <= i < target_table(local, appdata, temp).len() ==> clean_action_for(
                (#[trigger] target_table(local, appdata, temp)[i]).id@,
                local,
                appdata,
                temp,
            ) == action_for_target(target_table(local, appdata, temp)[i]),
        clean_action_for(id, local, appdata, temp) != ActionRecord::Nothing ==> exists|i: int|
            0 <= i < target_table(local, appdata, temp).len() && (#[trigger] target_table(
                local,
                appdata,
                temp,
            )[i]).id@ == id,
{
    lemma_category_id_facts();
    let t = target_table(local, appdata, temp);
    assert forall|i: int| 0 <= i < t.len() implies clean_action_for(
        (#[trigger] t[i]).id@,
        local,
        appdata,
        temp,
    ) == action_for_target(t[i]) by {
        if i == 0 {
            assert(t[0].id@ == "temp_user"@);
        } else if i == 1 {
            assert(t[1].id@ == "temp_windows"@);
        } else if i == 2 {
            assert(t[2].id@ == "prefetch"@);
        } else if i == 3 {
            assert(t[3].id@ == "windows_update"@);
        } else if i == 4 {
            assert(t[4].id@ == "chrome"@);
        } else if i == 5 {
            assert(t[5].id@ == "edge"@);
        } else if i == 6 {
            assert(t[6].id@ == "firefox"@);
        } else if i == 7 {
            assert(t[7].id@ == "thumbnails"@);
        } else if i == 8 {
            assert(t[8].id@ == "brave"@);
        } else if i == 9 {
            assert(t[9].id@ == "dx_cache"@);
        } else if i == 10 {
            assert(t[10].id@ == "nvidia_cache"@);
        } else if i == 11 {
            assert(t[11].id@ == "amd_cache"@);
        } else if i == 12 {
            assert(t[12].id@ == "wer"@);
        } else if i == 13 {
            assert(t[13].id@ == "recent"@);
        }
    }
    if clean_action_for(id, local, appdata, temp) != ActionRecord::Nothing {
        if id == "temp_user"@ {
            assert(t[0].id@ == id);
        } else if id == "temp_windows"@ {
            assert(t[1].id@ == id);
        } else if id == "prefetch"@ {
            assert(t[2].id@ == id);
        } else if id == "windows_update"@ {
            assert(t[3].id@ == id);
        } else if id == "chrome"@ {
            assert(t[4].id@ == id);
        } else if id == "edge"@ {
            assert(t[5].id@ == id);
        } else if id == "firefox"@ {
            assert(t[6].id@ == id);
        } else if id == "thumbnails"@ {
            assert(t[7].id@ == id);
        } else if id == "brave"@ {
            assert(t[8].id@ == id);
        } else if id == "dx_cache"@ {
            assert(t[9].id@ == id);
        } else if id == "nvidia_cache"@ {
            assert(t[10].id@ == id);
        } else if id == "amd_cache"@ {
            assert(t[11].id@ == id);
        } else if id == "wer"@ {
            assert(t[12].id@ == id);
        } else {
            assert(t[13].id@ == id);
        }
    }
}


/// No two cleaning categories share an identifier.
pub proof fn law_category_ids_distinct(local: Seq<char>, appdata: Seq<char>, temp: Seq<char>)
    ensures
        forall|i: int, j: int|
            0 <= i < j < target_table(local, appdata, temp).len() ==> (#[trigger] target_table(
                local,
                appdata,
                temp,
            )[i]).id@ != (#[trigger] target_table(local, appdata, temp)[j]).id@,
{
    lemma_category_id_facts();
    let t = target_table(local, appdata, temp);
    assert forall|i: int, j: int| 0 <= i < j < t.len() implies (#[trigger] t[i]).id@ != (#[trigger] t[j]).id@ by {
        let a = t[i].id@;
        let b = t[j].id@;
        assert(a.len() != b.len() || a[0] != b[0]);
    }
}

/// Each cleaning category, at its place in the list, with the folders it
/// covers written out for the user's local and roaming application data
/// folders and temporary folder, and what cleaning it by its identifier does:
/// the user's temporary folder is emptied by its script, the thumbnail
/// category removes the thumbnail files of Explorer's folder, and every other
/// category removes the files below exactly its own folders.
pub proof fn law_category_folders(local: Seq<char>, appdata: Seq<char>, temp: Seq<char>)
    ensures
        target_table(local, appdata, temp).len() == 14,
        target_table(local, appdata, temp)[0].id@ == "temp_user"@,
        target_table(local, appdata, temp)[0].dirs == seq![temp],
        clean_action_for("temp_user"@, local, appdata, temp) == ActionRecord::TempScript(temp_clean_script(temp)),
        target_table(local, appdata, temp)[1].id@ == "temp_windows"@,
        target_table(local, appdata, temp)[1].dirs == seq!["C:\\Windows\\Temp"@],
        clean_action_for("temp_windows"@, local, appdata, temp) == ActionRecord::RemoveTrees(
            seq!["C:\\Windows\\Temp"@],
        ),
        target_table(local, appdata, temp)[2].id@ == "prefetch"@,
        target_table(local, appdata, temp)[2].dirs == seq!["C:\\Windows\\Prefetch"@],
        clean_action_for("prefetch"@, local, appdata, temp) == ActionRecord::RemoveTrees(
            seq!["C:\\Windows\\Prefetch"@],
        ),
        target_table(local, appdata, temp)[3].id@ == "windows_update"@,
        target_table(local, appdata, temp)[3].dirs == seq!["C:\\Windows\\SoftwareDistribution\\Download"@],
        clean_action_for("windows_update"@, local, appdata, temp) == ActionRecord::RemoveTrees(
            seq!["C:\\Windows\\SoftwareDistribution\\Download"@],
        ),
        target_table(local, appdata, temp)[4].id@ == "chrome"@,
        target_table(local, appdata, temp)[4].dirs == seq![local + "\\Google\\Chrome\\User Data\\Default\\Cache"@],
        clean_action_for("chrome"@, local, appdata, temp) == ActionRecord::RemoveTrees(
            seq![local + "\\Google\\Chrome\\User Data\\Default\\Cache"@],
        ),
        target_table(local, appdata, temp)[5].id@ == "edge"@,
        target_table(local, appdata, temp)[5].dirs == seq![local + "\\Microsoft\\Edge\\User Data\\Default\\Cache"@],
        clean_action_for("edge"@, local, appdata, temp) == ActionRecord::RemoveTrees(
            seq![local + "\\Microsoft\\Edge\\User Data\\Default\\Cache"@],
        ),
        target_table(local, appdata, temp)[6].id@ == "firefox"@,
        target_table(local, appdata, temp)[6].dirs == seq![appdata + "\\Mozilla\\Firefox\\Profiles"@],
        clean_action_for("firefox"@, local, appdata, temp) == ActionRecord::RemoveTrees(
            seq![appdata + "\\Mozilla\\Firefox\\Profiles"@],
        ),
        target_table(local, appdata, temp)[7].id@ == "thumbnails"@,
        target_table(local, appdata, temp)[7].dirs == seq![local + "\\Microsoft\\Windows\\Explorer"@],
        clean_action_for("thumbnails"@, local, appdata, temp) == ActionRecord::RemoveThumbnails(
            local + "\\Microsoft\\Windows\\Explorer"@,
        ),
        target_table(local, appdata, temp)[8].id@ == "brave"@,
        target_table(local, appdata, temp)[8].dirs == seq![
            local + "\\BraveSoftware\\Brave-Browser\\User Data\\Default\\Cache"@,
        ],
        clean_action_for("brave"@, local, appdata, temp) == ActionRecord::RemoveTrees(
            seq![local + "\\BraveSoftware\\Brave-Browser\\User Data\\Default\\Cache"@],
        ),
        target_table(local, appdata, temp)[9].id@ == "dx_cache"@,
        target_table(local, appdata, temp)[9].dirs == seq![local + "\\D3DSCache"@],
        clean_action_for("dx_cache"@, local, appdata, temp) == ActionRecord::RemoveTrees(
            seq![local + "\\D3DSCache"@],
        ),
        target_table(local, appdata, temp)[10].id@ == "nvidia_cache"@,
        target_table(local, appdata, temp)[10].dirs == seq![
            local + "\\NVIDIA\\DXCache"@,
            local + "\\NVIDIA\\GLCache"@,
        ],
        clean_action_for("nvidia_cache"@, local, appdata, temp) == ActionRecord::RemoveTrees(
            seq![local + "\\NVIDIA\\DXCache"@, local + "\\NVIDIA\\GLCache"@],
        ),
        target_table(local, appdata, temp)[11].id@ == "amd_cache"@,
        target_table(local, appdata, temp)[11].dirs == seq![local + "\\AMD\\DxCache"@],
        clean_action_for("amd_cache"@, local, appdata, temp) == ActionRecord::RemoveTrees(
            seq![local + "\\AMD\\DxCache"@],
        ),
        target_table(local, appdata, temp)[12].id@ == "wer"@,
        target_table(local, appdata, temp)[12].dirs == seq![local + "\\Microsoft\\Windows\\WER\\ReportArchive"@],
        clean_action_for("wer"@, local, appdata, temp) == ActionRecord::RemoveTrees(
            seq![local + "\\Microsoft\\Windows\\WER\\ReportArchive"@],
        ),
        target_table(local, appdata, temp)[13].id@ == "recent"@,
        target_table(local, appdata, temp)[13].dirs == seq![appdata + "\\Microsoft\\Windows\\Recent"@],
        clean_action_for("recent"@, local, appdata, temp) == ActionRecord::RemoveTrees(
            seq![appdata + "\\Microsoft\\Windows\\Recent"@],
        ),
{
    lemma_category_id_facts();
}

/// How each cleaning category is shown and scanned: its label; only the
/// Windows temporary folder, the prefetch cache and the Windows Update
/// download cache need administrator rights; only the user's temporary folder
/// is scanned for deletable files and only the thumbnail category for
/// thumbnail files, every other one for all its files; the Brave cache is
/// listed only when it holds a file, the NVIDIA and AMD caches only when they
/// hold a file or a byte, and every other category always.
pub proof fn law_category_rules(local: Seq<char>, appdata: Seq<char>, temp: Seq<char>)
    ensures
        target_table(local, appdata, temp)[0].label@ == "Temp utilisateur"@,
        target_table(local, appdata, temp)[1].label@ == "Temp Windows"@,
        target_table(local, appdata, temp)[2].label@ == "Cache Prefetch"@,
        target_table(local, appdata, temp)[3].label@ == "Windows Update cache"@,
        target_table(local, appdata, temp)[4].label@ == "Cache Chrome"@,
        target_table(local, appdata, temp)[5].label@ == "Cache Edge"@,
        target_table(local, appdata, temp)[6].label@ == "Cache Firefox"@,
        target_table(local, appdata, temp)[7].label@ == "Vignettes Windows"@,
        target_table(local, appdata, temp)[8].label@ == "Cache Brave"@,
        target_table(local, appdata, temp)[9].label@ == "Cache Shader DirectX"@,
        target_table(local, appdata, temp)[10].label@ == "Cache GPU NVIDIA"@,
        target_table(local, appdata, temp)[11].label@ == "Cache GPU AMD"@,
        target_table(local, appdata, temp)[12].label@ == "Rapports d'erreurs Windows"@,
        target_table(local, appdata, temp)[13].label@ == "Fichiers récents"@,
        forall|i: int|
            0 <= i < 14 ==> ((#[trigger] target_table(local, appdata, temp)[i]).requires_admin <==> 1 <= i <= 3),
        forall|i: int|
            0 <= i < 14 ==> (#[trigger] target_table(local, appdata, temp)[i]).scan == (if i == 0 {
                ScanKind::Deletable
            } else if i == 7 {
                ScanKind::Thumbnails
            } else {
                ScanKind::Tree
            }),
        forall|i: int|
            0 <= i < 14 ==> (#[trigger] target_table(local, appdata, temp)[i]).shown == (if i == 8 {
                ShowRule::FilesFound
            } else if i == 10 || i == 11 {
                ShowRule::AnythingFound
            } else {
                ShowRule::Always
            }),
{
    let t = target_table(local, appdata, temp);
    assert forall|i: int| 0 <= i < 14 implies ((#[trigger] t[i]).requires_admin <==> 1 <= i <= 3) && t[i].scan == (if i
        == 0 {
        ScanKind::Deletable
    } else if i == 7 {
        ScanKind::Thumbnails
    } else {
        ScanKind::Tree
    }) && t[i].shown == (if i == 8 {
        ShowRule::FilesFound
    } else if i == 10 || i == 11 {
        ShowRule::AnythingFound
    } else {
        ShowRule::Always
    }) by {
        if i == 0 {
        } else if i == 1 {
        } else if i == 2 {
        } else if i == 3 {
        } else if i == 4 {
        } else if i == 5 {
        } else if i == 6 {
        } else if i == 7 {
        } else if i == 8 {
        } else if i == 9 {
        } else if i == 10 {
        } else if i == 11 {
        } else if i == 12 {
        } else {
        }
    }
}

/// The size and number of the files that a scan of one folder counted.
#[derive(Clone, Copy)]
pub struct DirTotals {
    pub bytes: u64,
    pub files: u32,
}

/// A cleaning category as the scan lists it, with its size in bytes.
pub struct CleanCategory {
    pub id: String,
    pub label: String,
    pub size_bytes: u64,
    pub file_count: u32,
    pub requires_admin: bool,
}

/// What a `CleanCategory` holds, as text.
pub struct CategoryRecord {
    pub id: Seq<char>,
    pub label: Seq<char>,
    pub size_bytes: u64,
    pub file_count: u32,
    pub requires_admin: bool,
}

impl View for CleanCategory {
    type V = CategoryRecord;

    open spec fn view(&self) -> CategoryRecord {
        CategoryRecord {
            id: self.id@,
            label: self.label@,
            size_bytes: self.size_bytes,
            file_count: self.file_count,
            requires_admin: self.requires_admin,
        }
    }
}

/// The total size of the scanned folders.
pub open spec fn bytes_sum(m: Seq<DirTotals>) -> nat
    decreases m.len(),
{
    if m.len() == 0 {
        0
    } else {
        bytes_sum(m.drop_last()) + m.last().bytes as nat
    }
}

/// The total number of files in the scanned folders.
pub open spec fn files_sum(m: Seq<DirTotals>) -> nat
    decreases m.len(),
{
    if m.len() == 0 {
        0
    } else {
        files_sum(m.drop_last()) + m.last().files as nat
    }
}

/// Whether a category whose folders hold `bytes` bytes in `files` files is
/// listed.
pub open spec fn is_listed(rule: ShowRule, bytes: nat, files: nat) -> bool {
    match rule {
        ShowRule::Always => true,
        ShowRule::FilesFound => files > 0,
        ShowRule::AnythingFound => bytes > 0 || files > 0,
    }
}

/// The totals of every category fit the integer types of `CleanCategory`.
pub open spec fn totals_fit_spec(m: Seq<Seq<DirTotals>>) -> bool {
    forall|i: int| 0 <= i < m.len() ==> bytes_sum(#[trigger] m[i]) <= u64::MAX && files_sum(m[i]) <= u32::MAX
}

/// The categories that the scan lists: each target in order, with the totals
/// of its folders, kept when its rule says so.
pub open spec fn listed_categories(t: Seq<TargetRecord>, m: Seq<Seq<DirTotals>>) -> Seq<CategoryRecord>
    decreases t.len(),
{
    if t.len() == 0 || m.len() != t.len() {
        Seq::empty()
    } else {
        let rest = listed_categories(t.drop_last(), m.drop_last());
        let last = t.last();
        let b = bytes_sum(m.last());
        let f = files_sum(m.last());
        if is_listed(last.shown, b, f) {
            rest.push(
                CategoryRecord {
                    id: last.id@,
                    label: last.label@,
                    size_bytes: b as u64,
                    file_count: f as u32,
                    requires_admin: last.requires_admin,
                },
            )
        } else {
            rest
        }
    }
}

/// The records of a sequence of categories.
pub open spec fn category_records(s: Seq<CleanCategory>) -> Seq<CategoryRecord> {
    Seq::new(s.len(), |i: int| s[i]@)
}

/// Sums the totals of the folders of one category.
fn sum_totals(m: &Vec<DirTotals>) -> (r: DirTotals)
    requires
        bytes_sum(m@) <= u64::MAX,
        files_sum(m@) <= u32::MAX,
    ensures
        r.bytes == bytes_sum(m@),
        r.files == files_sum(m@),
{
    let n = m.len();
    let mut bytes: u64 = 0;
    let mut files: u32 = 0;
    for i in 0..n
        invariant
            n == m@.len(),
            bytes_sum(m@) <= u64::MAX,
            files_sum(m@) <= u32::MAX,
            bytes == bytes_sum(m@.take(i as int)),
            files == files_sum(m@.take(i as int)),
    {
        assert(m@.take(i + 1).drop_last() == m@.take(i as int));
        proof {
            lemma_sums_grow(m@, i + 1);
        }
        bytes = bytes + m[i].bytes;
        files = files + m[i].files;
    }
    assert(m@.take(n as int) == m@);
    DirTotals { bytes, files }
}

proof fn lemma_sums_grow(m: Seq<DirTotals>, k: int)
    requires
        0 <= k <= m.len(),
    ensures
        bytes_sum(m.take(k)) <= bytes_sum(m),
        files_sum(m.take(k)) <= files_sum(m),
    decreases m.len() - k,
{
    if k < m.len() {
        lemma_sums_grow(m, k + 1);
        assert(m.take(k + 1).drop_last() == m.take(k));
    } else {
        assert(m.take(k) == m);
    }
}

/// The totals of each category's folders.
pub open spec fn rows_of(m: Seq<Vec<DirTotals>>) -> Seq<Seq<DirTotals>> {
    Seq::new(m.len(), |i: int| m[i]@)
}

/// Whether the totals of every category fit (see `totals_fit_spec`); the scan
/// stops with an overflow where they do not.
pub fn totals_fit(m: &Vec<Vec<DirTotals>>) -> (r: bool)
    ensures
        r == totals_fit_spec(rows_of(m@)),
{
    let n = m.len();
    for i in 0..n
        invariant
            n == m@.len(),
            forall|k: int| 0 <= k < i ==> bytes_sum(#[trigger] m@[k]@) <= u64::MAX && files_sum(m@[k]@) <= u32::MAX,
    {
        let row = &m[i];
        let k = row.len();
        let mut bytes: u64 = 0;
        let mut files: u32 = 0;
        for j in 0..k
            invariant
                k == row@.len(),
                i < m@.len(),
                row@ == m@[i as int]@,
                bytes == bytes_sum(row@.take(j as int)),
                files == files_sum(row@.take(j as int)),
        {
            assert(row@.take(j + 1).drop_last() == row@.take(j as int));
            proof {
                lemma_sums_grow(row@, j + 1);
            }
            let b = bytes as u128 + row[j].bytes as u128;
            let f = files as u64 + row[j].files as u64;
            if b > u64::MAX as u128 || f > u32::MAX as u64 {
                assert(!totals_fit_spec(rows_of(m@))) by {
                    assert(rows_of(m@)[i as int] == m@[i as int]@);
                }
                return false;
            }
            bytes = b as u64;
            files = f as u32;
        }
        assert(row@.take(k as int) == row@);
    }
    assert forall|k: int| 0 <= k < rows_of(m@).len() implies bytes_sum(#[trigger] rows_of(m@)[k])
        <= u64::MAX && files_sum(rows_of(m@)[k]) <= u32::MAX by {
        assert(rows_of(m@)[k] == m@[k]@);
    }
    true
}


proof fn lemma_listed_ids_from_targets(t: Seq<TargetRecord>, m: Seq<Seq<DirTotals>>)
    ensures
        forall|k: int|
            0 <= k < listed_categories(t, m).len() ==> exists|j: int|
                0 <= j < t.len() && (#[trigger] listed_categories(t, m)[k]).id == (#[trigger] t[j]).id@,
    decreases t.len(),
{
    if t.len() > 0 && m.len() == t.len() {
        let rest = listed_categories(t.drop_last(), m.drop_last());
        lemma_listed_ids_from_targets(t.drop_last(), m.drop_last());
        let l = listed_categories(t, m);
        assert forall|k: int| 0 <= k < l.len() implies exists|j: int|
            0 <= j < t.len() && (#[trigger] l[k]).id == (#[trigger] t[j]).id@ by {
            if k < rest.len() {
                assert(l[k] == rest[k]);
                let j = choose|j: int| 0 <= j < t.drop_last().len() && rest[k].id == (#[trigger] t.drop_last()[j]).id@;
                assert(t[j] == t.drop_last()[j]);
            } else {
                assert(l[k].id == t[t.len() - 1].id@);
            }
        }
    }
}

/// Whatever the scan measured, every category that it lists is one that
/// cleaning acts on: none falls to the branch that ignores unknown categories.
pub proof fn law_listed_categories_are_cleaned(
    local: Seq<char>,
    appdata: Seq<char>,
    temp: Seq<char>,
    m: Seq<Seq<DirTotals>>,
)
    ensures
        forall|k: int|
            0 <= k < listed_categories(target_table(local, appdata, temp), m).len() ==> clean_action_for(
                (#[trigger] listed_categories(target_table(local, appdata, temp), m)[k]).id,
                local,
                appdata,
                temp,
            ) != ActionRecord::Nothing,
{
    let t = target_table(local, appdata, temp);
    let l = listed_categories(t, m);
    lemma_listed_ids_from_targets(t, m);
    law_cleaning_matches_scan(local, appdata, temp, Seq::empty());
    assert forall|k: int| 0 <= k < l.len() implies clean_action_for(
        (#[trigger] l[k]).id,
        local,
        appdata,
        temp,
    ) != ActionRecord::Nothing by {
        let j = choose|j: int| 0 <= j < t.len() && l[k].id == (#[trigger] t[j]).id@;
        assert(clean_action_for(t[j].id@, local, appdata, temp) == action_for_target(t[j]));
    }
}

/// The records of a sequence of targets.
pub open spec fn target_records(t: Seq<CategoryTarget>) -> Seq<TargetRecord> {
    Seq::new(t.len(), |i: int| t[i]@)
}

/// The categories that the scan lists, from the targets and the totals
/// measured in each target's folders, one row per target (see
/// `listed_categories`).
pub fn assemble_categories(targets: &Vec<CategoryTarget>, measured: &Vec<Vec<DirTotals>>) -> (r: Vec<
    CleanCategory,
>)
    requires
        measured@.len() == targets@.len(),
        totals_fit_spec(rows_of(measured@)),
    ensures
        category_records(r@) == listed_categories(target_records(targets@), rows_of(measured@)),
{
    let ghost t = target_records(targets@);
    let ghost m = rows_of(measured@);
    let n = targets.len();
    let mut r: Vec<CleanCategory> = Vec::new();
    for i in 0..n
        invariant
            n == targets@.len() == measured@.len(),
            t == target_records(targets@),
            m == rows_of(measured@),
            totals_fit_spec(m),
            category_records(r@) == listed_categories(t.take(i as int), m.take(i as int)),
            r@.len() <= i,
    {
        let ghost before = r@;
        assert(t.take(i + 1).drop_last() == t.take(i as int));
        assert(m.take(i + 1).drop_last() == m.take(i as int));
        assert(t.take(i + 1).last() == targets@[i as int]@);
        assert(m.take(i + 1).last() == measured@[i as int]@);
        assert(m[i as int] == measured@[i as int]@);
        let target = &targets[i];
        let totals = sum_totals(&measured[i]);
        let listed = match target.shown {
            ShowRule::Always => true,
            ShowRule::FilesFound => totals.files > 0,
            ShowRule::AnythingFound => totals.bytes > 0 || totals.files > 0,
        };
        if listed {
            r.push(
                CleanCategory {
                    id: String::from_str(target.id),
                    label: String::from_str(target.label),
                    size_bytes: totals.bytes,
                    file_count: totals.files,
                    requires_admin: target.requires_admin,
                },
            );
            assert(category_records(r@) =~= category_records(before).push(
                listed_categories(t.take(i + 1), m.take(i + 1)).last(),
            ));
        }
    }
    assert(t.take(n as int) == t);
    assert(m.take(n as int) == m);
    r
}

/// Whether a file in the Explorer folder is a thumbnail cache: its name starts
/// with `thumbcache_`.
pub open spec fn is_thumbcache(name: Seq<char>) -> bool {
    starts_with(name, "thumbcache_"@)
}

/// Whether a file in the Explorer folder is a thumbnail cache (see
/// `is_thumbcache`).
pub fn is_thumbcache_name(name: &str) -> (r: bool)
    ensures
        r == is_thumbcache(name@),
{
    let n = chars_of(name);
    let p = chars_of("thumbcache_");
    starts_with_chars(n.as_slice(), p.as_slice())
}

/// The temporary folders to examine, from the values of `TEMP` and `TMP` (empty
/// when unset): sorted, the same folder once, and no empty name.
pub open spec fn temp_folders(temp: Seq<char>, tmp: Seq<char>) -> Seq<Seq<char>> {
    let first = if chars_le(temp, tmp) {
        temp
    } else {
        tmp
    };
    let second = if chars_le(temp, tmp) {
        tmp
    } else {
        temp
    };
    let both = if first == second {
        seq![first]
    } else {
        seq![first, second]
    };
    both.filter(|d: Seq<char>| d.len() > 0)
}

/// The temporary folders to examine (see `temp_folders`).
pub fn temp_dirs(temp: &str, tmp: &str) -> (r: Vec<String>)
    ensures
        Seq::new(r@.len(), |i: int| r@[i]@) == temp_folders(temp@, tmp@),
{
    let a = chars_of(temp);
    let b = chars_of(tmp);
    let temp_first = !chars_less(b.as_slice(), a.as_slice());
    let (first, second) = if temp_first {
        (temp, tmp)
    } else {
        (tmp, temp)
    };
    let mut both: Vec<&str> = Vec::new();
    both.push(first);
    if !same_text(first, second) {
        both.push(second);
    }
    let ghost views = Seq::new(both@.len(), |i: int| both@[i]@);
    let ghost bothv = if first@ == second@ {
        seq![first@]
    } else {
        seq![first@, second@]
    };
    assert(views =~= bothv);
    let mut r: Vec<String> = Vec::new();
    let n = both.len();
    for i in 0..n
        invariant
            n == both@.len(),
            views == Seq::new(both@.len(), |k: int| both@[k]@),
            Seq::new(r@.len(), |k: int| r@[k]@) == views.take(i as int).filter(|d: Seq<char>| d.len() > 0),
    {
        let ghost before = Seq::new(r@.len(), |k: int| r@[k]@);
        assert(views.take(i + 1).drop_last() == views.take(i as int));
        reveal_with_fuel(Seq::filter, 1);
        if !both[i].is_empty() {
            r.push(String::from_str(both[i]));
            assert(Seq::new(r@.len(), |k: int| r@[k]@) =~= before.push(both@[i as int]@));
        } else {
            assert(Seq::new(r@.len(), |k: int| r@[k]@) =~= before);
        }
    }
    assert(views.take(n as int) == views);
    r
}

/// Counts kept while cleaning: bytes freed, files deleted, files that could not
/// be deleted.
pub struct CleanTally {
    pub freed_bytes: u64,
    pub files_deleted: u32,
    pub files_skipped: u32,
}

impl CleanTally {
    /// Nothing freed yet.
    pub fn new() -> (t: CleanTally)
        ensures
            t.freed_bytes == 0 && t.files_deleted == 0 && t.files_skipped == 0,
    {
        CleanTally { freed_bytes: 0, files_deleted: 0, files_skipped: 0 }
    }

    /// Adds what removing the files below some folders gave.
    pub fn add_removed(&mut self, freed: u64, deleted: u32, skipped: u32)
        requires
            old(self).freed_bytes + freed <= u64::MAX,
            old(self).files_deleted + deleted <= u32::MAX,
            old(self).files_skipped + skipped <= u32::MAX,
        ensures
            final(self).freed_bytes == old(self).freed_bytes + freed,
            final(self).files_deleted == old(self).files_deleted + deleted,
            final(self).files_skipped == old(self).files_skipped + skipped,
    {
        self.freed_bytes = self.freed_bytes + freed;
        self.files_deleted = self.files_deleted + deleted;
        self.files_skipped = self.files_skipped + skipped;
    }

    /// Adds what the temporary-folder script freed; a run that freed anything
    /// counts as one deletion.
    pub fn add_script_freed(&mut self, freed: u64)
        requires
            old(self).freed_bytes + freed <= u64::MAX,
            freed > 0 ==> old(self).files_deleted + 1 <= u32::MAX,
        ensures
            final(self).freed_bytes == old(self).freed_bytes + freed,
            final(self).files_deleted == old(self).files_deleted + (if freed > 0 {
                1int
            } else {
                0int
            }),
            final(self).files_skipped == old(self).files_skipped,
    {
        self.freed_bytes = self.freed_bytes + freed;
        if freed > 0 {
            self.files_deleted = self.files_deleted + 1;
        }
    }

    /// Adds one file: deleted, with its size, or skipped.
    pub fn add_file(&mut self, deleted: bool, size: u64)
        requires
            deleted ==> old(self).freed_bytes + size <= u64::MAX && old(self).files_deleted + 1 <= u32::MAX,
            !deleted ==> old(self).files_skipped + 1 <= u32::MAX,
        ensures
            deleted ==> final(self).freed_bytes == old(self).freed_bytes + size && final(self).files_deleted
                == old(self).files_deleted + 1 && final(self).files_skipped == old(self).files_skipped,
            !deleted ==> final(self).freed_bytes == old(self).freed_bytes && final(self).files_deleted
                == old(self).files_deleted && final(self).files_skipped == old(self).files_skipped + 1,
    {
        if deleted {
            self.freed_bytes = self.freed_bytes + size;
            self.files_deleted = self.files_deleted + 1;
        } else {
            self.files_skipped = self.files_skipped + 1;
        }
    }
}


/// The folders that may be the user's own temporary folder, in the order they
/// are tried: `%LOCALAPPDATA%\Temp`, then `%USERPROFILE%\AppData\Local\Temp`,
/// each only when the variable is set. The first that exists is taken, else
/// `%TEMP%`; after an elevation `%TEMP%` may point into the system profile.
pub open spec fn user_temp_choices(local: Option<Seq<char>>, profile: Option<Seq<char>>) -> Seq<Seq<char>> {
    let a: Seq<Seq<char>> = match local {
        Some(l) => seq![l + "\\Temp"@],
        None => Seq::empty(),
    };
    let b: Seq<Seq<char>> = match profile {
        Some(p) => seq![p + "\\AppData\\Local\\Temp"@],
        None => Seq::empty(),
    };
    a + b
}

/// The folders that may be the user's own temporary folder (see
/// `user_temp_choices`).
pub fn user_temp_candidates(local: Option<&str>, profile: Option<&str>) -> (r: Vec<String>)
    ensures
        Seq::new(r@.len(), |i: int| r@[i]@) == user_temp_choices(
            match local {
                Some(l) => Some(l@),
                None => None,
            },
            match profile {
                Some(p) => Some(p@),
                None => None,
            },
        ),
{
    let mut r: Vec<String> = Vec::new();
    match local {
        Some(l) => r.push(joined(l, "\\Temp")),
        None => {},
    }
    match profile {
        Some(p) => r.push(joined(p, "\\AppData\\Local\\Temp")),
        None => {},
    }
    let ghost lv = match local {
        Some(l) => Some(l@),
        None => None::<Seq<char>>,
    };
    let ghost pv = match profile {
        Some(p) => Some(p@),
        None => None::<Seq<char>>,
    };
    assert(Seq::new(r@.len(), |i: int| r@[i]@) =~= user_temp_choices(lv, pv));
    r
}

} // verus!

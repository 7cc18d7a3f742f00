use optipc::cleaning::{
    assemble_categories, category_targets, clean_action, is_thumbcache_name, temp_clean_script_for,
    temp_dirs, totals_fit, user_temp_candidates, CleanAction, CleanTally, DirTotals, ScanKind,
    ShowRule,
};

const LOCAL: &str = "C:\\Users\\me\\AppData\\Local";
const ROAMING: &str = "C:\\Users\\me\\AppData\\Roaming";
const TEMP: &str = "C:\\Users\\me\\AppData\\Local\\Temp";

fn zero() -> DirTotals {
    DirTotals { bytes: 0, files: 0 }
}

#[test]
fn targets_in_listing_order() {
    let t = category_targets(LOCAL, ROAMING, TEMP);
    let ids: Vec<&str> = t.iter().map(|c| c.id).collect();
    assert_eq!(
        ids,
        vec![
            "temp_user", "temp_windows", "prefetch", "windows_update", "chrome", "edge", "firefox",
            "thumbnails", "brave", "dx_cache", "nvidia_cache", "amd_cache", "wer", "recent"
        ]
    );
    assert_eq!(t[0].dirs, vec![TEMP.to_string()]);
    assert!(t[0].scan == ScanKind::Deletable);
    assert!(t[1].requires_admin && t[2].requires_admin && t[3].requires_admin);
    assert!(!t[4].requires_admin);
    assert_eq!(t[4].dirs, vec![format!("{LOCAL}\\Google\\Chrome\\User Data\\Default\\Cache")]);
    assert_eq!(t[6].dirs, vec![format!("{ROAMING}\\Mozilla\\Firefox\\Profiles")]);
    assert_eq!(
        t[10].dirs,
        vec![format!("{LOCAL}\\NVIDIA\\DXCache"), format!("{LOCAL}\\NVIDIA\\GLCache")]
    );
    assert!(t[8].shown == ShowRule::FilesFound);
    assert!(t[11].shown == ShowRule::AnythingFound);
    assert_eq!(t[12].label, "Rapports d'erreurs Windows");
}

#[test]
fn cleaning_covers_every_listed_category() {
    for t in category_targets(LOCAL, ROAMING, TEMP) {
        match (clean_action(t.id, LOCAL, ROAMING, TEMP), t.scan) {
            (CleanAction::TempScript(s), ScanKind::Deletable) => {
                assert_eq!(s, temp_clean_script_for(&t.dirs[0]))
            }
            (CleanAction::RemoveTrees(d), ScanKind::Tree) => assert_eq!(d, t.dirs),
            (CleanAction::RemoveThumbnails(d), ScanKind::Thumbnails) => assert_eq!(d, t.dirs[0]),
            _ => panic!("category {} is cleaned otherwise than it is scanned", t.id),
        }
    }
}

#[test]
fn unknown_category_is_ignored() {
    assert!(matches!(clean_action("everything", LOCAL, ROAMING, TEMP), CleanAction::Nothing));
    assert!(matches!(clean_action("", LOCAL, ROAMING, TEMP), CleanAction::Nothing));
}

#[test]
fn temp_script_quotes_the_folder() {
    let s = temp_clean_script_for("C:\\O'Brien\\Temp");
    assert_eq!(
        s,
        "$b=(gci 'C:\\O''Brien\\Temp\\*' -r -fo -ea 0|measure -p Length -s).Sum;if(-not $b){$b=0};gci 'C:\\O''Brien\\Temp\\*' -fo -ea 0|ri -r -fo -ea 0;$a=(gci 'C:\\O''Brien\\Temp\\*' -r -fo -ea 0|measure -p Length -s).Sum;if(-not $a){$a=0};[Math]::Max(0,$b-$a)"
    );
}

#[test]
fn assembled_categories_follow_show_rules() {
    let t = category_targets(LOCAL, ROAMING, TEMP);
    let mut m: Vec<Vec<DirTotals>> = t.iter().map(|c| c.dirs.iter().map(|_| zero()).collect()).collect();
    let cats = assemble_categories(&t, &m);
    let ids: Vec<&str> = cats.iter().map(|c| c.id.as_str()).collect();
    assert!(!ids.contains(&"brave") && !ids.contains(&"nvidia_cache") && !ids.contains(&"amd_cache"));
    assert_eq!(cats.len(), 11);
    // bytes alone do not list Brave, a file does; bytes alone list AMD.
    m[8] = vec![DirTotals { bytes: 10, files: 0 }];
    m[11] = vec![DirTotals { bytes: 10, files: 0 }];
    m[10] = vec![DirTotals { bytes: 5, files: 1 }, DirTotals { bytes: 7, files: 2 }];
    let cats = assemble_categories(&t, &m);
    let ids: Vec<&str> = cats.iter().map(|c| c.id.as_str()).collect();
    assert!(!ids.contains(&"brave"));
    assert!(ids.contains(&"amd_cache"));
    let nv = cats.iter().find(|c| c.id == "nvidia_cache").unwrap();
    assert_eq!((nv.size_bytes, nv.file_count), (12, 3));
    assert_eq!(nv.label, "Cache GPU NVIDIA");
    m[8] = vec![DirTotals { bytes: 0, files: 1 }];
    let cats = assemble_categories(&t, &m);
    assert!(cats.iter().any(|c| c.id == "brave"));
    assert_eq!(cats[0].id, "temp_user");
    assert_eq!(cats[1].requires_admin, true);
}

#[test]
fn totals_overflow_is_detected() {
    let fine = vec![vec![DirTotals { bytes: u64::MAX, files: u32::MAX }]];
    assert!(totals_fit(&fine));
    let bytes = vec![vec![DirTotals { bytes: u64::MAX, files: 0 }, DirTotals { bytes: 1, files: 0 }]];
    assert!(!totals_fit(&bytes));
    let files = vec![vec![], vec![DirTotals { bytes: 0, files: u32::MAX }, DirTotals { bytes: 0, files: 1 }]];
    assert!(!totals_fit(&files));
}

#[test]
fn thumbnail_names() {
    assert!(is_thumbcache_name("thumbcache_256.db"));
    assert!(is_thumbcache_name("thumbcache_"));
    assert!(!is_thumbcache_name("iconcache_16.db"));
    assert!(!is_thumbcache_name("Thumbcache_1.db"));
}

#[test]
fn temp_dirs_sorted_deduplicated_nonempty() {
    assert_eq!(temp_dirs("B", "A"), vec!["A".to_string(), "B".to_string()]);
    assert_eq!(temp_dirs("A", "B"), vec!["A".to_string(), "B".to_string()]);
    assert_eq!(temp_dirs("X", "X"), vec!["X".to_string()]);
    assert_eq!(temp_dirs("", "X"), vec!["X".to_string()]);
    assert_eq!(temp_dirs("", ""), Vec::<String>::new());
}

#[test]
fn user_temp_choices_in_order() {
    assert_eq!(
        user_temp_candidates(Some("L"), Some("P")),
        vec!["L\\Temp".to_string(), "P\\AppData\\Local\\Temp".to_string()]
    );
    assert_eq!(user_temp_candidates(None, Some("P")), vec!["P\\AppData\\Local\\Temp".to_string()]);
    assert!(user_temp_candidates(None, None).is_empty());
}

#[test]
fn tally_counts() {
    let mut t = CleanTally::new();
    t.add_removed(100, 2, 1);
    t.add_script_freed(0);
    assert_eq!((t.freed_bytes, t.files_deleted, t.files_skipped), (100, 2, 1));
    t.add_script_freed(50);
    t.add_file(true, 7);
    t.add_file(false, 1000);
    assert_eq!((t.freed_bytes, t.files_deleted, t.files_skipped), (157, 4, 2));
}

#[test]
fn every_listed_category_is_cleaned() {
    let t = category_targets(LOCAL, ROAMING, TEMP);
    let m: Vec<Vec<DirTotals>> =
        t.iter().map(|c| c.dirs.iter().map(|_| DirTotals { bytes: 1, files: 1 }).collect()).collect();
    let cats = assemble_categories(&t, &m);
    assert_eq!(cats.len(), 14);
    for c in &cats {
        assert!(!matches!(clean_action(&c.id, LOCAL, ROAMING, TEMP), CleanAction::Nothing), "{}", c.id);
    }
}

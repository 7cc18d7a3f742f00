use optipc::games::{
    epic_game, epic_game_from_manifest, installed_games, parse_acf_value, sort_games_by_name,
    steam_game, InstalledGame,
};

const ACF: &str = "\"AppState\"\n{\n\t\"appid\"\t\t\"730\"\n\t\"name\"\t\t\"Counter-Strike 2\"\n\t\"installdir\"\t\t\"Counter-Strike Global Offensive\"\n\t\"SizeOnDisk\"\t\t\"35000000000\"\n}\n";

fn game(name: &str, platform: &str) -> InstalledGame {
    InstalledGame {
        name: name.to_string(),
        platform: platform.to_string(),
        install_path: String::new(),
        size_bytes: 0,
    }
}

#[test]
fn acf_value_reads_first_matching_line() {
    assert_eq!(parse_acf_value(ACF, "name"), "Counter-Strike 2");
    assert_eq!(parse_acf_value(ACF, "installdir"), "Counter-Strike Global Offensive");
    assert_eq!(parse_acf_value(ACF, "SizeOnDisk"), "35000000000");
    assert_eq!(parse_acf_value(ACF, "appid"), "730");
}

#[test]
fn acf_value_missing_key_is_empty() {
    assert_eq!(parse_acf_value(ACF, "buildid"), "");
    assert_eq!(parse_acf_value("", "name"), "");
    // A line with the key but no value is passed over.
    assert_eq!(parse_acf_value("\"name\"\n\"name\" \"second\"", "name"), "second");
    // The key must start the trimmed line, quoted.
    assert_eq!(parse_acf_value("x \"name\" \"v\"", "name"), "");
    assert_eq!(parse_acf_value("   \"name\"   \"v\"  \r\n", "name"), "v");
}

#[test]
fn steam_game_from_manifest() {
    let g = steam_game("C:\\Program Files (x86)\\Steam\\steamapps", ACF).unwrap();
    assert_eq!(g.name, "Counter-Strike 2");
    assert_eq!(g.platform, "Steam");
    assert_eq!(
        g.install_path,
        "C:\\Program Files (x86)\\Steam\\steamapps\\Counter-Strike Global Offensive"
    );
    assert_eq!(g.size_bytes, 35_000_000_000);
}

#[test]
fn steam_game_without_name_is_skipped() {
    assert!(steam_game("base", "\"appid\" \"1\"").is_none());
    let g = steam_game("b", "\"name\" \"X\"\n\"SizeOnDisk\" \"oops\"").unwrap();
    assert_eq!(g.size_bytes, 0);
    assert_eq!(g.install_path, "b\\");
}

#[test]
fn epic_manifest_is_read_with_serde_json() {
    let text = r#"{"DisplayName": "Fortnite", "InstallLocation": "C:\\Games\\Fortnite", "InstallSize": 12345}"#;
    let g = epic_game_from_manifest(text).unwrap();
    assert_eq!(g.name, "Fortnite");
    assert_eq!(g.platform, "Epic");
    assert_eq!(g.install_path, "C:\\Games\\Fortnite");
    assert_eq!(g.size_bytes, 12345);
}

#[test]
fn epic_manifest_missing_members() {
    assert!(epic_game_from_manifest("not json").is_none());
    assert!(epic_game_from_manifest(r#"{"InstallSize": 1}"#).is_none());
    assert!(epic_game_from_manifest(r#"{"DisplayName": ""}"#).is_none());
    let g = epic_game_from_manifest(r#"{"DisplayName": "A", "InstallSize": -4}"#).unwrap();
    assert_eq!(g.install_path, "");
    assert_eq!(g.size_bytes, 0);
}

#[test]
fn epic_game_from_fields() {
    assert!(epic_game(None).is_none());
    assert!(epic_game(Some((None, Some("p".to_string()), Some(3)))).is_none());
    let g = epic_game(Some((Some("N".to_string()), None, Some(3)))).unwrap();
    assert_eq!((g.name.as_str(), g.install_path.as_str(), g.size_bytes), ("N", "", 3));
}

#[test]
fn sort_is_by_name_and_stable() {
    let games = vec![game("b", "1"), game("a", "2"), game("b", "3"), game("A", "4"), game("a", "5")];
    let sorted = sort_games_by_name(games);
    let got: Vec<(String, String)> = sorted.into_iter().map(|g| (g.name, g.platform)).collect();
    let want: Vec<(String, String)> = [("A", "4"), ("a", "2"), ("a", "5"), ("b", "1"), ("b", "3")]
        .iter()
        .map(|(n, p)| (n.to_string(), p.to_string()))
        .collect();
    assert_eq!(got, want);
}

#[test]
fn installed_games_lists_both_stores_sorted() {
    let steam = vec![
        ("S1".to_string(), "\"name\" \"Zeta\"".to_string()),
        ("S2".to_string(), "no name here".to_string()),
        ("S3".to_string(), "\"name\" \"Alpha\"".to_string()),
    ];
    let epic = vec![r#"{"DisplayName": "Mid"}"#.to_string(), "{}".to_string()];
    let games = installed_games(&steam, &epic);
    let names: Vec<&str> = games.iter().map(|g| g.name.as_str()).collect();
    assert_eq!(names, vec!["Alpha", "Mid", "Zeta"]);
    assert_eq!(games[0].install_path, "S3\\");
    assert_eq!(games[1].platform, "Epic");
}

#[test]
fn acf_value_has_no_quote_and_comes_from_its_line() {
    let content = "\"name\"\t\"a\"b\"c\"\n\t\"installdir\" \"dir\"  ";
    let v = parse_acf_value(content, "name");
    assert_eq!(v, "a");
    assert!(!v.contains('"'));
    let v = parse_acf_value(content, "installdir");
    assert!(content
        .lines()
        .any(|l| l.trim().starts_with("\"installdir\"") && l.contains(v.as_str())));
}

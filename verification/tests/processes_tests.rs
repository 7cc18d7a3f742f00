use optipc::processes::has_game_pattern;
use optipc::processes::{
    boosted_count_from_output, game_folder_boost_script, is_game_process, kill_process_message,
    kill_process_script, plan_auto_boost, ProcessName, BOOST_SCRIPT_TAIL,
};

fn p(pid: u32, name: &str) -> ProcessName {
    ProcessName { pid, name: name.to_string() }
}

#[test]
fn game_names() {
    assert!(is_game_process("Steam.exe"));
    assert!(is_game_process("VALORANT-Win64-Shipping.exe"));
    assert!(is_game_process("cs2.exe"));
    assert!(!is_game_process("explorer.exe"));
    assert!(!is_game_process(""));
    // "upc" is a pattern: any name containing it counts.
    assert!(is_game_process("UPCService"));
}

#[test]
fn no_game_no_script() {
    let plan = plan_auto_boost(&vec![p(1, "explorer.exe"), p(2, "svchost.exe")]);
    assert!(!plan.result.game_detected);
    assert_eq!(plan.result.game_name, "");
    assert_eq!(plan.result.processes_boosted, 0);
    assert!(plan.script.is_none());
    assert!(plan_auto_boost(&vec![]).script.is_none());
}

#[test]
fn games_are_boosted_in_order() {
    let plan = plan_auto_boost(&vec![
        p(10, "explorer.exe"),
        p(4321, "Fortnite.exe"),
        p(7, "notepad.exe"),
        p(99, "steamwebhelper.exe"),
    ]);
    assert!(plan.result.game_detected);
    assert_eq!(plan.result.game_name, "Fortnite.exe");
    assert_eq!(plan.result.processes_boosted, 2);
    assert_eq!(plan.script.unwrap(), format!("@(4321,99{}", BOOST_SCRIPT_TAIL));
    assert!(BOOST_SCRIPT_TAIL.starts_with(") | ForEach-Object { try { (Get-Process -Id $_ -EA Stop).PriorityClass = 'High' } catch {} }\nAdd-Type @'"));
}

#[test]
fn folder_boost_script_lowercases_and_quotes() {
    assert_eq!(
        game_folder_boost_script("C:\\Games\\Tom's"),
        "$c=0; Get-Process -EA SilentlyContinue | ForEach-Object { try { $e=$_.MainModule.FileName; if($e -and $e.ToLower().StartsWith('c:\\games\\tom''s')){ $_.PriorityClass='High'; $c++ } } catch {} }; $c"
    );
}

#[test]
fn boosted_count_parsing() {
    assert_eq!(boosted_count_from_output("3"), 3);
    assert_eq!(boosted_count_from_output(" 12\r\n"), 12);
    assert_eq!(boosted_count_from_output(""), 0);
    assert_eq!(boosted_count_from_output("error"), 0);
}

#[test]
fn kill_process_texts() {
    assert_eq!(kill_process_script(1234), "Stop-Process -Id 1234 -Force -ErrorAction SilentlyContinue");
    assert_eq!(kill_process_message(0), "Processus 0 terminé");
}

#[test]
fn game_pattern_on_lower_case_text() {
    assert!(has_game_pattern("steam.exe"));
    assert!(has_game_pattern("r6siege"));
    // The text is taken as it is: no lower-casing here.
    assert!(!has_game_pattern("STEAM.EXE"));
    assert!(!has_game_pattern("notepad.exe"));
}

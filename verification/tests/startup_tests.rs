use optipc::startup::{parse_startup_programs, toggle_startup_script};

#[test]
fn startup_lines_are_parsed() {
    let out = "OneDrive|\"C:\\OneDrive.exe\" /background|HKCU|True\nbad line\n\nTool|run.exe|a|b|HKLM| FALSE \r\nX|y|HKLM|true";
    let progs = parse_startup_programs(out);
    assert_eq!(progs.len(), 3);
    assert_eq!(progs[0].name, "OneDrive");
    assert_eq!(progs[0].command, "\"C:\\OneDrive.exe\" /background");
    assert_eq!(progs[0].location, "HKCU");
    assert!(progs[0].enabled);
    // The fourth field holds the rest of the line.
    assert_eq!(progs[1].location, "a");
    assert!(!progs[1].enabled);
    assert!(progs[2].enabled);
    assert!(parse_startup_programs("").is_empty());
}

#[test]
fn toggle_scripts() {
    assert_eq!(
        toggle_startup_script("My 'App'", "HKCU", false),
        "$p='HKCU:\\Software\\Microsoft\\Windows\\CurrentVersion\\Explorer\\StartupApproved\\Run'; if(!(Test-Path $p)){New-Item $p -Force|Out-Null}; $b=[byte[]](@(0x03)+(@(0)*11)); Set-ItemProperty $p 'My ''App''' $b -Type Binary -Force"
    );
    let s = toggle_startup_script("x", "HKLM", true);
    assert!(s.starts_with("$p='HKLM:\\SOFTWARE\\Microsoft\\Windows\\CurrentVersion\\Explorer\\StartupApproved\\Run'"));
    assert!(s.contains("@(0x02)"));
    // Anything but HKCU goes to HKLM.
    assert!(toggle_startup_script("x", "hkcu", true).starts_with("$p='HKLM:"));
}

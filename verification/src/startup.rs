//! Programs started with the session: reading the list that the registry query
//! prints, and the script that turns one of them on or off.

use vstd::prelude::*;
use crate::text::{
    chars_of, double_quotes, lines_chars, lines_of, lowercase, quote_doubled, same_text,
    split_chars, split_pieces, string_of, to_lowercase, trim, trimmed, views_of,
};

verus! {

/// One program started with the session.
pub struct StartupProgram {
    pub name: String,
    pub command: String,
    /// `HKCU` or `HKLM`.
    pub location: String,
    pub enabled: bool,
}

/// What a `StartupProgram` holds, as text.
pub struct StartupRecord {
    pub name: Seq<char>,
    pub command: Seq<char>,
    pub location: Seq<char>,
    pub enabled: bool,
}

impl View for StartupProgram {
    type V = StartupRecord;

    open spec fn view(&self) -> StartupRecord {
        StartupRecord {
            name: self.name@,
            command: self.command@,
            location: self.location@,
            enabled: self.enabled,
        }
    }
}

/// The program that one line of the query's output describes: the line must
/// split at `|` into name, command, location and state (the state holding the
/// rest of the line); the program is enabled when the state, trimmed and in
/// lower case, reads `true`.
pub open spec fn startup_line(line: Seq<char>) -> Option<StartupRecord> {
    let p = split_pieces(line, '|', Some(4));
    if p.len() == 4 {
        Some(
            StartupRecord {
                name: p[0],
                command: p[1],
                location: p[2],
                enabled: lowercase(trimmed(p[3])) == "true"@,
            },
        )
    } else {
        None
    }
}

/// The programs that `lines` describe, in order; empty lines and lines that do
/// not split into four fields are skipped.
pub open spec fn startup_lines(lines: Seq<Seq<char>>) -> Seq<StartupRecord>
    decreases lines.len(),
{
    if lines.len() == 0 {
        Seq::empty()
    } else {
        let rest = startup_lines(lines.drop_last());
        let line = lines.last();
        if line.len() == 0 {
            rest
        } else {
            match startup_line(line) {
                Some(p) => rest.push(p),
                None => rest,
            }
        }
    }
}

/// The records of a sequence of programs.
pub open spec fn startup_records(s: Seq<StartupProgram>) -> Seq<StartupRecord> {
    Seq::new(s.len(), |i: int| s[i]@)
}

/// Reads the programs from the output of the startup query, one per line (see
/// `startup_lines`).
pub fn parse_startup_programs(output: &str) -> (r: Vec<StartupProgram>)
    ensures
        startup_records(r@) == startup_lines(lines_of(output@)),
{
    let cs = chars_of(output);
    let lines = lines_chars(cs.as_slice());
    let ghost ls = lines_of(output@);
    let n = lines.len();
    let mut r: Vec<StartupProgram> = Vec::new();
    for i in 0..n
        invariant
            n == lines@.len() == ls.len(),
            views_of(lines@) == ls,
            startup_records(r@) == startup_lines(ls.take(i as int)),
    {
        let ghost before = r@;
        assert(ls.take(i + 1).drop_last() == ls.take(i as int));
        assert(lines@[i as int]@ == ls[i as int]);
        let line = &lines[i];
        if line.len() > 0 {
            let p = split_chars(line.as_slice(), '|', Some(4));
            if p.len() == 4 {
                let state = string_of(p[3].as_slice());
                let state = trim(state.as_str());
                let state = to_lowercase(state.as_str());
                let enabled = same_text(state.as_str(), "true");
                r.push(
                    StartupProgram {
                        name: string_of(p[0].as_slice()),
                        command: string_of(p[1].as_slice()),
                        location: string_of(p[2].as_slice()),
                        enabled,
                    },
                );
                assert(startup_records(r@) =~= startup_records(before).push(
                    startup_line(ls[i as int]).unwrap(),
                ));
            }
        }
    }
    assert(ls.take(n as int) == ls);
    r
}

/// The registry key that records whether programs of `location` start.
pub open spec fn approval_key(location: Seq<char>) -> Seq<char> {
    if location == "HKCU"@ {
        "HKCU:\\Software\\Microsoft\\Windows\\CurrentVersion\\Explorer\\StartupApproved\\Run"@
    } else {
        "HKLM:\\SOFTWARE\\Microsoft\\Windows\\CurrentVersion\\Explorer\\StartupApproved\\Run"@
    }
}

/// The script that marks the program `name` of `location` as enabled or
/// disabled: it writes the approval bytes (`02` to enable, `03` to disable,
/// then eleven zeros) under the program's name, quoted for PowerShell.
pub open spec fn toggle_script(name: Seq<char>, location: Seq<char>, enable: bool) -> Seq<char> {
    "$p='"@ + approval_key(location) + "'; if(!(Test-Path $p)){New-Item $p -Force|Out-Null}; "@ + (if enable {
        "$b=[byte[]](@(0x02)+(@(0)*11))"@
    } else {
        "$b=[byte[]](@(0x03)+(@(0)*11))"@
    }) + "; Set-ItemProperty $p '"@ + quote_doubled(name) + "' $b -Type Binary -Force"@
}

/// The script that enables or disables the program `name` of `location` (see
/// `toggle_script`).
pub fn toggle_startup_script(name: &str, location: &str, enable: bool) -> (r: String)
    ensures
        r@ == toggle_script(name@, location@, enable),
{
    let key = if same_text(location, "HKCU") {
        "HKCU:\\Software\\Microsoft\\Windows\\CurrentVersion\\Explorer\\StartupApproved\\Run"
    } else {
        "HKLM:\\SOFTWARE\\Microsoft\\Windows\\CurrentVersion\\Explorer\\StartupApproved\\Run"
    };
    let bytes = if enable {
        "$b=[byte[]](@(0x02)+(@(0)*11))"
    } else {
        "$b=[byte[]](@(0x03)+(@(0)*11))"
    };
    let quoted = double_quotes(name);
    let mut s = String::from_str("$p='");
    s.append(key);
    s.append("'; if(!(Test-Path $p)){New-Item $p -Force|Out-Null}; ");
    s.append(bytes);
    s.append("; Set-ItemProperty $p '");
    s.append(quoted.as_str());
    s.append("' $b -Type Binary -Force");
    s
}


/// Enabling and disabling a program give the same script but for the approval
/// bytes that it writes: `02` then eleven zeros to enable, `03` then eleven
/// zeros to disable, whatever the program's name and location.
pub proof fn law_toggle_marker(name: Seq<char>, location: Seq<char>)
    ensures
        exists|head: Seq<char>, tail: Seq<char>|
            toggle_script(name, location, true) == head + "$b=[byte[]](@(0x02)+(@(0)*11))"@ + tail
                && toggle_script(name, location, false) == head + "$b=[byte[]](@(0x03)+(@(0)*11))"@ + tail,
{
    let head = "$p='"@ + approval_key(location) + "'; if(!(Test-Path $p)){New-Item $p -Force|Out-Null}; "@;
    let tail = "; Set-ItemProperty $p '"@ + quote_doubled(name) + "' $b -Type Binary -Force"@;
    assert(toggle_script(name, location, true) =~= head + "$b=[byte[]](@(0x02)+(@(0)*11))"@ + tail);
    assert(toggle_script(name, location, false) =~= head + "$b=[byte[]](@(0x03)+(@(0)*11))"@ + tail);
}

/// The script writes under the per-user approval key for a program of `HKCU`
/// and under the machine-wide one for any other location, and names the
/// program, quoted for PowerShell, at its end.
pub proof fn law_toggle_key(name: Seq<char>, location: Seq<char>, enable: bool)
    ensures
        exists|middle: Seq<char>|
            #![trigger middle.len()]
            toggle_script(name, location, enable) == (if location == "HKCU"@ {
                "$p='HKCU:\\Software\\Microsoft\\Windows\\CurrentVersion\\Explorer\\StartupApproved\\Run'"@
            } else {
                "$p='HKLM:\\SOFTWARE\\Microsoft\\Windows\\CurrentVersion\\Explorer\\StartupApproved\\Run'"@
            }) + middle + "'"@ + quote_doubled(name) + "' $b -Type Binary -Force"@,
{
    let middle = "; if(!(Test-Path $p)){New-Item $p -Force|Out-Null}; "@ + (if enable {
        "$b=[byte[]](@(0x02)+(@(0)*11))"@
    } else {
        "$b=[byte[]](@(0x03)+(@(0)*11))"@
    }) + "; Set-ItemProperty $p "@;
    assert(middle.len() == middle.len());
    reveal_strlit("$p='");
    reveal_strlit("'; if(!(Test-Path $p)){New-Item $p -Force|Out-Null}; ");
    reveal_strlit("; if(!(Test-Path $p)){New-Item $p -Force|Out-Null}; ");
    reveal_strlit("; Set-ItemProperty $p '");
    reveal_strlit("; Set-ItemProperty $p ");
    reveal_strlit("'");
    reveal_strlit("HKCU:\\Software\\Microsoft\\Windows\\CurrentVersion\\Explorer\\StartupApproved\\Run");
    reveal_strlit("HKLM:\\SOFTWARE\\Microsoft\\Windows\\CurrentVersion\\Explorer\\StartupApproved\\Run");
    reveal_strlit("$p='HKCU:\\Software\\Microsoft\\Windows\\CurrentVersion\\Explorer\\StartupApproved\\Run'");
    reveal_strlit("$p='HKLM:\\SOFTWARE\\Microsoft\\Windows\\CurrentVersion\\Explorer\\StartupApproved\\Run'");
    if location == "HKCU"@ {
        assert(toggle_script(name, location, enable) =~= "$p='HKCU:\\Software\\Microsoft\\Windows\\CurrentVersion\\Explorer\\StartupApproved\\Run'"@
            + middle + "'"@ + quote_doubled(name) + "' $b -Type Binary -Force"@);
    } else {
        assert(toggle_script(name, location, enable) =~= "$p='HKLM:\\SOFTWARE\\Microsoft\\Windows\\CurrentVersion\\Explorer\\StartupApproved\\Run'"@
            + middle + "'"@ + quote_doubled(name) + "' $b -Type Binary -Force"@);
    }
}

/// The registry query that prints one `name|command|location|enabled` line per
/// program started with the session.
pub const STARTUP_QUERY: &'static str = r#"
$out = @()
function Get-StartupItems($regPath, $loc) {
    if (!(Test-Path $regPath)) { return }
    $items = Get-ItemProperty $regPath -EA SilentlyContinue
    if (!$items) { return }
    $items | Get-Member -MemberType NoteProperty |
    Where-Object { $_.Name -notin @('PSPath','PSParentPath','PSChildName','PSDrive','PSProvider') } |
    ForEach-Object {
        $name = $_.Name
        $cmd  = "$($items.$name)"
        $saPath = $regPath -replace '\\Run$','\Explorer\StartupApproved\Run'
        $enabled = $true
        try {
            $bytes = Get-ItemPropertyValue $saPath $name -EA Stop
            if ($bytes -and $bytes[0] -eq 3) { $enabled = $false }
        } catch {}
        $script:out += ("{0}|{1}|{2}|{3}" -f $name, $cmd, $loc, $enabled)
    }
}
Get-StartupItems 'HKCU:\Software\Microsoft\Windows\CurrentVersion\Run' 'HKCU'
Get-StartupItems 'HKLM:\SOFTWARE\Microsoft\Windows\CurrentVersion\Run' 'HKLM'
$out -join "`n"
"#;

} // verus!

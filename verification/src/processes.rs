//! Work on running processes: finding game processes and the script that
//! raises their priority, raising the priority of a game's processes by its
//! install folder, and ending a process.

use vstd::prelude::*;
use crate::text::{
    chars_of, contains, push_char, contains_chars, decimal, decimal_string, double_quotes, lowercase,
    parse_u32, parse_unsigned, quote_doubled, to_lowercase, trim, trimmed,
};

verus! {

/// What the priority script does after the list of process identifiers:
/// raise each to high priority, then empty the working set of every process.
pub const BOOST_SCRIPT_TAIL: &'static str = ") | ForEach-Object { try { (Get-Process -Id $_ -EA Stop).PriorityClass = 'High' } catch {} }\nAdd-Type @'\nusing System; using System.Runtime.InteropServices; using System.Diagnostics;\npublic class RCB { [DllImport(\"psapi.dll\")] public static extern bool EmptyWorkingSet(IntPtr h); public static void Clean() { foreach(var p in Process.GetProcesses()) { try { RCB.EmptyWorkingSet(p.Handle); } catch {} } } }\n'@\n[RCB]::Clean() | Out-Null";

/// A running process as the game detection reads it.
pub struct ProcessName {
    pub pid: u32,
    pub name: String,
}

/// The result of a gaming session boost.
pub struct AutoBoostResult {
    pub game_detected: bool,
    pub game_name: String,
    pub processes_boosted: u32,
}


/// The name fragments that mark a process as a game or a game launcher, matched
/// against the process name in lower case.
pub open spec fn game_patterns() -> Seq<&'static str> {
    seq!["steam", "epicgameslauncher", "riotclient", "battle.net", "origin", "upc", "galaxyclient", "minecraft", "fortnite", "valorant", "cs2", "csgo", "leagueoflegends", "dota2", "overwatch", "gta5", "gtav", "rocketleague", "apexlegends", "warzone", "pubg-win", "rustclient", "r6siege", "eft", "valorant"]
}

/// The name fragments that mark a game process (see `game_patterns`).
pub fn patterns() -> (v: Vec<&'static str>)
    ensures
        v@ == game_patterns(),
{
    vec!["steam", "epicgameslauncher", "riotclient", "battle.net", "origin", "upc", "galaxyclient", "minecraft", "fortnite", "valorant", "cs2", "csgo", "leagueoflegends", "dota2", "overwatch", "gta5", "gtav", "rocketleague", "apexlegends", "warzone", "pubg-win", "rustclient", "r6siege", "eft", "valorant"]
}

/// Whether lower-case text contains one of the game patterns.
pub open spec fn has_game_word(lower: Seq<char>) -> bool {
    exists|i: int| 0 <= i < game_patterns().len() && contains(lower, #[trigger] game_patterns()[i]@)
}

/// Whether a process of this name is taken for a game: its lower-case name
/// contains one of the game patterns.
pub open spec fn is_game_name(name: Seq<char>) -> bool {
    has_game_word(lowercase(name))
}

/// A name is taken for a game exactly when its lower-case form contains one of
/// these words: `steam`, `epicgameslauncher`, `riotclient`, `battle.net`,
/// `origin`, `upc`, `galaxyclient`, `minecraft`, `fortnite`, `valorant`, `cs2`,
/// `csgo`, `leagueoflegends`, `dota2`, `overwatch`, `gta5`, `gtav`,
/// `rocketleague`, `apexlegends`, `warzone`, `pubg-win`, `rustclient`,
/// `r6siege`, `eft`.
pub proof fn law_game_words(name: Seq<char>)
    ensures
        is_game_name(name) <==> {
            let lower = lowercase(name);
            ||| contains(lower, "steam"@)
            ||| contains(lower, "epicgameslauncher"@)
            ||| contains(lower, "riotclient"@)
            ||| contains(lower, "battle.net"@)
            ||| contains(lower, "origin"@)
            ||| contains(lower, "upc"@)
            ||| contains(lower, "galaxyclient"@)
            ||| contains(lower, "minecraft"@)
            ||| contains(lower, "fortnite"@)
            ||| contains(lower, "valorant"@)
            ||| contains(lower, "cs2"@)
            ||| contains(lower, "csgo"@)
            ||| contains(lower, "leagueoflegends"@)
            ||| contains(lower, "dota2"@)
            ||| contains(lower, "overwatch"@)
            ||| contains(lower, "gta5"@)
            ||| contains(lower, "gtav"@)
            ||| contains(lower, "rocketleague"@)
            ||| contains(lower, "apexlegends"@)
            ||| contains(lower, "warzone"@)
            ||| contains(lower, "pubg-win"@)
            ||| contains(lower, "rustclient"@)
            ||| contains(lower, "r6siege"@)
            ||| contains(lower, "eft"@)
        },
{
    let lower = lowercase(name);
    let p = game_patterns();
    if is_game_name(name) {
        let i = choose|i: int| 0 <= i < p.len() && contains(lower, #[trigger] p[i]@);
        if i == 0 {
            assert(p[0]@ == "steam"@);
        } else if i == 1 {
            assert(p[1]@ == "epicgameslauncher"@);
        } else if i == 2 {
            assert(p[2]@ == "riotclient"@);
        } else if i == 3 {
            assert(p[3]@ == "battle.net"@);
        } else if i == 4 {
            assert(p[4]@ == "origin"@);
        } else if i == 5 {
            assert(p[5]@ == "upc"@);
        } else if i == 6 {
            assert(p[6]@ == "galaxyclient"@);
        } else if i == 7 {
            assert(p[7]@ == "minecraft"@);
        } else if i == 8 {
            assert(p[8]@ == "fortnite"@);
        } else if i == 9 {
            assert(p[9]@ == "valorant"@);
        } else if i == 10 {
            assert(p[10]@ == "cs2"@);
        } else if i == 11 {
            assert(p[11]@ == "csgo"@);
        } else if i == 12 {
            assert(p[12]@ == "leagueoflegends"@);
        } else if i == 13 {
            assert(p[13]@ == "dota2"@);
        } else if i == 14 {
            assert(p[14]@ == "overwatch"@);
        } else if i == 15 {
            assert(p[15]@ == "gta5"@);
        } else if i == 16 {
            assert(p[16]@ == "gtav"@);
        } else if i == 17 {
            assert(p[17]@ == "rocketleague"@);
        } else if i == 18 {
            assert(p[18]@ == "apexlegends"@);
        } else if i == 19 {
            assert(p[19]@ == "warzone"@);
        } else if i == 20 {
            assert(p[20]@ == "pubg-win"@);
        } else if i == 21 {
            assert(p[21]@ == "rustclient"@);
        } else if i == 22 {
            assert(p[22]@ == "r6siege"@);
        } else if i == 23 {
            assert(p[23]@ == "eft"@);
        } else if i == 24 {
            assert(p[24]@ == "valorant"@);
        }
    }
        if contains(lower, "steam"@) {
            assert(game_patterns()[0]@ == "steam"@);
        }
        if contains(lower, "epicgameslauncher"@) {
            assert(game_patterns()[1]@ == "epicgameslauncher"@);
        }
        if contains(lower, "riotclient"@) {
            assert(game_patterns()[2]@ == "riotclient"@);
        }
        if contains(lower, "battle.net"@) {
            assert(game_patterns()[3]@ == "battle.net"@);
        }
        if contains(lower, "origin"@) {
            assert(game_patterns()[4]@ == "origin"@);
        }
        if contains(lower, "upc"@) {
            assert(game_patterns()[5]@ == "upc"@);
        }
        if contains(lower, "galaxyclient"@) {
            assert(game_patterns()[6]@ == "galaxyclient"@);
        }
        if contains(lower, "minecraft"@) {
            assert(game_patterns()[7]@ == "minecraft"@);
        }
        if contains(lower, "fortnite"@) {
            assert(game_patterns()[8]@ == "fortnite"@);
        }
        if contains(lower, "valorant"@) {
            assert(game_patterns()[9]@ == "valorant"@);
        }
        if contains(lower, "cs2"@) {
            assert(game_patterns()[10]@ == "cs2"@);
        }
        if contains(lower, "csgo"@) {
            assert(game_patterns()[11]@ == "csgo"@);
        }
        if contains(lower, "leagueoflegends"@) {
            assert(game_patterns()[12]@ == "leagueoflegends"@);
        }
        if contains(lower, "dota2"@) {
            assert(game_patterns()[13]@ == "dota2"@);
        }
        if contains(lower, "overwatch"@) {
            assert(game_patterns()[14]@ == "overwatch"@);
        }
        if contains(lower, "gta5"@) {
            assert(game_patterns()[15]@ == "gta5"@);
        }
        if contains(lower, "gtav"@) {
            assert(game_patterns()[16]@ == "gtav"@);
        }
        if contains(lower, "rocketleague"@) {
            assert(game_patterns()[17]@ == "rocketleague"@);
        }
        if contains(lower, "apexlegends"@) {
            assert(game_patterns()[18]@ == "apexlegends"@);
        }
        if contains(lower, "warzone"@) {
            assert(game_patterns()[19]@ == "warzone"@);
        }
        if contains(lower, "pubg-win"@) {
            assert(game_patterns()[20]@ == "pubg-win"@);
        }
        if contains(lower, "rustclient"@) {
            assert(game_patterns()[21]@ == "rustclient"@);
        }
        if contains(lower, "r6siege"@) {
            assert(game_patterns()[22]@ == "r6siege"@);
        }
        if contains(lower, "eft"@) {
            assert(game_patterns()[23]@ == "eft"@);
        }
}

/// Whether text, already in lower case, contains one of the game patterns (see
/// `has_game_word`).
pub fn has_game_pattern(lower: &str) -> (r: bool)
    ensures
        r == has_game_word(lower@),
{
    let hay = chars_of(lower);
    let pats = patterns();
    let n = pats.len();
    for i in 0..n
        invariant
            n == pats@.len(),
            pats@ == game_patterns(),
            hay@ == lower@,
            forall|k: int| 0 <= k < i ==> !contains(lower@, #[trigger] game_patterns()[k]@),
    {
        let needle = chars_of(pats[i]);
        if contains_chars(hay.as_slice(), needle.as_slice()) {
            assert(contains(lower@, game_patterns()[i as int]@));
            return true;
        }
    }
    false
}

/// Whether a process of this name is taken for a game (see `is_game_name`).
pub fn is_game_process(name: &str) -> (r: bool)
    ensures
        r == is_game_name(name@),
{
    let lower = to_lowercase(name);
    has_game_pattern(lower.as_str())
}

/// The identifier and name of each process.
pub open spec fn process_views(s: Seq<ProcessName>) -> Seq<(u32, Seq<char>)> {
    Seq::new(s.len(), |i: int| (s[i].pid, s[i].name@))
}

/// The processes taken for games, in order.
pub open spec fn game_processes(s: Seq<(u32, Seq<char>)>) -> Seq<(u32, Seq<char>)>
    decreases s.len(),
{
    if s.len() == 0 {
        s
    } else if is_game_name(s.last().1) {
        game_processes(s.drop_last()).push(s.last())
    } else {
        game_processes(s.drop_last())
    }
}

/// The identifiers of the processes in decimal, separated by commas.
pub open spec fn pid_list(s: Seq<(u32, Seq<char>)>) -> Seq<char>
    decreases s.len(),
{
    if s.len() == 0 {
        Seq::empty()
    } else if s.len() == 1 {
        decimal(s[0].0 as nat)
    } else {
        pid_list(s.drop_last()) + seq![','] + decimal(s.last().0 as nat)
    }
}

/// The script that raises the given game processes to high priority and then
/// empties the working sets.
pub open spec fn boost_script(games: Seq<(u32, Seq<char>)>) -> Seq<char> {
    "@("@ + pid_list(games) + BOOST_SCRIPT_TAIL@
}

/// What a gaming session boost does: the result to report, and the script to
/// run, if any.
pub struct BoostPlan {
    pub result: AutoBoostResult,
    pub script: Option<String>,
}

proof fn lemma_game_processes_len(s: Seq<(u32, Seq<char>)>)
    ensures
        game_processes(s).len() <= s.len(),
        game_processes(s).len() > 0 ==> game_processes(s)[0] == game_processes(s.drop_last().push(s.last()))[0],
    decreases s.len(),
{
    if s.len() > 0 {
        lemma_game_processes_len(s.drop_last());
        assert(s.drop_last().push(s.last()) == s);
    }
}

/// Plans a gaming session boost from the list of running processes: the
/// processes taken for games (see `is_game_name`) are found in order; with
/// none, nothing is detected and no script runs; otherwise the first game's
/// name and the number of game processes are reported, and the script raises
/// them all (see `boost_script`).
pub fn plan_auto_boost(procs: &Vec<ProcessName>) -> (r: BoostPlan)
    ensures
        r.result.game_detected == (game_processes(process_views(procs@)).len() > 0),
        r.result.game_name@ == (if game_processes(process_views(procs@)).len() > 0 {
            game_processes(process_views(procs@))[0].1
        } else {
            Seq::empty()
        }),
        r.result.processes_boosted == game_processes(process_views(procs@)).len() as u32,
        match r.script {
            Some(s) => game_processes(process_views(procs@)).len() > 0 && s@ == boost_script(
                game_processes(process_views(procs@)),
            ),
            None => game_processes(process_views(procs@)).len() == 0,
        },
{
    let ghost all = process_views(procs@);
    let n = procs.len();
    let mut count: usize = 0;
    let mut first: String = String::new();
    let mut pids: String = String::new();
    for i in 0..n
        invariant
            n == procs@.len() == all.len(),
            all == process_views(procs@),
            count == game_processes(all.take(i as int)).len(),
            count <= i,
            count > 0 ==> first@ == game_processes(all.take(i as int))[0].1,
            pids@ == pid_list(game_processes(all.take(i as int))),
    {
        let p = &procs[i];
        assert(all[i as int] == (p.pid, p.name@));
        assert(all.take(i + 1).drop_last() == all.take(i as int));
        assert(all.take(i + 1).last() == all[i as int]);
        let ghost before = game_processes(all.take(i as int));
        if is_game_process(p.name.as_str()) {
            let ghost after = before.push((p.pid, p.name@));
            assert(game_processes(all.take(i + 1)) == after);
            if count == 0 {
                first = p.name.clone();
                assert(after.len() == 1);
            } else {
                push_char(&mut pids, ',');
                assert(after.drop_last() == before);
            }
            let digits = decimal_string(p.pid as u64);
            pids.append(digits.as_str());
            count += 1;
            assert(after[0] == (if before.len() > 0 { before[0] } else { (p.pid, p.name@) }));
        }
    }
    assert(all.take(n as int) == all);
    let games_found = count > 0;
    let result = AutoBoostResult { game_detected: games_found, game_name: first, processes_boosted: #[verifier::truncate] (count as u32) };
    if games_found {
        let mut script = String::from_str("@(");
        script.append(pids.as_str());
        script.append(BOOST_SCRIPT_TAIL);
        BoostPlan { result, script: Some(script) }
    } else {
        BoostPlan { result: AutoBoostResult { game_detected: false, game_name: String::new(), processes_boosted: 0 }, script: None }
    }
}


/// The script that raises to high priority every process whose executable lies
/// under `install_path` (compared in lower case, the path quoted for
/// PowerShell) and prints how many it raised.
pub open spec fn folder_boost_script(install_path: Seq<char>) -> Seq<char> {
    "$c=0; Get-Process -EA SilentlyContinue | ForEach-Object { try { $e=$_.MainModule.FileName; if($e -and $e.ToLower().StartsWith('"@
        + quote_doubled(lowercase(install_path))
        + "')){ $_.PriorityClass='High'; $c++ } } catch {} }; $c"@
}

/// The script that raises the processes of the game installed at
/// `install_path` (see `folder_boost_script`).
pub fn game_folder_boost_script(install_path: &str) -> (r: String)
    ensures
        r@ == folder_boost_script(install_path@),
{
    let lower = to_lowercase(install_path);
    let quoted = double_quotes(lower.as_str());
    let mut s = String::from_str(
        "$c=0; Get-Process -EA SilentlyContinue | ForEach-Object { try { $e=$_.MainModule.FileName; if($e -and $e.ToLower().StartsWith('",
    );
    s.append(quoted.as_str());
    s.append("')){ $_.PriorityClass='High'; $c++ } } catch {} }; $c");
    s
}

/// The number of raised processes that the script printed: the output, trimmed,
/// read as a `u32`, or 0 when it is not one.
pub open spec fn boosted_count(output: Seq<char>) -> u32 {
    match parse_unsigned(trimmed(output), u32::MAX as nat) {
        Some(v) => v as u32,
        None => 0,
    }
}

/// Reads the number of raised processes from the script's output (see
/// `boosted_count`).
pub fn boosted_count_from_output(output: &str) -> (r: u32)
    ensures
        r == boosted_count(output@),
{
    let t = trim(output);
    match parse_u32(t.as_str()) {
        Some(v) => v,
        None => 0,
    }
}

/// The script that ends the process `pid`.
pub open spec fn kill_script(pid: u32) -> Seq<char> {
    "Stop-Process -Id "@ + decimal(pid as nat) + " -Force -ErrorAction SilentlyContinue"@
}

/// The message after ending the process `pid`.
pub open spec fn kill_message(pid: u32) -> Seq<char> {
    "Processus "@ + decimal(pid as nat) + " terminé"@
}

/// The script that ends the process `pid` (see `kill_script`).
pub fn kill_process_script(pid: u32) -> (r: String)
    ensures
        r@ == kill_script(pid),
{
    let digits = decimal_string(pid as u64);
    let mut s = String::from_str("Stop-Process -Id ");
    s.append(digits.as_str());
    s.append(" -Force -ErrorAction SilentlyContinue");
    s
}

/// The message after ending the process `pid` (see `kill_message`).
pub fn kill_process_message(pid: u32) -> (r: String)
    ensures
        r@ == kill_message(pid),
{
    let digits = decimal_string(pid as u64);
    let mut s = String::from_str("Processus ");
    s.append(digits.as_str());
    s.append(" terminé");
    s
}

} // verus!

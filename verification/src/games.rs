//! Installed games: Steam app manifests, Epic Games manifests, and the list
//! that the two give, ordered by name.

use vstd::prelude::*;
use crate::text::{
    contains, lemma_contains_transitive, lemma_split_pieces_in_text, lemma_trimmed_in_text,
    chars_le, chars_less, chars_lt, lemma_chars_le_transitive, lemma_chars_lt_total,
    chars_of, parse_u64, parse_unsigned, lines_chars, lines_of, split_chars, split_pieces, starts_with, starts_with_chars,
    string_of, trim_chars, trimmed, views_of,
};

verus! {

/// The value that one manifest line gives for `key`: the line, trimmed, must
/// begin with the key in double quotes, and the value is the fourth piece
/// between double quotes (`"key"\t\t"value"`).
pub open spec fn acf_line_value(line: Seq<char>, key: Seq<char>) -> Option<Seq<char>> {
    let t = trimmed(line);
    let parts = split_pieces(t, '"', None);
    if starts_with(t, seq!['"'] + key + seq!['"']) && parts.len() >= 4 {
        Some(parts[3])
    } else {
        None
    }
}

/// The value of `key` given by the first of `lines` that gives one, or the
/// empty text when none does.
pub open spec fn acf_lines_value(lines: Seq<Seq<char>>, key: Seq<char>) -> Seq<char>
    decreases lines.len(),
{
    if lines.len() == 0 {
        Seq::empty()
    } else {
        match acf_line_value(lines[0], key) {
            Some(v) => v,
            None => acf_lines_value(lines.drop_first(), key),
        }
    }
}

/// The value of `key` in a Steam `.acf` manifest.
pub open spec fn acf_value(content: Seq<char>, key: Seq<char>) -> Seq<char> {
    acf_lines_value(lines_of(content), key)
}

proof fn lemma_acf_lines_value_origin(lines: Seq<Seq<char>>, key: Seq<char>)
    ensures
        !acf_lines_value(lines, key).contains('"'),
        acf_lines_value(lines, key).len() == 0 || exists|i: int|
            0 <= i < lines.len() && starts_with(trimmed(#[trigger] lines[i]), seq!['"'] + key + seq!['"'])
                && contains(lines[i], acf_lines_value(lines, key)),
    decreases lines.len(),
{
    if lines.len() > 0 {
        match acf_line_value(lines[0], key) {
            Some(v) => {
                let t = trimmed(lines[0]);
                let parts = split_pieces(t, '"', None);
                lemma_split_pieces_in_text(t, '"');
                assert(v == parts[3]);
                lemma_trimmed_in_text(lines[0]);
                lemma_contains_transitive(lines[0], t, v);
            },
            None => {
                let rest = lines.drop_first();
                lemma_acf_lines_value_origin(rest, key);
                let v = acf_lines_value(lines, key);
                if v.len() > 0 {
                    let i = choose|i: int|
                        0 <= i < rest.len() && starts_with(trimmed(#[trigger] rest[i]), seq!['"'] + key + seq!['"'])
                            && contains(rest[i], v);
                    assert(lines[i + 1] == rest[i]);
                }
            },
        }
    }
}

/// The value read for a key never holds a double quote, and a value that is
/// not empty comes from a line of the manifest that, trimmed, starts with the
/// key in double quotes, and that holds the value.
pub proof fn law_acf_value_origin(content: Seq<char>, key: Seq<char>)
    ensures
        !acf_value(content, key).contains('"'),
        acf_value(content, key).len() == 0 || exists|i: int|
            0 <= i < lines_of(content).len() && starts_with(
                trimmed(#[trigger] lines_of(content)[i]),
                seq!['"'] + key + seq!['"'],
            ) && contains(lines_of(content)[i], acf_value(content, key)),
{
    lemma_acf_lines_value_origin(lines_of(content), key);
}

/// Reads the value of `key` from the text of a Steam app manifest: the first
/// line that, trimmed, starts with `"key"` and has a fourth quote-delimited
/// piece gives it; the empty string when no line does.
pub fn parse_acf_value(content: &str, key: &str) -> (r: String)
    ensures
        r@ == acf_value(content@, key@),
{
    let cs = chars_of(content);
    let ks = chars_of(key);
    let mut search: Vec<char> = Vec::new();
    search.push('"');
    let kn = ks.len();
    for i in 0..kn
        invariant
            kn == ks@.len(),
            search@ == seq!['"'] + ks@.take(i as int),
    {
        search.push(ks[i]);
        assert(ks@.take(i + 1) == ks@.take(i as int).push(ks@[i as int]));
    }
    search.push('"');
    assert(ks@.take(kn as int) == ks@);
    assert(search@ == seq!['"'] + key@ + seq!['"']);
    let lines = lines_chars(cs.as_slice());
    let ghost ls = lines_of(content@);
    let n = lines.len();
    assert(ls.skip(0) == ls);
    for i in 0..n
        invariant
            n == lines@.len() == ls.len(),
            views_of(lines@) == ls,
            ls == lines_of(content@),
            search@ == seq!['"'] + key@ + seq!['"'],
            acf_lines_value(ls, key@) == acf_lines_value(ls.skip(i as int), key@),
    {
        let ghost rest = ls.skip(i as int);
        assert(rest[0] == ls[i as int]);
        assert(rest.drop_first() == ls.skip(i + 1));
        assert(lines@[i as int]@ == ls[i as int]);
        let t = trim_chars(lines[i].as_slice());
        if starts_with_chars(t.as_slice(), search.as_slice()) {
            let parts = split_chars(t.as_slice(), '"', None);
            if parts.len() >= 4 {
                assert(parts@[3]@ == split_pieces(t@, '"', None)[3]);
                assert(acf_line_value(ls[i as int], key@) == Some(parts@[3]@));
                assert(acf_lines_value(rest, key@) == parts@[3]@);
                return string_of(parts[3].as_slice());
            }
        }
    }
    assert(ls.skip(n as int).len() == 0);
    String::new()
}


/// A game found on disk, with its size in bytes as the manifest gives it.
pub struct InstalledGame {
    pub name: String,
    pub platform: String,
    pub install_path: String,
    pub size_bytes: u64,
}

/// What an `InstalledGame` holds, as text.
pub struct GameRecord {
    pub name: Seq<char>,
    pub platform: Seq<char>,
    pub install_path: Seq<char>,
    pub size_bytes: u64,
}

impl View for InstalledGame {
    type V = GameRecord;

    open spec fn view(&self) -> GameRecord {
        GameRecord {
            name: self.name@,
            platform: self.platform@,
            install_path: self.install_path@,
            size_bytes: self.size_bytes,
        }
    }
}

/// The record of a game that may be absent.
pub open spec fn opt_record(g: Option<InstalledGame>) -> Option<GameRecord> {
    match g {
        Some(g) => Some(g@),
        None => None,
    }
}

/// The records of a sequence of games.
pub open spec fn records(s: Seq<InstalledGame>) -> Seq<GameRecord> {
    Seq::new(s.len(), |i: int| s[i]@)
}

/// The game that a Steam manifest read from the library folder `base`
/// describes: none when its name is empty; installed in `base\installdir`,
/// with the size from `SizeOnDisk` when that is a `u64`, else 0.
pub open spec fn steam_game_record(base: Seq<char>, content: Seq<char>) -> Option<GameRecord> {
    let name = acf_value(content, "name"@);
    if name.len() == 0 {
        None
    } else {
        Some(
            GameRecord {
                name,
                platform: "Steam"@,
                install_path: base + "\\"@ + acf_value(content, "installdir"@),
                size_bytes: match parse_unsigned(acf_value(content, "SizeOnDisk"@), u64::MAX as nat) {
                    Some(v) => v as u64,
                    None => 0,
                },
            },
        )
    }
}

/// The game described by the Steam manifest `content`, found in the library
/// folder `base` (see `steam_game_record`).
pub fn steam_game(base: &str, content: &str) -> (r: Option<InstalledGame>)
    ensures
        opt_record(r) == steam_game_record(base@, content@),
{
    let name = parse_acf_value(content, "name");
    let install_dir = parse_acf_value(content, "installdir");
    let size_text = parse_acf_value(content, "SizeOnDisk");
    let size_bytes = match parse_u64(size_text.as_str()) {
        Some(v) => v,
        None => 0,
    };
    if name.as_str().is_empty() {
        return None;
    }
    let mut install_path = String::from_str(base);
    install_path.append("\\");
    install_path.append(install_dir.as_str());
    Some(InstalledGame { name, platform: String::from_str("Steam"), install_path, size_bytes })
}

/// What `serde_json` reads from the text of an Epic Games manifest: no value
/// when the text is not JSON; else the string under `DisplayName`, the string
/// under `InstallLocation`, and the `u64` under `InstallSize`, each absent when
/// the document has no such member of that type.
pub uninterp spec fn epic_manifest_fields(text: Seq<char>) -> Option<
    (Option<Seq<char>>, Option<Seq<char>>, Option<u64>),
>;

/// Reads the three members of an Epic Games manifest that the game list uses.
///
/// Trusted: the body calls `serde_json::from_str::<serde_json::Value>` and reads
/// the members with `Value`'s indexing, `as_str` and `as_u64`. The contract names
/// the result `epic_manifest_fields` and states nothing more of it.
#[verifier::external_body]
fn read_epic_manifest(text: &str) -> (r: Option<(Option<String>, Option<String>, Option<u64>)>)
    ensures
        r.deep_view() == epic_manifest_fields(text@),
{
    match serde_json::from_str::<serde_json::Value>(text) {
        Ok(json) => Some(
            (
                json["DisplayName"].as_str().map(|s| s.to_string()),
                json["InstallLocation"].as_str().map(|s| s.to_string()),
                json["InstallSize"].as_u64(),
            ),
        ),
        Err(_) => None,
    }
}

/// The game that the members read from an Epic Games manifest describe: none
/// when the manifest did not parse or the display name is missing or empty; a
/// missing location is empty and a missing size is 0.
pub open spec fn epic_game_record(
    fields: Option<(Option<Seq<char>>, Option<Seq<char>>, Option<u64>)>,
) -> Option<GameRecord> {
    match fields {
        None => None,
        Some((name, location, size)) => {
            let name = match name {
                Some(n) => n,
                None => Seq::empty(),
            };
            if name.len() == 0 {
                None
            } else {
                Some(
                    GameRecord {
                        name,
                        platform: "Epic"@,
                        install_path: match location {
                            Some(p) => p,
                            None => Seq::empty(),
                        },
                        size_bytes: match size {
                            Some(s) => s,
                            None => 0,
                        },
                    },
                )
            }
        },
    }
}

/// The game that the members of an Epic Games manifest describe (see
/// `epic_game_record`).
pub fn epic_game(fields: Option<(Option<String>, Option<String>, Option<u64>)>) -> (r: Option<
    InstalledGame,
>)
    ensures
        opt_record(r) == epic_game_record(fields.deep_view()),
{
    match fields {
        None => None,
        Some((name, location, size)) => {
            let name = match name {
                Some(n) => n,
                None => String::new(),
            };
            if name.as_str().is_empty() {
                None
            } else {
                Some(
                    InstalledGame {
                        name,
                        platform: String::from_str("Epic"),
                        install_path: match location {
                            Some(p) => p,
                            None => String::new(),
                        },
                        size_bytes: match size {
                            Some(s) => s,
                            None => 0,
                        },
                    },
                )
            }
        },
    }
}

/// The game described by the text of an Epic Games manifest.
pub fn epic_game_from_manifest(text: &str) -> (r: Option<InstalledGame>)
    ensures
        opt_record(r) == epic_game_record(epic_manifest_fields(text@)),
{
    epic_game(read_epic_manifest(text))
}


/// `g` placed into `sorted` after every game whose name does not come after
/// its own: one step of a stable sort by name.
pub open spec fn insert_by_name(sorted: Seq<GameRecord>, g: GameRecord) -> Seq<GameRecord>
    decreases sorted.len(),
{
    if sorted.len() == 0 {
        seq![g]
    } else if chars_lt(g.name, sorted.last().name) {
        insert_by_name(sorted.drop_last(), g).push(sorted.last())
    } else {
        sorted.push(g)
    }
}

/// `s` sorted by name, games of equal names in their order in `s`: what the
/// stable `sort_by` on `name.cmp` gives.
pub open spec fn sort_by_name(s: Seq<GameRecord>) -> Seq<GameRecord>
    decreases s.len(),
{
    if s.len() == 0 {
        s
    } else {
        insert_by_name(sort_by_name(s.drop_last()), s.last())
    }
}

/// No name comes after a name later in the sequence.
pub open spec fn sorted_by_name(s: Seq<GameRecord>) -> bool {
    forall|i: int, j: int| 0 <= i < j < s.len() ==> chars_le(#[trigger] s[i].name, #[trigger] s[j].name)
}

proof fn lemma_insert_at(s: Seq<GameRecord>, g: GameRecord, j: int)
    requires
        0 <= j <= s.len(),
        forall|k: int| j <= k < s.len() ==> chars_lt(g.name, #[trigger] s[k].name),
        j == 0 || !chars_lt(g.name, s[j - 1].name),
    ensures
        insert_by_name(s, g) == s.insert(j, g),
    decreases s.len(),
{
    if s.len() == j {
        assert(s.insert(j, g) =~= s.push(g));
    } else {
        lemma_insert_at(s.drop_last(), g, j);
        assert(s.drop_last().insert(j, g).push(s.last()) =~= s.insert(j, g));
    }
}

proof fn lemma_insert_by_name_multiset(s: Seq<GameRecord>, g: GameRecord)
    ensures
        insert_by_name(s, g).to_multiset() == s.to_multiset().insert(g),
    decreases s.len(),
{
    broadcast use vstd::seq_lib::group_to_multiset_ensures;

    if s.len() > 0 && chars_lt(g.name, s.last().name) {
        lemma_insert_by_name_multiset(s.drop_last(), g);
        assert(s == s.drop_last().push(s.last()));
    }
}

proof fn lemma_insert_by_name_sorted(s: Seq<GameRecord>, g: GameRecord)
    requires
        sorted_by_name(s),
    ensures
        sorted_by_name(insert_by_name(s, g)),
    decreases s.len(),
{
    broadcast use vstd::seq_lib::group_to_multiset_ensures;

    if s.len() == 0 {
    } else if chars_lt(g.name, s.last().name) {
        let t = insert_by_name(s.drop_last(), g);
        lemma_insert_by_name_sorted(s.drop_last(), g);
        lemma_insert_by_name_multiset(s.drop_last(), g);
        assert forall|i: int| 0 <= i < t.len() implies chars_le(#[trigger] t[i].name, s.last().name) by {
            assert(t.to_multiset().count(t[i]) > 0);
            if t[i] != g {
                assert(s.drop_last().contains(t[i]));
                let k = choose|k: int| 0 <= k < s.drop_last().len() && s.drop_last()[k] == t[i];
                assert(s[k] == t[i]);
            } else {
                lemma_chars_lt_total(g.name, s.last().name);
            }
        }
        let u = t.push(s.last());
        assert forall|i: int, j: int| 0 <= i < j < u.len() implies chars_le(
            #[trigger] u[i].name,
            #[trigger] u[j].name,
        ) by {
            if j == u.len() - 1 {
                assert(u[i] == t[i]);
            } else {
                assert(u[i] == t[i] && u[j] == t[j]);
            }
        }
    } else {
        let u = s.push(g);
        assert forall|i: int, j: int| 0 <= i < j < u.len() implies chars_le(
            #[trigger] u[i].name,
            #[trigger] u[j].name,
        ) by {
            if j == u.len() - 1 {
                if i < s.len() - 1 {
                    lemma_chars_le_transitive(s[i].name, s.last().name, g.name);
                }
            }
        }
    }
}

/// Sorting by name orders the games by name and keeps every game, each as often
/// as it occurs.
pub proof fn lemma_sort_by_name(s: Seq<GameRecord>)
    ensures
        sorted_by_name(sort_by_name(s)),
        sort_by_name(s).to_multiset() == s.to_multiset(),
    decreases s.len(),
{
    broadcast use vstd::seq_lib::group_to_multiset_ensures;

    if s.len() > 0 {
        lemma_sort_by_name(s.drop_last());
        lemma_insert_by_name_sorted(sort_by_name(s.drop_last()), s.last());
        lemma_insert_by_name_multiset(sort_by_name(s.drop_last()), s.last());
        assert(s == s.drop_last().push(s.last()));
    }
}

/// Whether the name of `a` comes before the name of `b`.
fn name_before(a: &InstalledGame, b: &InstalledGame) -> (r: bool)
    ensures
        r == chars_lt(a.name@, b.name@),
{
    let x = chars_of(a.name.as_str());
    let y = chars_of(b.name.as_str());
    chars_less(x.as_slice(), y.as_slice())
}

/// Sorts games by name, games of equal names kept in their order (see
/// `sort_by_name`): the result is ordered by name and holds the same games.
pub fn sort_games_by_name(games: Vec<InstalledGame>) -> (r: Vec<InstalledGame>)
    ensures
        records(r@) == sort_by_name(records(games@)),
        sorted_by_name(records(r@)),
        records(r@).to_multiset() == records(games@).to_multiset(),
{
    let ghost all = records(games@);
    let mut rest = games;
    let mut r: Vec<InstalledGame> = Vec::new();
    let n = rest.len();
    let mut k: usize = 0;
    while k < n
        invariant
            k <= n == all.len(),
            records(rest@) == all.skip(k as int),
            records(r@) == sort_by_name(all.take(k as int)),
        decreases n - k,
    {
        assert(records(rest@).len() == rest@.len());
        assert(records(rest@)[0] == rest@[0]@);
        assert(all.skip(k as int)[0] == all[k as int]);
        let ghost old_rest = rest@;
        let g = rest.remove(0);
        assert(g@ == all[k as int]);
        assert forall|i: int| 0 <= i < rest@.len() implies #[trigger] records(rest@)[i] == all.skip(
            k + 1,
        )[i] by {
            assert(rest@[i] == old_rest[i + 1]);
            assert(records(old_rest)[i + 1] == all.skip(k as int)[i + 1]);
        }
        assert(records(rest@) =~= all.skip(k + 1));
        let ghost before = records(r@);
        let mut j = r.len();
        while j > 0 && name_before(&g, &r[j - 1])
            invariant
                j <= r@.len(),
                records(r@) == before,
                forall|i: int| j <= i < before.len() ==> chars_lt(g@.name, #[trigger] before[i].name),
            decreases j,
        {
            j -= 1;
        }
        proof {
            lemma_insert_at(before, g@, j as int);
            assert(all.take(k + 1).drop_last() == all.take(k as int));
        }
        r.insert(j, g);
        assert(records(r@) =~= before.insert(j as int, all[k as int]));
        k += 1;
    }
    assert(all.take(n as int) == all);
    proof {
        lemma_sort_by_name(all);
    }
    r
}


/// The one game that may be present, as a sequence.
pub open spec fn present(g: Option<GameRecord>) -> Seq<GameRecord> {
    match g {
        Some(g) => seq![g],
        None => Seq::empty(),
    }
}

/// The games that Steam manifests describe, each manifest given with the
/// library folder it was read from, in the order of the manifests.
pub open spec fn steam_records(manifests: Seq<(Seq<char>, Seq<char>)>) -> Seq<GameRecord>
    decreases manifests.len(),
{
    if manifests.len() == 0 {
        Seq::empty()
    } else {
        steam_records(manifests.drop_last()) + present(
            steam_game_record(manifests.last().0, manifests.last().1),
        )
    }
}

/// The games that Epic Games manifests describe, in the order of the manifests.
pub open spec fn epic_records(manifests: Seq<Seq<char>>) -> Seq<GameRecord>
    decreases manifests.len(),
{
    if manifests.len() == 0 {
        Seq::empty()
    } else {
        epic_records(manifests.drop_last()) + present(
            epic_game_record(epic_manifest_fields(manifests.last())),
        )
    }
}

/// The list of installed games: the Steam games, then the Epic games, sorted by
/// name.
pub open spec fn installed_games_list(
    steam: Seq<(Seq<char>, Seq<char>)>,
    epic: Seq<Seq<char>>,
) -> Seq<GameRecord> {
    sort_by_name(steam_records(steam) + epic_records(epic))
}

/// The installed games that the given manifests describe: the Steam manifests
/// as (library folder, manifest text) pairs and the Epic Games manifests as
/// texts, each in the order they were read; the result is sorted by name.
pub fn installed_games(steam: &Vec<(String, String)>, epic: &Vec<String>) -> (r: Vec<InstalledGame>)
    ensures
        records(r@) == installed_games_list(steam.deep_view(), epic.deep_view()),
        sorted_by_name(records(r@)),
{
    let ghost sv = steam.deep_view();
    let ghost ev = epic.deep_view();
    let mut found: Vec<InstalledGame> = Vec::new();
    let n = steam.len();
    for i in 0..n
        invariant
            n == steam@.len() == sv.len(),
            sv == steam.deep_view(),
            records(found@) == steam_records(sv.take(i as int)),
    {
        let (base, content) = &steam[i];
        assert(sv[i as int] == (base@, content@));
        assert(sv.take(i + 1).drop_last() == sv.take(i as int));
        let ghost before = records(found@);
        match steam_game(base.as_str(), content.as_str()) {
            Some(g) => {
                found.push(g);
                assert(records(found@) =~= before + present(steam_game_record(base@, content@)));
            },
            None => {
                assert(records(found@) =~= before + present(steam_game_record(base@, content@)));
            },
        }
    }
    assert(sv.take(n as int) == sv);
    let ghost from_steam = records(found@);
    let m = epic.len();
    for i in 0..m
        invariant
            m == epic@.len() == ev.len(),
            ev == epic.deep_view(),
            from_steam == steam_records(sv),
            records(found@) == from_steam + epic_records(ev.take(i as int)),
    {
        assert(ev[i as int] == epic@[i as int]@);
        assert(ev.take(i + 1).drop_last() == ev.take(i as int));
        let ghost before = records(found@);
        match epic_game_from_manifest(epic[i].as_str()) {
            Some(g) => {
                found.push(g);
                assert(records(found@) =~= before + present(
                    epic_game_record(epic_manifest_fields(ev[i as int])),
                ));
            },
            None => {
                assert(records(found@) =~= before + present(
                    epic_game_record(epic_manifest_fields(ev[i as int])),
                ));
            },
        }
    }
    assert(ev.take(m as int) == ev);
    sort_games_by_name(found)
}

} // verus!

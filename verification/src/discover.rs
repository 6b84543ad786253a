//! The Discover seed field: a numeric AppID or the name of a library game.

use crate::insights;
use crate::library::{self, GameFacts, GameView};
use crate::text;
use vstd::prelude::*;

verus! {

/// The code of a character with ASCII capitals folded to lowercase.
pub open spec fn ascii_folded(c: char) -> u32 {
    let u = c as u32;
    if 65 <= u <= 90 {
        (u + 32) as u32
    } else {
        u
    }
}

/// Equality up to ASCII case, as `str::eq_ignore_ascii_case` decides it.
pub open spec fn eq_ignore_ascii_case(a: Seq<char>, b: Seq<char>) -> bool {
    a.len() == b.len() && forall|i: int| 0 <= i < a.len() ==> ascii_folded(a[i]) == ascii_folded(#[trigger] b[i])
}

fn ascii_folded_exec(c: char) -> (r: u32)
    ensures
        r == ascii_folded(c),
{
    let u = c as u32;
    if 65 <= u && u <= 90 {
        u + 32
    } else {
        u
    }
}

fn same_ignoring_ascii_case(a: &Vec<char>, b: &Vec<char>) -> (r: bool)
    ensures
        r == eq_ignore_ascii_case(a@, b@),
{
    if a.len() != b.len() {
        return false;
    }
    let mut i: usize = 0;
    while i < a.len()
        invariant
            i <= a.len() == b.len(),
            forall|k: int| 0 <= k < i ==> ascii_folded(a@[k]) == ascii_folded(#[trigger] b@[k]),
        decreases a.len() - i,
    {
        if ascii_folded_exec(a[i]) != ascii_folded_exec(b[i]) {
            return false;
        }
        i = i + 1;
    }
    true
}

/// Games whose lowercase name contains `query`.
pub open spec fn name_contains(query: Seq<char>) -> spec_fn(GameView) -> bool {
    |g: GameView| text::has_substring(text::lowercase_of(g.name), query)
}

/// The message when no game name matches the seed.
pub open spec fn no_match_message(raw: Seq<char>) -> Seq<char> {
    "No library game matches “"@ + raw + "”. Try a fuller name or AppID."@
}

/// The message when several game names match the seed.
pub open spec fn many_matches_message(count: nat, raw: Seq<char>) -> Seq<char> {
    text::decimal(count) + " games match “"@ + raw + "”. Use a fuller name or AppID."@
}

/// Whether `r` is how the Discover seed `seed` resolves against the games
/// `gs`: blank means no seed; a whole number is an AppID; otherwise the
/// first game whose name equals the seed up to ASCII case, else the only
/// game whose lowercase name contains the lowercase seed. No match, or
/// several, is an error naming the seed.
pub open spec fn seed_resolution(
    seed: Seq<char>,
    gs: Seq<GameView>,
    r: Result<Option<u32>, Seq<char>>,
) -> bool {
    let raw = text::trimmed(seed);
    let query = text::lowercase_of(raw);
    let n = insights::count_if(gs, name_contains(query));
    if raw.len() == 0 {
        r == Ok::<Option<u32>, Seq<char>>(None)
    } else if text::parse_u32_spec(raw) is Some {
        r == Ok::<Option<u32>, Seq<char>>(Some(text::parse_u32_spec(raw).unwrap()))
    } else if exists|i: int| 0 <= i < gs.len() && eq_ignore_ascii_case(#[trigger] gs[i].name, raw) {
        exists|i: int|
            0 <= i < gs.len() && eq_ignore_ascii_case(#[trigger] gs[i].name, raw) && (forall|j: int|
                0 <= j < i ==> !eq_ignore_ascii_case(#[trigger] gs[j].name, raw)) && r == Ok::<
                Option<u32>,
                Seq<char>,
            >(Some(gs[i].app_id))
    } else if n == 1 {
        exists|i: int|
            0 <= i < gs.len() && name_contains(query)(#[trigger] gs[i]) && r == Ok::<
                Option<u32>,
                Seq<char>,
            >(Some(gs[i].app_id))
    } else if n == 0 {
        r == Err::<Option<u32>, Seq<char>>(no_match_message(raw))
    } else {
        r == Err::<Option<u32>, Seq<char>>(many_matches_message(n, raw))
    }
}

/// A result with its error message taken as characters.
pub open spec fn outcome<T>(r: Result<T, String>) -> Result<T, Seq<char>> {
    match r {
        Ok(v) => Ok(v),
        Err(m) => Err(m@),
    }
}

/// Resolves the Discover seed against the library (see `seed_resolution`).
pub fn resolve_discover_seed(seed: &str, games: &Vec<GameFacts>) -> (r: Result<Option<u32>, String>)
    ensures
        seed_resolution(seed@, library::games_view(games@), outcome(r)),
{
    let raw_chars = text::trim_chars(&text::chars_of(seed));
    let ghost raw = raw_chars@;
    let ghost gs = library::games_view(games@);
    if raw_chars.len() == 0 {
        return Ok(None);
    }
    match text::parse_u32(&raw_chars) {
        Some(id) => {
            return Ok(Some(id));
        },
        None => {},
    }
    let mut i: usize = 0;
    while i < games.len()
        invariant
            i <= games.len(),
            gs == library::games_view(games@),
            raw == raw_chars@,
            raw == text::trimmed(seed@),
            raw.len() > 0,
            text::parse_u32_spec(raw) is None,
            forall|j: int| 0 <= j < i ==> !eq_ignore_ascii_case(#[trigger] gs[j].name, raw),
        decreases games.len() - i,
    {
        let name = text::chars_of(games[i].name.as_str());
        if same_ignoring_ascii_case(&name, &raw_chars) {
            assert(eq_ignore_ascii_case(gs[i as int].name, raw));
            assert(gs[i as int].app_id == games@[i as int].app_id);
            let r: Result<Option<u32>, String> = Ok(Some(games[i].app_id));
            assert(0 <= i < gs.len() && eq_ignore_ascii_case(gs[i as int].name, raw) && (forall|j: int|
                0 <= j < i ==> !eq_ignore_ascii_case(#[trigger] gs[j].name, raw)) && outcome(r) == Ok::<
                Option<u32>,
                Seq<char>,
            >(Some(gs[i as int].app_id)));
            return r;
        }
        i = i + 1;
    }
    let raw_string = text::string_of(&raw_chars);
    let query = text::chars_of(text::to_lowercase(raw_string.as_str()).as_str());
    let ghost pred = name_contains(query@);
    let mut count: usize = 0;
    let mut found: usize = 0;
    let mut k: usize = 0;
    while k < games.len()
        invariant
            k <= games.len(),
            gs == library::games_view(games@),
            pred == name_contains(query@),
            count == insights::count_if(gs.take(k as int), pred),
            count <= k,
            count > 0 ==> found < games.len() && pred(gs[found as int]),
        decreases games.len() - k,
    {
        let ghost prefix = gs.take(k + 1);
        assert(prefix.drop_last() =~= gs.take(k as int));
        assert(prefix.last() == gs[k as int]);
        let name = text::chars_of(text::to_lowercase(games[k].name.as_str()).as_str());
        if text::contains_chars(&name, &query) {
            if count == 0 {
                found = k;
            }
            count = count + 1;
        }
        k = k + 1;
    }
    assert(gs.take(games.len() as int) =~= gs);
    if count == 1 {
        assert(pred(gs[found as int]));
        return Ok(Some(games[found].app_id));
    }
    if count == 0 {
        let mut m = String::from_str("No library game matches “");
        m.append(raw_string.as_str());
        m.append("”. Try a fuller name or AppID.");
        return Err(m);
    }
    let mut m = String::new();
    text::push_decimal(&mut m, count as u64);
    m.append(" games match “");
    m.append(raw_string.as_str());
    m.append("”. Use a fuller name or AppID.");
    Err(m)
}

} // verus!

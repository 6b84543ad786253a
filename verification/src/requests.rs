//! The Recommend and Discover requests built from their form fields.

use crate::captions::{self, parse_optional, parse_required, parse_required_count};
use crate::discover::{self, resolve_discover_seed};
use crate::library::{self, GameFacts};
use crate::rules;
use crate::text;
use vstd::prelude::*;

verus! {

/// What the Recommend form asks for.
pub struct RecommendRequest {
    pub available_minutes: u32,
    pub count: usize,
    pub deck_mode: bool,
    pub include_installed_only: bool,
    pub seed: Option<u32>,
    pub exclude_collections: Vec<String>,
}

/// The value of a required whole-number field, or its error message.
pub open spec fn required_field(label: Seq<char>, input: Seq<char>) -> Result<u32, Seq<char>> {
    match text::parse_u32_spec(text::trimmed(input)) {
        Some(v) => Ok(v),
        None => Err(captions::whole_number_message(label)),
    }
}

/// The value of a required count field, or its error message.
pub open spec fn required_count(label: Seq<char>, input: Seq<char>) -> Result<usize, Seq<char>> {
    match text::parse_usize_spec(text::trimmed(input)) {
        Some(v) => Ok(v),
        None => Err(captions::whole_number_message(label)),
    }
}

/// The value of an optional whole-number field (blank gives `None`), or
/// its error message.
pub open spec fn optional_field(label: Seq<char>, input: Seq<char>) -> Result<
    Option<u32>,
    Seq<char>,
> {
    if text::trimmed(input).len() == 0 {
        Ok(None)
    } else {
        match text::parse_u32_spec(text::trimmed(input)) {
            Some(v) => Ok(Some(v)),
            None => Err(captions::whole_number_message(label)),
        }
    }
}

/// Builds the Recommend request from its fields, checked in order:
/// available minutes, count, then the optional seed. The first field that
/// is not a whole number gives the error.
pub fn recommend_request_from_inputs(
    minutes: &str,
    count: &str,
    deck_mode: bool,
    installed_only: bool,
    seed: &str,
    exclude_collections: &Vec<String>,
) -> (r: Result<RecommendRequest, String>)
    ensures
        required_field("Available minutes"@, minutes@) is Err ==> r is Err && r->Err_0@
            == required_field("Available minutes"@, minutes@)->Err_0,
        required_field("Available minutes"@, minutes@) is Ok && required_count("Count"@, count@)
            is Err ==> r is Err && r->Err_0@ == required_count("Count"@, count@)->Err_0,
        required_field("Available minutes"@, minutes@) is Ok && required_count("Count"@, count@)
            is Ok && optional_field("Seed"@, seed@) is Err ==> r is Err && r->Err_0@
            == optional_field("Seed"@, seed@)->Err_0,
        required_field("Available minutes"@, minutes@) is Ok && required_count("Count"@, count@)
            is Ok && optional_field("Seed"@, seed@) is Ok ==> r is Ok && r->Ok_0.available_minutes
            == required_field("Available minutes"@, minutes@)->Ok_0 && r->Ok_0.count
            == required_count("Count"@, count@)->Ok_0 && r->Ok_0.deck_mode == deck_mode
            && r->Ok_0.include_installed_only == installed_only && r->Ok_0.seed == optional_field(
            "Seed"@,
            seed@,
        )->Ok_0 && library::strings_view(r->Ok_0.exclude_collections@) == library::strings_view(
            exclude_collections@,
        ),
{
    let available_minutes = match parse_required("Available minutes", minutes) {
        Ok(v) => v,
        Err(e) => {
            return Err(e);
        },
    };
    let count = match parse_required_count("Count", count) {
        Ok(v) => v,
        Err(e) => {
            return Err(e);
        },
    };
    let seed = match parse_optional("Seed", seed) {
        Ok(v) => v,
        Err(e) => {
            return Err(e);
        },
    };
    Ok(RecommendRequest {
        available_minutes,
        count,
        deck_mode,
        include_installed_only: installed_only,
        seed,
        exclude_collections: library::clone_strings(exclude_collections),
    })
}

/// What the Discover form asks for.
pub struct DiscoverOptions {
    pub seed_app_id: Option<u32>,
    pub count: usize,
}

/// Builds the Discover options: the seed is resolved first (a blank seed
/// means none; an unresolvable one gives its error), then the count field
/// must be a whole number.
pub fn discover_options_from_inputs(seed: &str, games: &Vec<GameFacts>, count: &str) -> (r: Result<
    DiscoverOptions,
    String,
>)
    ensures
        ({
            let gs = library::games_view(games@);
            let c = required_count("Discover count"@, count@);
            match r {
                Ok(o) => discover::seed_resolution(seed@, gs, Ok(o.seed_app_id)) && c == Ok::<
                    usize,
                    Seq<char>,
                >(o.count),
                Err(e) => discover::seed_resolution(seed@, gs, Err(e@)) || (exists|s: Option<u32>|
                    discover::seed_resolution(seed@, gs, Ok(s))) && c == Err::<usize, Seq<char>>(e@),
            }
        }),
{
    let seed_app_id = match resolve_discover_seed(seed, games) {
        Ok(s) => s,
        Err(e) => {
            return Err(e);
        },
    };
    let count = match parse_required_count("Discover count", count) {
        Ok(v) => v,
        Err(e) => {
            return Err(e);
        },
    };
    Ok(DiscoverOptions { seed_app_id, count })
}


/// The Recommend minutes field after "−30": the minutes (120 when the
/// field is not a whole number) less 30, never below 15.
pub fn recommend_minutes_minus(minutes: &str) -> (s: String)
    ensures
        s@ == text::decimal(
            (if rules::number_or(minutes@, 120) >= 45 {
                rules::number_or(minutes@, 120) - 30
            } else {
                15
            }) as nat,
        ),
{
    let n = match text::parse_u32(&text::chars_of(minutes)) {
        Some(v) => v,
        None => 120,
    };
    let m: u32 = if n >= 45 {
        n - 30
    } else {
        15
    };
    text::decimal_string(m as u64)
}

/// The Recommend minutes field after "+30": the minutes (120 when the
/// field is not a whole number) plus 30.
pub fn recommend_minutes_plus(minutes: &str) -> (s: String)
    requires
        rules::number_or(minutes@, 120) + 30 <= u32::MAX,
    ensures
        s@ == text::decimal((rules::number_or(minutes@, 120) + 30) as nat),
{
    let n = match text::parse_u32(&text::chars_of(minutes)) {
        Some(v) => v,
        None => 120,
    };
    text::decimal_string((n + 30) as u64)
}

} // verus!

//! What a Library game card shows: its primary badge, the Deck badge, the
//! detail line and the placeholder artwork colours.

use crate::captions;
use crate::library::{ControllerSupport, GameFacts, GameView};
use crate::navigation;
use crate::text;
use crate::theme::{self, Rgb, ThemeMode, Tokens};
use vstd::prelude::*;

verus! {

/// The primary badge of a card: label, fill and text colour. Junk wins over
/// hidden, hidden over installed; other games are plain library entries.
pub open spec fn primary_badge(g: GameView, t: Tokens) -> (Seq<char>, Rgb, Rgb) {
    if g.is_junk {
        ("Junk"@, t.error_soft, t.error)
    } else if g.is_hidden {
        ("Hidden"@, t.surface_muted, t.text_secondary)
    } else if g.installed {
        ("Installed"@, t.success_soft, t.success)
    } else {
        ("Library"@, t.accent_soft, t.accent)
    }
}

/// The primary badge of a game card in the given theme.
pub fn game_primary_badge(game: &GameFacts, mode: ThemeMode) -> (r: (&'static str, Rgb, Rgb))
    ensures
        (r.0@, r.1, r.2) == primary_badge(game@, theme::spec_tokens_for(mode)),
{
    let t = match mode {
        ThemeMode::Dark => Tokens::dark(),
        ThemeMode::Light => Tokens::light(),
    };
    if game.is_junk {
        ("Junk", t.error_soft, t.error)
    } else if game.is_hidden {
        ("Hidden", t.surface_muted, t.text_secondary)
    } else if game.installed {
        ("Installed", t.success_soft, t.success)
    } else {
        ("Library", t.accent_soft, t.accent)
    }
}

/// The Deck badge shows when PCGamingWiki reports full controller support.
pub fn game_shows_deck_badge(game: &GameFacts) -> (b: bool)
    ensures
        b == (game@.controller_support == Some(ControllerSupport::Full)),
{
    match game.controller_support {
        Some(ControllerSupport::Full) => true,
        _ => false,
    }
}

/// `parts` joined with `sep` between consecutive parts.
pub open spec fn joined(parts: Seq<Seq<char>>, sep: Seq<char>) -> Seq<char>
    decreases parts.len(),
{
    if parts.len() == 0 {
        Seq::empty()
    } else if parts.len() == 1 {
        parts[0]
    } else {
        joined(parts.drop_last(), sep) + sep + parts.last()
    }
}

/// The strings of `parts` joined with `sep`.
pub fn join_strings(parts: &Vec<String>, sep: &str) -> (s: String)
    ensures
        s@ == joined(parts@.map_values(|p: String| p@), sep@),
{
    let ghost views = parts@.map_values(|p: String| p@);
    let mut s = String::new();
    let mut i: usize = 0;
    while i < parts.len()
        invariant
            i <= parts.len(),
            views == parts@.map_values(|p: String| p@),
            s@ == joined(views.take(i as int), sep@),
        decreases parts.len() - i,
    {
        if i > 0 {
            s.append(sep);
        }
        s.append(parts[i].as_str());
        proof {
            let next = views.take(i + 1);
            assert(next.drop_last() =~= views.take(i as int));
            assert(next.last() == parts@[i as int]@);
            if i == 0 {
                assert(views.take(0).len() == 0);
            }
        }
        i = i + 1;
        assert(s@ =~= joined(views.take(i as int), sep@));
    }
    assert(views.take(parts.len() as int) =~= views);
    s
}

/// The metadata parts of a card, in order: ProtonDB tier, HowLongToBeat
/// main story, the rating label when there is one, and the first IGDB genre
/// (or else the first RAWG genre).
pub open spec fn metadata_parts(g: GameView, rating_label: Option<Seq<char>>) -> Seq<Seq<char>> {
    let tier = match g.proton_tier {
        Some(t) => seq![navigation::proton_tier_text(t)],
        None => Seq::empty(),
    };
    let hltb = match g.hltb_main_story_seconds {
        Some(s) => seq![captions::hltb_text(s as nat)],
        None => Seq::empty(),
    };
    let rating = match rating_label {
        Some(r) => seq![r],
        None => Seq::empty(),
    };
    let genre = if g.igdb_genres.len() > 0 {
        seq![g.igdb_genres[0]]
    } else if g.rawg_genres.len() > 0 {
        seq![g.rawg_genres[0]]
    } else {
        Seq::empty()
    };
    tier + hltb + rating + genre
}

/// The metadata line of a card, parts separated by " | " (empty when
/// nothing is known). `rating_label` is the game's rating as shown, such as
/// "4.0/5", when it has one.
pub fn game_metadata_summary(game: &GameFacts, rating_label: Option<&str>) -> (s: String)
    ensures
        s@ == joined(
            metadata_parts(
                game@,
                match rating_label {
                    Some(r) => Some(r@),
                    None => None,
                },
            ),
            " | "@,
        ),
{
    let ghost rl = match rating_label {
        Some(r) => Some(r@),
        None => None,
    };
    let mut parts: Vec<String> = Vec::new();
    match game.proton_tier {
        Some(t) => parts.push(String::from_str(navigation::proton_tier_label(t))),
        None => {},
    }
    match game.hltb_main_story_seconds {
        Some(secs) => parts.push(captions::format_hltb_seconds(secs)),
        None => {},
    }
    match rating_label {
        Some(r) => parts.push(String::from_str(r)),
        None => {},
    }
    if game.igdb_genres.len() > 0 {
        parts.push(game.igdb_genres[0].clone());
    } else if game.rawg_genres.len() > 0 {
        parts.push(game.rawg_genres[0].clone());
    }
    assert(parts@.map_values(|p: String| p@) =~= metadata_parts(game@, rl));
    join_strings(&parts, " | ")
}

/// The detail line of a card: the metadata line when there is one, else
/// the number of Steam collections, else whether the game is ready to play.
pub open spec fn card_detail_text(g: GameView, metadata: Seq<char>) -> Seq<char> {
    if metadata.len() > 0 {
        metadata
    } else if g.collection_count > 0 {
        text::decimal(g.collection_count as nat) + " collection(s)"@
    } else if g.installed {
        "Ready to play"@
    } else {
        "In your Steam library"@
    }
}

/// The detail line of a game card.
pub fn game_card_detail(game: &GameFacts, rating_label: Option<&str>) -> (s: String)
    ensures
        s@ == card_detail_text(
            game@,
            joined(
                metadata_parts(
                    game@,
                    match rating_label {
                        Some(r) => Some(r@),
                        None => None,
                    },
                ),
                " | "@,
            ),
        ),
{
    let metadata = game_metadata_summary(game, rating_label);
    if !metadata.as_str().is_empty() {
        return metadata;
    }
    if game.collection_count > 0 {
        let mut s = String::new();
        text::push_decimal(&mut s, game.collection_count as u64);
        s.append(" collection(s)");
        return s;
    }
    if game.installed {
        String::from_str("Ready to play")
    } else {
        String::from_str("In your Steam library")
    }
}

/// The placeholder artwork colour pairs (top block, bottom block).
pub open spec fn spec_artwork_palette() -> Seq<(Rgb, Rgb)> {
    seq![
        (Rgb { r: 0x4C, g: 0x6E, b: 0xF0 }, Rgb { r: 0x2A, g: 0x4A, b: 0xC0 }),
        (Rgb { r: 0xE1, g: 0x70, b: 0x55 }, Rgb { r: 0xB5, g: 0x4A, b: 0x35 }),
        (Rgb { r: 0x2E, g: 0xC4, b: 0xB6 }, Rgb { r: 0x1A, g: 0x9A, b: 0x8E }),
        (Rgb { r: 0xF4, g: 0xC4, b: 0x30 }, Rgb { r: 0xC0, g: 0x98, b: 0x18 }),
        (Rgb { r: 0x9B, g: 0x59, b: 0xB6 }, Rgb { r: 0x72, g: 0x3C, b: 0x8A }),
        (Rgb { r: 0x34, g: 0x98, b: 0xDB }, Rgb { r: 0x21, g: 0x70, b: 0xA8 }),
        (Rgb { r: 0xE6, g: 0x7E, b: 0x22 }, Rgb { r: 0xB0, g: 0x5C, b: 0x12 }),
        (Rgb { r: 0x1A, g: 0xBC, b: 0x9C }, Rgb { r: 0x12, g: 0x8E, b: 0x76 }),
    ]
}

/// The placeholder artwork colour pairs, one per palette slot.
pub fn artwork_palette() -> (p: [(Rgb, Rgb); 8])
    ensures
        p@ == spec_artwork_palette(),
{
    let p = [
        (Rgb::from_rgb(0x4C, 0x6E, 0xF0), Rgb::from_rgb(0x2A, 0x4A, 0xC0)),
        (Rgb::from_rgb(0xE1, 0x70, 0x55), Rgb::from_rgb(0xB5, 0x4A, 0x35)),
        (Rgb::from_rgb(0x2E, 0xC4, 0xB6), Rgb::from_rgb(0x1A, 0x9A, 0x8E)),
        (Rgb::from_rgb(0xF4, 0xC4, 0x30), Rgb::from_rgb(0xC0, 0x98, 0x18)),
        (Rgb::from_rgb(0x9B, 0x59, 0xB6), Rgb::from_rgb(0x72, 0x3C, 0x8A)),
        (Rgb::from_rgb(0x34, 0x98, 0xDB), Rgb::from_rgb(0x21, 0x70, 0xA8)),
        (Rgb::from_rgb(0xE6, 0x7E, 0x22), Rgb::from_rgb(0xB0, 0x5C, 0x12)),
        (Rgb::from_rgb(0x1A, 0xBC, 0x9C), Rgb::from_rgb(0x12, 0x8E, 0x76)),
    ];
    assert(p@ =~= spec_artwork_palette());
    p
}

/// The placeholder colours of an app: the palette slot its id selects.
pub fn artwork_for(app_id: u32) -> (c: (Rgb, Rgb))
    ensures
        c == spec_artwork_palette()[(app_id % 8) as int],
{
    let p = artwork_palette();
    p[(app_id % 8) as usize]
}

/// Adjacent app ids get different placeholder colours.
pub proof fn lemma_adjacent_ids_differ(app_id: u32)
    requires
        app_id < u32::MAX,
    ensures
        spec_artwork_palette()[(app_id % 8) as int] != spec_artwork_palette()[((app_id + 1)
            % 8) as int],
{
    let p = spec_artwork_palette();
    assert(p[0] != p[1] && p[1] != p[2] && p[2] != p[3] && p[3] != p[4] && p[4] != p[5] && p[5]
        != p[6] && p[6] != p[7] && p[7] != p[0]);
}

/// Joining non-empty parts ends with the last part.
proof fn lemma_joined_ends_with_last(parts: Seq<Seq<char>>, sep: Seq<char>)
    requires
        parts.len() > 0,
    ensures
        ({
            let s = joined(parts, sep);
            let l = parts.last();
            s.len() >= l.len() && s.subrange(s.len() - l.len(), s.len() as int) == l
        }),
{
    let s = joined(parts, sep);
    let l = parts.last();
    if parts.len() == 1 {
        assert(s.subrange(0, s.len() as int) =~= l);
    } else {
        let p = joined(parts.drop_last(), sep) + sep;
        assert(s == p + l);
        assert(s.subrange(p.len() as int, s.len() as int) =~= l);
    }
}

/// The genre shown on a card is the game's first genre: its first IGDB
/// genre when IGDB has one, else its first RAWG genre. The metadata line
/// then ends with that genre.
pub proof fn lemma_summary_ends_with_genre(g: GameView, rating_label: Option<Seq<char>>)
    requires
        g.igdb_genres.len() > 0 || g.rawg_genres.len() > 0,
    ensures
        ({
            let s = joined(metadata_parts(g, rating_label), " | "@);
            let genre = if g.igdb_genres.len() > 0 {
                g.igdb_genres[0]
            } else {
                g.rawg_genres[0]
            };
            s.len() >= genre.len() && s.subrange(s.len() - genre.len(), s.len() as int) == genre
        }),
{
    let parts = metadata_parts(g, rating_label);
    assert(parts.len() > 0);
    assert(parts.last() == if g.igdb_genres.len() > 0 {
        g.igdb_genres[0]
    } else {
        g.rawg_genres[0]
    });
    lemma_joined_ends_with_last(parts, " | "@);
}

/// Joining non-empty parts starts with the first part.
proof fn lemma_joined_starts_with_first(parts: Seq<Seq<char>>, sep: Seq<char>)
    requires
        parts.len() > 0,
    ensures
        joined(parts, sep).len() >= parts[0].len(),
        joined(parts, sep).subrange(0, parts[0].len() as int) == parts[0],
    decreases parts.len(),
{
    if parts.len() == 1 {
        assert(joined(parts, sep).subrange(0, parts[0].len() as int) =~= parts[0]);
    } else {
        let rest = parts.drop_last();
        lemma_joined_starts_with_first(rest, sep);
        assert(rest[0] == parts[0]);
        let s = joined(parts, sep);
        let p = joined(rest, sep);
        assert(s == p + sep + parts.last());
        assert(s.subrange(0, parts[0].len() as int) =~= p.subrange(0, parts[0].len() as int));
    }
}

/// A card's metadata line leads with the game's ProtonDB tier when it has
/// one.
pub proof fn lemma_summary_starts_with_tier(g: GameView, rating_label: Option<Seq<char>>)
    requires
        g.proton_tier is Some,
    ensures
        ({
            let s = joined(metadata_parts(g, rating_label), " | "@);
            let t = navigation::proton_tier_text(g.proton_tier.unwrap());
            s.len() >= t.len() && s.subrange(0, t.len() as int) == t
        }),
{
    let parts = metadata_parts(g, rating_label);
    assert(parts[0] == navigation::proton_tier_text(g.proton_tier.unwrap()));
    lemma_joined_starts_with_first(parts, " | "@);
}

} // verus!

//! The App IDs field of the playlist editor.
//!
//! The field holds comma-separated Steam AppIDs. Parsing is strict: every
//! comma-separated token, trimmed, must be a whole number other than 0; an
//! empty token (from a doubled or trailing comma) is an error. A field that
//! is empty after trimming gives an empty playlist. The parsed ids are sorted
//! and duplicates removed, since a playlist is a set of games.

use crate::rules::PlaylistRule;
use crate::text;
use vstd::prelude::*;

verus! {

/// Why a token of the App IDs field was refused.
#[derive(Clone, Copy, Debug, PartialEq, Eq, Structural)]
pub enum AppIdProblem {
    /// The token is empty after trimming.
    EmptyToken,
    /// The token is not a whole number that fits in 32 bits.
    NotANumber,
    /// The token is 0, which no Steam app has.
    ZeroId,
}

/// The problem with one token, if any.
pub open spec fn token_problem(token: Seq<char>) -> Option<AppIdProblem> {
    let t = text::trimmed(token);
    if t.len() == 0 {
        Some(AppIdProblem::EmptyToken)
    } else {
        match text::parse_u32_spec(t) {
            None => Some(AppIdProblem::NotANumber),
            Some(v) => if v == 0 {
                Some(AppIdProblem::ZeroId)
            } else {
                None
            },
        }
    }
}

/// The AppID a token stands for (meaningful when it has no problem).
pub open spec fn token_value(token: Seq<char>) -> u32 {
    text::parse_u32_spec(text::trimmed(token)).unwrap()
}

/// The tokens of the field: the comma-separated pieces of the trimmed
/// field, or none at all when the trimmed field is empty.
pub open spec fn field_tokens(field: Seq<char>) -> Seq<Seq<char>> {
    let t = text::trimmed(field);
    if t.len() == 0 {
        Seq::empty()
    } else {
        text::split_on(t, ',')
    }
}

/// A refused App IDs field: the 1-based position of the first bad token,
/// what is wrong with it, and the token as trimmed.
#[derive(Debug)]
pub struct AppIdError {
    pub position: usize,
    pub problem: AppIdProblem,
    pub token: String,
}

/// The message shown for a refused field.
pub open spec fn app_id_error_message(
    position: nat,
    problem: AppIdProblem,
    token: Seq<char>,
) -> Seq<char> {
    match problem {
        AppIdProblem::EmptyToken => "Empty AppID at position "@ + text::decimal(position)
            + " — remove trailing commas or extra commas"@,
        AppIdProblem::NotANumber => "Invalid AppID at position "@ + text::decimal(position) + ": '"@
            + token + "' is not a number"@,
        AppIdProblem::ZeroId => "Invalid AppID at position "@ + text::decimal(position)
            + ": 0 is not a valid Steam AppID"@,
    }
}

impl AppIdError {
    /// The message shown in the editor for this error.
    pub fn message(&self) -> (m: String)
        ensures
            m@ == app_id_error_message(self.position as nat, self.problem, self.token@),
    {
        match self.problem {
            AppIdProblem::EmptyToken => {
                let mut m = String::from_str("Empty AppID at position ");
                text::push_decimal(&mut m, self.position as u64);
                m.append(" — remove trailing commas or extra commas");
                m
            },
            AppIdProblem::NotANumber => {
                let mut m = String::from_str("Invalid AppID at position ");
                text::push_decimal(&mut m, self.position as u64);
                m.append(": '");
                m.append(self.token.as_str());
                m.append("' is not a number");
                m
            },
            AppIdProblem::ZeroId => {
                let mut m = String::from_str("Invalid AppID at position ");
                text::push_decimal(&mut m, self.position as u64);
                m.append(": 0 is not a valid Steam AppID");
                m
            },
        }
    }
}

/// Whether a sequence of ids is strictly increasing.
pub open spec fn strictly_increasing(s: Seq<u32>) -> bool {
    forall|a: int, b: int| 0 <= a < b < s.len() ==> s[a] < s[b]
}

/// `values` sorted in increasing order with duplicates removed.
pub fn sorted_unique(values: &Vec<u32>) -> (r: Vec<u32>)
    ensures
        strictly_increasing(r@),
        forall|v: u32| r@.contains(v) <==> values@.contains(v),
{
    let mut r: Vec<u32> = Vec::new();
    let mut i: usize = 0;
    while i < values.len()
        invariant
            i <= values.len(),
            strictly_increasing(r@),
            forall|v: u32| r@.contains(v) <==> values@.take(i as int).contains(v),
        decreases values.len() - i,
    {
        let v = values[i];
        let mut j: usize = 0;
        while j < r.len() && r[j] < v
            invariant
                j <= r.len(),
                forall|k: int| 0 <= k < j ==> r@[k] < v,
            decreases r.len() - j,
        {
            j = j + 1;
        }
        let ghost before = r@;
        if j < r.len() && r[j] == v {
        } else {
            r.insert(j, v);
            proof {
                assert forall|a: int, b: int| 0 <= a < b < r@.len() implies r@[a] < r@[b] by {
                    if b < j {
                        assert(r@[a] == before[a] && r@[b] == before[b]);
                    } else if a > j {
                        assert(r@[a] == before[a - 1] && r@[b] == before[b - 1]);
                    } else if a == j {
                        assert(r@[b] == before[b - 1]);
                        assert(before[j as int] > v);
                        if b - 1 > j {
                            assert(before[j as int] < before[b - 1]);
                        }
                    } else if b == j {
                        assert(r@[a] == before[a]);
                    } else {
                        assert(r@[a] == before[a] && r@[b] == before[b - 1]);
                    }
                }
            }
        }
        proof {
            let next = values@.take(i + 1);
            let cur = values@.take(i as int);
            assert(next =~= cur.push(v));
            assert forall|w: u32| r@.contains(w) <==> next.contains(w) by {
                if r@.contains(w) {
                    let p = choose|p: int| 0 <= p < r@.len() && r@[p] == w;
                    if w != v {
                        if before.len() < r@.len() {
                            if p < j {
                                assert(before[p] == w);
                            } else if p > j {
                                assert(before[p - 1] == w);
                            }
                        }
                        assert(before.contains(w));
                        assert(cur.contains(w));
                        let q = choose|q: int| 0 <= q < cur.len() && cur[q] == w;
                        assert(next[q] == w);
                    } else {
                        assert(next[i as int] == w);
                    }
                }
                if next.contains(w) {
                    let q = choose|q: int| 0 <= q < next.len() && next[q] == w;
                    if q < i {
                        assert(cur[q] == w);
                        assert(before.contains(w));
                        let p = choose|p: int| 0 <= p < before.len() && before[p] == w;
                        if before.len() < r@.len() {
                            if p < j {
                                assert(r@[p] == w);
                            } else {
                                assert(r@[p + 1] == w);
                            }
                        } else {
                            assert(r@[p] == w);
                        }
                    } else {
                        if before.len() < r@.len() {
                            assert(r@[j as int] == w);
                        } else {
                            assert(r@[j as int] == w);
                        }
                    }
                }
            }
        }
        i = i + 1;
    }
    assert(values@.take(values.len() as int) =~= values@);
    r
}

/// The App IDs of the field, sorted and without duplicates, or the first
/// refused token.
pub fn parse_app_ids(field: &str) -> (r: Result<Vec<u32>, AppIdError>)
    ensures
        ({
            let tokens = field_tokens(field@);
            match r {
                Ok(ids) => {
                    &&& forall|k: int| 0 <= k < tokens.len() ==> token_problem(#[trigger] tokens[k]) is None
                    &&& strictly_increasing(ids@)
                    &&& forall|v: u32|
                        ids@.contains(v) <==> exists|k: int|
                            0 <= k < tokens.len() && token_value(#[trigger] tokens[k]) == v
                },
                Err(e) => {
                    &&& 1 <= e.position <= tokens.len()
                    &&& forall|k: int|
                        0 <= k < e.position - 1 ==> token_problem(#[trigger] tokens[k]) is None
                    &&& token_problem(tokens[e.position - 1]) == Some(e.problem)
                    &&& e.token@ == text::trimmed(tokens[e.position - 1])
                },
            }
        }),
{
    let chars = text::chars_of(field);
    let raw = text::trim_chars(&chars);
    let ghost tokens = field_tokens(field@);
    proof {
        text::lemma_trimmed_len(field@);
    }
    if raw.len() == 0 {
        let empty: Vec<u32> = Vec::new();
        proof {
            assert(tokens.len() == 0);
            assert forall|v: u32| empty@.contains(v) <==> exists|k: int|
                0 <= k < tokens.len() && token_value(#[trigger] tokens[k]) == v by {}
        }
        return Ok(empty);
    }
    let pieces = text::split_chars(&raw, ',');
    proof {
        text::lemma_split_len(raw@, ',');
        assert(tokens == text::split_on(raw@, ','));
    }
    let mut ids: Vec<u32> = Vec::new();
    let mut k: usize = 0;
    while k < pieces.len()
        invariant
            k <= pieces@.len() == tokens.len(),
            tokens == field_tokens(field@),
            forall|t: int| 0 <= t < pieces@.len() ==> #[trigger] pieces@[t]@ == tokens[t],
            forall|t: int| 0 <= t < k ==> token_problem(#[trigger] tokens[t]) is None,
            ids@.len() == k,
            forall|t: int| 0 <= t < k ==> #[trigger] ids@[t] == token_value(tokens[t]),
        decreases pieces@.len() - k,
    {
        let t = text::trim_chars(&pieces[k]);
        assert(t@ == text::trimmed(tokens[k as int]));
        if t.len() == 0 {
            let empty = String::new();
            assert(t@ =~= empty@);
            return Err(AppIdError { position: k + 1, problem: AppIdProblem::EmptyToken, token: empty });
        }
        match text::parse_u32(&t) {
            None => {
                return Err(AppIdError { position: k + 1, problem: AppIdProblem::NotANumber, token: text::string_of(&t) });
            },
            Some(v) => {
                if v == 0 {
                    return Err(AppIdError { position: k + 1, problem: AppIdProblem::ZeroId, token: text::string_of(&t) });
                }
                ids.push(v);
            },
        }
        k = k + 1;
    }
    let sorted = sorted_unique(&ids);
    proof {
        assert forall|v: u32| sorted@.contains(v) <==> exists|t: int|
            0 <= t < tokens.len() && token_value(#[trigger] tokens[t]) == v by {
            if ids@.contains(v) {
                let p = choose|p: int| 0 <= p < ids@.len() && ids@[p] == v;
                assert(token_value(tokens[p]) == v);
            }
            if exists|t: int| 0 <= t < tokens.len() && token_value(#[trigger] tokens[t]) == v {
                let t = choose|t: int| 0 <= t < tokens.len() && token_value(#[trigger] tokens[t]) == v;
                assert(ids@[t] == v);
            }
        }
    }
    Ok(sorted)
}

/// Every token of the App IDs field is accepted, and `ids` is the set of
/// their values in increasing order.
pub open spec fn accepted_ids(field: Seq<char>, ids: Seq<u32>) -> bool {
    let tokens = field_tokens(field);
    &&& forall|k: int| 0 <= k < tokens.len() ==> token_problem(#[trigger] tokens[k]) is None
    &&& strictly_increasing(ids)
    &&& forall|v: u32|
        ids.contains(v) <==> exists|k: int|
            0 <= k < tokens.len() && token_value(#[trigger] tokens[k]) == v
}

/// `m` is the message for the first refused token of the App IDs field.
pub open spec fn refusal_message(field: Seq<char>, m: Seq<char>) -> bool {
    let tokens = field_tokens(field);
    exists|at: int|
        0 <= at < tokens.len() && (forall|k: int|
            0 <= k < at ==> token_problem(#[trigger] tokens[k]) is None) && token_problem(
            #[trigger] tokens[at],
        ) is Some && m == app_id_error_message(
            (at + 1) as nat,
            token_problem(tokens[at]).unwrap(),
            text::trimmed(tokens[at]),
        )
}

/// The App IDs of the field, or the message for its first refused token.
pub fn parse_manual_app_ids(field: &str) -> (r: Result<Vec<u32>, String>)
    ensures
        match r {
            Ok(ids) => accepted_ids(field@, ids@),
            Err(m) => refusal_message(field@, m@),
        },
{
    match parse_app_ids(field) {
        Ok(ids) => Ok(ids),
        Err(e) => {
            let m = e.message();
            let ghost at = e.position - 1;
            assert(token_problem(field_tokens(field@)[at]) == Some(e.problem));
            Err(m)
        },
    }
}

/// What a playlist holds, as far as its statistics go: an explicit list of
/// AppIDs, or rules resolved against the library when matched.
pub enum PlaylistContent {
    Manual { app_ids: Vec<u32> },
    Rules { rules: Vec<PlaylistRule> },
}

/// The content type label of a playlist.
pub fn playlist_content_type_label(content: &PlaylistContent) -> (s: &'static str)
    ensures
        s@ == (match content {
            PlaylistContent::Manual { .. } => "Manual"@,
            PlaylistContent::Rules { .. } => "Rules"@,
        }),
{
    match content {
        PlaylistContent::Manual { .. } => "Manual",
        PlaylistContent::Rules { .. } => "Rules",
    }
}

/// The AppIDs a playlist stands for: its own list when manual, the owned
/// games of the last match report when rule-based (none without a report).
pub open spec fn playlist_ids(content: PlaylistContent, owned: Option<Seq<u32>>) -> Seq<u32> {
    match content {
        PlaylistContent::Manual { app_ids } => app_ids@,
        PlaylistContent::Rules { .. } => match owned {
            Some(o) => o,
            None => Seq::empty(),
        },
    }
}

/// The number of games in a playlist: the manual count, or the number of
/// owned games in the match report of a rule-based playlist.
pub fn playlist_game_count(content: &PlaylistContent, owned: Option<&Vec<u32>>) -> (n: usize)
    ensures
        n == playlist_ids(
            *content,
            match owned {
                Some(o) => Some(o@),
                None => None,
            },
        ).len(),
{
    match content {
        PlaylistContent::Manual { app_ids } => app_ids.len(),
        PlaylistContent::Rules { .. } => match owned {
            Some(o) => o.len(),
            None => 0,
        },
    }
}

/// The cover AppID of a playlist: the first explicit AppID of a manual
/// playlist, 0 otherwise.
pub fn playlist_cover_app_id(content: &PlaylistContent) -> (id: u32)
    ensures
        id == (match content {
            PlaylistContent::Manual { app_ids } => if app_ids@.len() > 0 {
                app_ids@[0]
            } else {
                0
            },
            PlaylistContent::Rules { .. } => 0,
        }),
{
    match content {
        PlaylistContent::Manual { app_ids } => if app_ids.len() > 0 {
            app_ids[0]
        } else {
            0
        },
        PlaylistContent::Rules { .. } => 0,
    }
}

/// The decimal renderings of a list of ids.
pub open spec fn decimals(ids: Seq<u32>) -> Seq<Seq<char>> {
    ids.map_values(|id: u32| text::decimal(id as nat))
}

/// The App IDs field text of a list of ids: decimals separated by ", ".
pub open spec fn app_ids_csv(ids: Seq<u32>) -> Seq<char> {
    crate::cards::joined(decimals(ids), ", "@)
}

/// The App IDs field text for editing a playlist: the ids of a manual
/// playlist separated by ", ", empty for a rule-based one.
pub fn manual_playlist_app_ids_csv(content: &PlaylistContent) -> (s: String)
    ensures
        s@ == (match content {
            PlaylistContent::Manual { app_ids } => app_ids_csv(app_ids@),
            PlaylistContent::Rules { .. } => Seq::<char>::empty(),
        }),
{
    match content {
        PlaylistContent::Manual { app_ids } => {
            let mut parts: Vec<String> = Vec::new();
            let mut i: usize = 0;
            while i < app_ids.len()
                invariant
                    i <= app_ids.len(),
                    parts@.len() == i,
                    forall|k: int| 0 <= k < i ==> #[trigger] parts@[k]@ == text::decimal(app_ids@[k] as nat),
                decreases app_ids.len() - i,
            {
                parts.push(text::decimal_string(app_ids[i] as u64));
                i = i + 1;
            }
            assert(parts@.map_values(|p: String| p@) =~= decimals(app_ids@));
            crate::cards::join_strings(&parts, ", ")
        },
        PlaylistContent::Rules { .. } => String::new(),
    }
}

proof fn lemma_split_after_separator(a: Seq<char>, sep: char, b: Seq<char>)
    requires
        !b.contains(sep),
    ensures
        text::split_on(a + seq![sep] + b, sep) == text::split_on(a, sep).push(b),
    decreases b.len(),
{
    if b.len() == 0 {
        let s = a + seq![sep] + b;
        assert(s.drop_last() =~= a);
        assert(s.last() == sep);
        assert(b =~= Seq::<char>::empty());
        assert(text::split_on(s, sep) == text::split_on(s.drop_last(), sep).push(Seq::<char>::empty()));
    } else {
        let s = a + seq![sep] + b;
        assert(!b.drop_last().contains(sep)) by {
            if b.drop_last().contains(sep) {
                let i = choose|i: int| 0 <= i < b.drop_last().len() && b.drop_last()[i] == sep;
                assert(b[i] == sep);
            }
        }
        lemma_split_after_separator(a, sep, b.drop_last());
        assert(s.drop_last() =~= a + seq![sep] + b.drop_last());
        assert(s.last() == b.last());
        assert(b.last() != sep) by {
            assert(b[b.len() - 1] == b.last());
        }
        let rest = text::split_on(a, sep).push(b.drop_last());
        assert(text::split_on(s.drop_last(), sep) == rest);
        assert(text::split_on(s, sep) == rest.update(rest.len() - 1, rest.last().push(s.last())));
        assert(rest.update(rest.len() - 1, rest.last().push(b.last())) =~= text::split_on(a, sep).push(b)) by {
            assert(b.drop_last().push(b.last()) =~= b);
        }
    }
}

proof fn lemma_split_without_separator(b: Seq<char>, sep: char)
    requires
        !b.contains(sep),
    ensures
        text::split_on(b, sep) == seq![b],
    decreases b.len(),
{
    if b.len() == 0 {
        assert(b =~= Seq::<char>::empty());
    } else {
        assert(!b.drop_last().contains(sep)) by {
            if b.drop_last().contains(sep) {
                let i = choose|i: int| 0 <= i < b.drop_last().len() && b.drop_last()[i] == sep;
                assert(b[i] == sep);
            }
        }
        lemma_split_without_separator(b.drop_last(), sep);
        let rest = text::split_on(b.drop_last(), sep);
        assert(text::split_on(b, sep) == rest.update(rest.len() - 1, rest.last().push(b.last())));
        assert(b.last() != sep) by {
            assert(b[b.len() - 1] == b.last());
        }
        assert(b.drop_last().push(b.last()) =~= b);
        assert(seq![b.drop_last()].update(0, b.drop_last().push(b.last())) =~= seq![b]);
    }
}

proof fn lemma_decimal_has_no_comma_or_space(n: nat)
    ensures
        !text::decimal(n).contains(','),
        !(seq![' '] + text::decimal(n)).contains(','),
        !text::is_unicode_whitespace(text::decimal(n)[0]),
        !text::is_unicode_whitespace(text::decimal(n).last()),
        text::decimal(n)[0] != '+',
{
    text::lemma_decimal_digits(n);
    let d = text::decimal(n);
    if d.contains(',') {
        let i = choose|i: int| 0 <= i < d.len() && d[i] == ',';
        assert(text::is_digit(d[i]));
    }
    let t = seq![' '] + d;
    if t.contains(',') {
        let i = choose|i: int| 0 <= i < t.len() && t[i] == ',';
        if i > 0 {
            assert(t[i] == d[i - 1]);
            assert(text::is_digit(d[i - 1]));
        }
    }
    assert(text::is_digit(d[0]));
    assert(text::is_digit(d[d.len() - 1]));
}

proof fn lemma_trimmed_decimal(n: nat, padded: bool)
    ensures
        text::trimmed(
            if padded {
                seq![' '] + text::decimal(n)
            } else {
                text::decimal(n)
            },
        ) == text::decimal(n),
{
    lemma_decimal_has_no_comma_or_space(n);
    text::lemma_decimal_digits(n);
    let d = text::decimal(n);
    if padded {
        let t = seq![' '] + d;
        assert(text::is_unicode_whitespace(t[0]));
        assert(t.drop_first() =~= d);
    }
    assert(text::trim_start(d) == d);
    assert(text::trim_end(d) == d);
}

proof fn lemma_decimal_token(n: nat, padded: bool)
    requires
        0 < n <= u32::MAX,
    ensures
        token_problem(
            if padded {
                seq![' '] + text::decimal(n)
            } else {
                text::decimal(n)
            },
        ) is None,
        token_value(
            if padded {
                seq![' '] + text::decimal(n)
            } else {
                text::decimal(n)
            },
        ) == n,
{
    lemma_trimmed_decimal(n, padded);
    lemma_decimal_has_no_comma_or_space(n);
    text::lemma_decimal_digits(n);
    let d = text::decimal(n);
    assert(text::unsigned_digits(d) == d);
}

/// The comma-separated pieces of a csv of ids: the first id's decimal, then
/// each later id's decimal behind a space.
proof fn lemma_csv_pieces(ids: Seq<u32>)
    requires
        ids.len() > 0,
    ensures
        text::split_on(app_ids_csv(ids), ',').len() == ids.len(),
        text::split_on(app_ids_csv(ids), ',')[0] == text::decimal(ids[0] as nat),
        forall|k: int|
            1 <= k < ids.len() ==> #[trigger] text::split_on(app_ids_csv(ids), ',')[k] == seq![' ']
                + text::decimal(ids[k] as nat),
        app_ids_csv(ids).len() > 0,
        app_ids_csv(ids)[0] == text::decimal(ids[0] as nat)[0],
        app_ids_csv(ids).last() == text::decimal(ids.last() as nat).last(),
    decreases ids.len(),
{
    let ds = decimals(ids);
    if ids.len() == 1 {
        lemma_decimal_has_no_comma_or_space(ids[0] as nat);
        lemma_split_without_separator(text::decimal(ids[0] as nat), ',');
        text::lemma_decimal_digits(ids[0] as nat);
    } else {
        let front = ids.drop_last();
        lemma_csv_pieces(front);
        assert(decimals(front) =~= ds.drop_last());
        let last = text::decimal(ids.last() as nat);
        assert(ds.last() == last);
        let csv = app_ids_csv(ids);
        reveal_strlit(", ");
        assert(csv =~= app_ids_csv(front) + seq![','] + (seq![' '] + last));
        lemma_decimal_has_no_comma_or_space(ids.last() as nat);
        lemma_split_after_separator(app_ids_csv(front), ',', seq![' '] + last);
        text::lemma_decimal_digits(ids.last() as nat);
        assert forall|k: int| 1 <= k < ids.len() implies #[trigger] text::split_on(csv, ',')[k] == seq![' '] + text::decimal(ids[k] as nat) by {
            if k < ids.len() - 1 {
                assert(front[k] == ids[k]);
            }
        }
    }
}

/// A manual playlist's ids rendered for editing read back as the same ids:
/// each comma-separated token of the rendered field is accepted and stands
/// for the id at its position.
pub proof fn lemma_app_ids_csv_round_trip(ids: Seq<u32>)
    requires
        forall|k: int| 0 <= k < ids.len() ==> #[trigger] ids[k] > 0,
    ensures
        field_tokens(app_ids_csv(ids)).len() == ids.len(),
        forall|k: int| 0 <= k < ids.len() ==> token_problem(#[trigger] field_tokens(app_ids_csv(ids))[k]) is None,
        forall|k: int| 0 <= k < ids.len() ==> token_value(#[trigger] field_tokens(app_ids_csv(ids))[k]) == ids[k],
{
    let csv = app_ids_csv(ids);
    if ids.len() == 0 {
        assert(csv.len() == 0);
        assert(text::trimmed(csv).len() == 0);
    } else {
        lemma_csv_pieces(ids);
        lemma_decimal_has_no_comma_or_space(ids[0] as nat);
        lemma_decimal_has_no_comma_or_space(ids.last() as nat);
        assert(text::trim_start(csv) == csv);
        assert(text::trim_end(csv) == csv);
        assert(field_tokens(csv) == text::split_on(csv, ','));
        assert forall|k: int| 0 <= k < ids.len() implies token_problem(#[trigger] field_tokens(csv)[k]) is None && token_value(field_tokens(csv)[k]) == ids[k] by {
            if k == 0 {
                lemma_decimal_token(ids[0] as nat, false);
            } else {
                lemma_decimal_token(ids[k] as nat, true);
            }
        }
    }
}

/// Two strictly increasing id lists holding the same ids are equal.
pub proof fn lemma_increasing_lists_equal(a: Seq<u32>, b: Seq<u32>)
    requires
        strictly_increasing(a),
        strictly_increasing(b),
        forall|v: u32| a.contains(v) <==> b.contains(v),
    ensures
        a == b,
    decreases a.len(),
{
    if a.len() == 0 {
        if b.len() > 0 {
            assert(b.contains(b[0]));
        }
        assert(a =~= b);
    } else {
        assert(a.contains(a[0]));
        assert(b.len() > 0);
        assert(b.contains(b[0]));
        let i = choose|i: int| 0 <= i < b.len() && b[i] == a[0];
        let j = choose|j: int| 0 <= j < a.len() && a[j] == b[0];
        if i > 0 {
            assert(b[0] < b[i]);
            if j > 0 {
                assert(a[0] < a[j]);
            }
        }
        assert(a[0] == b[0]);
        let a2 = a.drop_first();
        let b2 = b.drop_first();
        assert forall|v: u32| a2.contains(v) <==> b2.contains(v) by {
            if a2.contains(v) {
                let p = choose|p: int| 0 <= p < a2.len() && a2[p] == v;
                assert(a[p + 1] == v);
                assert(a[0] < a[p + 1]);
                assert(b.contains(v));
                let q = choose|q: int| 0 <= q < b.len() && b[q] == v;
                assert(q != 0);
                assert(b2[q - 1] == v);
            }
            if b2.contains(v) {
                let q = choose|q: int| 0 <= q < b2.len() && b2[q] == v;
                assert(b[q + 1] == v);
                assert(b[0] < b[q + 1]);
                assert(a.contains(v));
                let p = choose|p: int| 0 <= p < a.len() && a[p] == v;
                assert(p != 0);
                assert(a2[p - 1] == v);
            }
        }
        lemma_increasing_lists_equal(a2, b2);
        assert(a =~= seq![a[0]] + a2);
        assert(b =~= seq![b[0]] + b2);
    }
}

} // verus!

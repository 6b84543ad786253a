//! The Junk panel: which evaluated games are listed, and the selection of
//! games to apply to the junk collection.
//!
//! A candidate's confidence is kept as a whole percentage; it decides
//! nothing here and is only shown.

use crate::navigation::JunkModeChoice;
use std::collections::HashSet;
use vstd::prelude::*;

verus! {

broadcast use vstd::std_specs::hash::group_hash_axioms;

/// A junk signal found on a game.
#[derive(Clone, Copy, Debug, PartialEq, Eq, Structural)]
pub enum JunkSignal {
    LowPlaytime { minutes: u32 },
}

/// A kind of junk signal, for signals that could not be checked.
#[derive(Clone, Copy, Debug, PartialEq, Eq, Structural)]
pub enum JunkSignalKind {
    LowPlaytime,
    CompletionTime,
    Rating,
}

/// An evaluated game as the panel reads it.
pub struct JunkCandidate {
    pub app_id: u32,
    pub name: String,
    pub is_junk: bool,
    /// How sure the evaluation is, as a whole percentage.
    pub confidence_percent: u32,
    pub matched: Vec<JunkSignal>,
    pub missing: Vec<JunkSignalKind>,
    pub mode: JunkModeChoice,
}

/// A candidate as plain values.
pub open spec fn candidate_view(c: JunkCandidate) -> (
    u32,
    Seq<char>,
    bool,
    u32,
    Seq<JunkSignal>,
    Seq<JunkSignalKind>,
    JunkModeChoice,
) {
    (c.app_id, c.name@, c.is_junk, c.confidence_percent, c.matched@, c.missing@, c.mode)
}

/// The demo junk decisions.
pub open spec fn demo_junk_views() -> Seq<
    (u32, Seq<char>, bool, u32, Seq<JunkSignal>, Seq<JunkSignalKind>, JunkModeChoice),
> {
    seq![
        (1011u32, "Demo Game 11"@, true, 100u32, seq![JunkSignal::LowPlaytime { minutes: 5 }],
            Seq::empty(), JunkModeChoice::Default),
        (1017u32, "Demo Game 17"@, true, 33u32, seq![JunkSignal::LowPlaytime { minutes: 10 }],
            seq![JunkSignalKind::CompletionTime, JunkSignalKind::Rating], JunkModeChoice::Default),
        (1005u32, "Demo Game 05"@, false, 66u32, Seq::empty(), seq![JunkSignalKind::CompletionTime],
            JunkModeChoice::Default),
    ]
}

/// The demo junk decisions: two junk games (one of them uncertain) and
/// one kept game.
pub fn demo_junk_decisions() -> (cs: Vec<JunkCandidate>)
    ensures
        cs@.map_values(|c: JunkCandidate| candidate_view(c)) == demo_junk_views(),
{
    let mut m1: Vec<JunkSignal> = Vec::new();
    m1.push(JunkSignal::LowPlaytime { minutes: 5 });
    let mut m2: Vec<JunkSignal> = Vec::new();
    m2.push(JunkSignal::LowPlaytime { minutes: 10 });
    let mut k2: Vec<JunkSignalKind> = Vec::new();
    k2.push(JunkSignalKind::CompletionTime);
    k2.push(JunkSignalKind::Rating);
    let mut k3: Vec<JunkSignalKind> = Vec::new();
    k3.push(JunkSignalKind::CompletionTime);
    let ghost spec = demo_junk_views();
    assert(m1@ =~= spec[0].4);
    assert(m2@ =~= spec[1].4);
    assert(k2@ =~= spec[1].5);
    assert(k3@ =~= spec[2].5);
    let mut cs: Vec<JunkCandidate> = Vec::new();
    cs.push(
        JunkCandidate {
            app_id: 1011,
            name: String::from_str("Demo Game 11"),
            is_junk: true,
            confidence_percent: 100,
            matched: m1,
            missing: Vec::new(),
            mode: JunkModeChoice::Default,
        },
    );
    cs.push(
        JunkCandidate {
            app_id: 1017,
            name: String::from_str("Demo Game 17"),
            is_junk: true,
            confidence_percent: 33,
            matched: m2,
            missing: k2,
            mode: JunkModeChoice::Default,
        },
    );
    cs.push(
        JunkCandidate {
            app_id: 1005,
            name: String::from_str("Demo Game 05"),
            is_junk: false,
            confidence_percent: 66,
            matched: Vec::new(),
            missing: k3,
            mode: JunkModeChoice::Default,
        },
    );
    assert(cs@.map_values(|c: JunkCandidate| candidate_view(c)) =~= demo_junk_views());
    cs
}

/// The AppIDs of the candidates judged junk.
pub open spec fn junk_ids(cs: Seq<JunkCandidate>) -> Set<u32> {
    Set::new(|id: u32| exists|k: int| 0 <= k < cs.len() && cs[k].is_junk && #[trigger] cs[k].app_id == id)
}

/// A selection after its checkbox for `id` is clicked.
pub open spec fn toggled(s: Set<u32>, id: u32) -> Set<u32> {
    if s.contains(id) {
        s.remove(id)
    } else {
        s.insert(id)
    }
}

/// The games selected for the junk collection.
pub struct JunkSelection {
    pub selected: HashSet<u32>,
}

impl JunkSelection {
    /// Nothing selected.
    pub fn new() -> (s: Self)
        ensures
            s.selected@ == Set::<u32>::empty(),
    {
        JunkSelection { selected: HashSet::new() }
    }

    /// Whether `id` is selected.
    pub fn is_selected(&self, id: u32) -> (b: bool)
        ensures
            b == self.selected@.contains(id),
    {
        self.selected.contains(&id)
    }

    /// A click on the checkbox of `id`: selects it, or deselects it when
    /// selected.
    pub fn toggle(&mut self, id: u32)
        ensures
            final(self).selected@ == toggled(old(self).selected@, id),
    {
        if self.selected.contains(&id) {
            self.selected.remove(&id);
        } else {
            self.selected.insert(id);
        }
    }

    /// "Select all junk": exactly the candidates judged junk (also what a
    /// finished preview selects).
    pub fn select_all_junk(&mut self, candidates: &Vec<JunkCandidate>)
        ensures
            final(self).selected@ == junk_ids(candidates@),
    {
        let mut s: HashSet<u32> = HashSet::new();
        let mut k: usize = 0;
        while k < candidates.len()
            invariant
                k <= candidates.len(),
                s@ == junk_ids(candidates@.take(k as int)),
            decreases candidates.len() - k,
        {
            proof {
                let next = candidates@.take(k + 1);
                assert(next.take(k as int) =~= candidates@.take(k as int));
                assert(next[k as int] == candidates@[k as int]);
            }
            if candidates[k].is_junk {
                s.insert(candidates[k].app_id);
            }
            proof {
                let prev = candidates@.take(k as int);
                let next = candidates@.take(k + 1);
                assert forall|id: u32| s@.contains(id) == junk_ids(next).contains(id) by {
                    if junk_ids(prev).contains(id) {
                        let j = choose|j: int|
                            0 <= j < prev.len() && prev[j].is_junk && #[trigger] prev[j].app_id == id;
                        assert(next[j] == prev[j]);
                    }
                    if junk_ids(next).contains(id) {
                        let j = choose|j: int|
                            0 <= j < next.len() && next[j].is_junk && #[trigger] next[j].app_id == id;
                        if j < k {
                            assert(prev[j] == next[j]);
                        }
                    }
                }
                assert(s@ =~= junk_ids(next));
            }
            k = k + 1;
        }
        assert(candidates@.take(candidates.len() as int) =~= candidates@);
        self.selected = s;
    }

    /// "Clear": nothing selected.
    pub fn clear(&mut self)
        ensures
            final(self).selected@ == Set::<u32>::empty(),
    {
        self.selected.clear();
    }

    /// How many games are selected.
    pub fn count(&self) -> (n: usize)
        ensures
            n == self.selected@.len(),
    {
        self.selected.len()
    }
}

/// Clicking a checkbox twice leaves the selection as it was.
pub proof fn lemma_toggle_twice_restores(s: Set<u32>, id: u32)
    ensures
        toggled(toggled(s, id), id) == s,
{
    if s.contains(id) {
        assert(s.remove(id).insert(id) =~= s);
    } else {
        assert(s.insert(id).remove(id) =~= s);
    }
}

/// The positions of the candidates the panel lists, in order: all of them
/// when "show all evaluated" is on, else those judged junk.
pub open spec fn shown_rows(cs: Seq<JunkCandidate>, show_all: bool) -> Seq<int>
    decreases cs.len(),
{
    if cs.len() == 0 {
        Seq::empty()
    } else {
        let rest = shown_rows(cs.drop_last(), show_all);
        if show_all || cs.last().is_junk {
            rest.push(cs.len() - 1)
        } else {
            rest
        }
    }
}

/// The positions of the candidates the panel lists.
pub fn junk_rows(candidates: &Vec<JunkCandidate>, show_all: bool) -> (rows: Vec<usize>)
    ensures
        rows@.map_values(|r: usize| r as int) == shown_rows(candidates@, show_all),
{
    let mut rows: Vec<usize> = Vec::new();
    let mut k: usize = 0;
    while k < candidates.len()
        invariant
            k <= candidates.len(),
            rows@.map_values(|r: usize| r as int) == shown_rows(candidates@.take(k as int), show_all),
        decreases candidates.len() - k,
    {
        let ghost before = rows@;
        proof {
            let next = candidates@.take(k + 1);
            assert(next.drop_last() =~= candidates@.take(k as int));
            assert(next.last() == candidates@[k as int]);
        }
        if show_all || candidates[k].is_junk {
            rows.push(k);
            assert(rows@.map_values(|r: usize| r as int) =~= before.map_values(|r: usize| r as int).push(k as int));
        }
        k = k + 1;
    }
    assert(candidates@.take(candidates.len() as int) =~= candidates@);
    rows
}

/// Whether "Apply to collection…" is enabled: something is selected and
/// the app is not in demo mode.
pub fn junk_apply_enabled(selected_count: usize, ui_demo: bool) -> (b: bool)
    ensures
        b == (selected_count != 0 && !ui_demo),
{
    !(selected_count == 0 || ui_demo)
}

} // verus!

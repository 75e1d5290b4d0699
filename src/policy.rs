use vstd::prelude::*;
use crate::agent::{Action, Agent, action_of_code};
use crate::geometry::{Position, abs_diff, manhattan};
use crate::random::random_below;
use crate::tag::{has_it, is_first_it, it_index, lemma_first_it};

verus! {

/// An agent that is not "it" and stands further than this from the "it"
/// agent moves at random.
pub const FLEE_RADIUS: u64 = 4;

/// Agent `k` of `s` is a target that `me` may chase.
pub open spec fn eligible_target(s: Seq<Agent>, me: Agent, k: int) -> bool {
    0 <= k < s.len() && s[k].id != me.id && !s[k].has_immunity
}

/// Among the first `n` agents of `s`, `k` is the nearest target of `me`, and
/// the first one at that distance.
pub open spec fn nearest_within(s: Seq<Agent>, me: Agent, k: int, n: int) -> bool {
    eligible_target(s, me, k) && k < n && (forall|j: int|
        0 <= j < n && eligible_target(s, me, j) ==> manhattan(me.position, s[k].position)
            <= manhattan(me.position, s[j].position)) && (forall|j: int|
        0 <= j < k && eligible_target(s, me, j) ==> manhattan(me.position, s[j].position)
            > manhattan(me.position, s[k].position))
}

/// `k` is the nearest target of `me` in `s`, the first one on ties.
pub open spec fn is_nearest_target(s: Seq<Agent>, me: Agent, k: int) -> bool {
    nearest_within(s, me, k, s.len() as int)
}

/// One step from `from` toward `to`, along the axis with the larger
/// difference, the horizontal one on ties; `Stay` when the cells are equal.
pub open spec fn toward(from: Position, to: Position) -> Action {
    if abs_diff(to.x as int, from.x as int) >= abs_diff(to.y as int, from.y as int) {
        if to.x > from.x {
            Action::Right
        } else if to.x < from.x {
            Action::Left
        } else {
            Action::Stay
        }
    } else if to.y > from.y {
        Action::Down
    } else {
        Action::Up
    }
}

/// One step from `from` away from `threat`, along the axis with the larger
/// difference, the horizontal one on ties; on the threat's own cell, `Right`.
pub open spec fn away_from(from: Position, threat: Position) -> Action {
    if abs_diff(from.x as int, threat.x as int) >= abs_diff(from.y as int, threat.y as int) {
        if from.x >= threat.x {
            Action::Right
        } else {
            Action::Left
        }
    } else if from.y > threat.y {
        Action::Down
    } else {
        Action::Up
    }
}

/// The heuristic choice of `me` in population `s`. The "it" agent chases
/// its nearest target; another agent flees the "it" agent when it is within
/// `FLEE_RADIUS`. Otherwise the agent takes `fallback`.
pub open spec fn heuristic_action(s: Seq<Agent>, me: Agent, fallback: Action) -> Action {
    if me.is_it {
        if exists|k: int| is_nearest_target(s, me, k) {
            toward(me.position, s[choose|k: int| is_nearest_target(s, me, k)].position)
        } else {
            fallback
        }
    } else {
        let it = s[it_index(s)];
        if manhattan(me.position, it.position) > FLEE_RADIUS {
            fallback
        } else {
            away_from(me.position, it.position)
        }
    }
}

proof fn lemma_nearest_unique(s: Seq<Agent>, me: Agent, k: int, l: int)
    requires
        is_nearest_target(s, me, k),
        is_nearest_target(s, me, l),
    ensures
        k == l,
{
}

fn step_toward(from: Position, to: Position) -> (r: Action)
    ensures
        r == toward(from, to),
{
    let dx = if to.x >= from.x { to.x - from.x } else { from.x - to.x };
    let dy = if to.y >= from.y { to.y - from.y } else { from.y - to.y };
    if dx >= dy {
        if to.x > from.x {
            Action::Right
        } else if to.x < from.x {
            Action::Left
        } else {
            Action::Stay
        }
    } else if to.y > from.y {
        Action::Down
    } else {
        Action::Up
    }
}

fn step_away(from: Position, threat: Position) -> (r: Action)
    ensures
        r == away_from(from, threat),
{
    let dx = if from.x >= threat.x { from.x - threat.x } else { threat.x - from.x };
    let dy = if from.y >= threat.y { from.y - threat.y } else { threat.y - from.y };
    if dx >= dy {
        if from.x >= threat.x {
            Action::Right
        } else {
            Action::Left
        }
    } else if from.y > threat.y {
        Action::Down
    } else {
        Action::Up
    }
}

impl Agent {
    /// A move drawn at random among the five actions.
    pub fn decide_action(&self) -> (r: Action) {
        let code = random_below(5);
        match Action::from_code(code as i64) {
            Some(action) => action,
            None => {
                proof {
                    assert(action_of_code(code as int) is Some);
                }
                Action::Stay
            },
        }
    }

    /// The heuristic move of this agent in `agents`, with `fallback` where
    /// the heuristic leaves the choice open.
    pub fn decide_heuristic(&self, agents: &Vec<Agent>, fallback: Action) -> (r: Action)
        requires
            !self.is_it ==> has_it(agents@),
        ensures
            r == heuristic_action(agents@, *self, fallback),
    {
        let n = agents.len();
        if self.is_it {
            let mut best: Option<usize> = None;
            let mut best_d: u64 = 0;
            let mut i: usize = 0;
            while i < n
                invariant
                    0 <= i <= n,
                    n == agents.len(),
                    best is None ==> forall|j: int|
                        0 <= j < i ==> !eligible_target(agents@, *self, j),
                    best matches Some(k) ==> nearest_within(agents@, *self, k as int, i as int)
                        && best_d == manhattan(self.position, agents@[k as int].position),
                decreases n - i,
            {
                let a = agents[i];
                if a.id != self.id && !a.has_immunity {
                    let d = self.position.distance(&a.position);
                    let closer = match best {
                        None => true,
                        Some(_) => d < best_d,
                    };
                    if closer {
                        best = Some(i);
                        best_d = d;
                    }
                }
                i = i + 1;
            }
            match best {
                Some(k) => {
                    proof {
                        let l = choose|l: int| is_nearest_target(agents@, *self, l);
                        lemma_nearest_unique(agents@, *self, k as int, l);
                    }
                    step_toward(self.position, agents[k].position)
                },
                None => {
                    assert(!exists|k: int| is_nearest_target(agents@, *self, k));
                    fallback
                },
            }
        } else {
            let mut t: usize = 0;
            while !agents[t].is_it
                invariant
                    0 <= t < n,
                    n == agents.len(),
                    forall|j: int| 0 <= j < t ==> !agents@[j].is_it,
                    exists|k: int| t <= k < n && agents@[k].is_it,
                decreases n - t,
            {
                t = t + 1;
            }
            proof {
                lemma_first_it(agents@, t as int);
            }
            let it_pos = agents[t].position;
            if self.position.distance(&it_pos) > FLEE_RADIUS {
                fallback
            } else {
                step_away(self.position, it_pos)
            }
        }
    }
}

} // verus!

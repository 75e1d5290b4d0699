use vstd::prelude::*;
use crate::agent::{Action, Agent, moved};
use crate::geometry::Position;
use crate::policy::heuristic_action;
use crate::random::random_below;
use crate::tag::{
    at_most_one_immune,
    has_it,
    lemma_retag_keeps_roles,
    make_agents_tag,
    one_it,
    retag,
};

verus! {

/// The parameters of one run.
#[derive(Debug, Clone, Copy, PartialEq, Eq)]
pub struct Settings {
    /// Width of the field.
    pub width: u32,
    /// Height of the field.
    pub height: u32,
    /// Number of agents.
    pub agents: u32,
    /// Number of ticks.
    pub length: u32,
    /// Ticks per second; 0 runs without pause.
    pub speed: u8,
}

/// How agents choose their moves.
#[derive(Debug, Clone, Copy, PartialEq, Eq, Structural)]
pub enum Policy {
    /// Every agent moves at random.
    Random,
    /// The "it" agent chases and the others flee; see `heuristic_action`.
    Heuristic,
}

/// A population that a run can be in: exactly one agent is "it", at most one
/// is immune, and each agent stands on its field under its own index.
pub open spec fn population_wf(s: Seq<Agent>) -> bool {
    one_it(s) && at_most_one_immune(s) && forall|i: int|
        0 <= i < s.len() ==> s[i].on_field() && s[i].id == i
}

/// Every agent of `s` has a field of at least one cell.
pub open spec fn bounds_positive(s: Seq<Agent>) -> bool {
    forall|i: int| 0 <= i < s.len() ==> s[i].x_bound >= 1 && s[i].y_bound >= 1
}

/// The population `s` after agent `i` took action `acts[i]`, for each `i`.
pub open spec fn moved_all(s: Seq<Agent>, acts: Seq<Action>) -> Seq<Agent> {
    Seq::new(
        s.len(),
        |i: int|
            Agent { position: moved(s[i].position, acts[i], s[i].x_bound, s[i].y_bound), ..s[i] },
    )
}

/// `a` is a move that agent `i` of `s` may choose under `policy`.
pub open spec fn allowed_decision(s: Seq<Agent>, i: int, a: Action, policy: Policy) -> bool {
    policy == Policy::Heuristic ==> exists|fallback: Action| a == heuristic_action(s, s[i], fallback)
}

impl Settings {
    /// The settings describe a run that can start.
    pub open spec fn valid(self) -> bool {
        self.width >= 1 && self.height >= 1 && self.agents >= 1
    }

    /// The pause between two ticks in milliseconds, or `None` for a run
    /// without pause.
    pub fn frame_delay_ms(&self) -> (r: Option<u64>)
        ensures
            self.speed == 0 ==> r is None,
            self.speed > 0 ==> r == Some((1000int / self.speed as int) as u64),
    {
        if self.speed > 0 {
            Some(1000 / self.speed as u64)
        } else {
            None
        }
    }
}

/// Creates the population of a run: `settings.agents` agents on random
/// cells of the field, agent 0 "it", nobody immune.
pub fn create_agents(settings: &Settings) -> (r: Vec<Agent>)
    requires
        settings.valid(),
    ensures
        r.len() == settings.agents,
        population_wf(r@),
        forall|i: int|
            0 <= i < r.len() ==> r@[i].is_it == (i == 0) && !r@[i].has_immunity
                && r@[i].x_bound == settings.width && r@[i].y_bound == settings.height,
{
    let n = settings.agents as usize;
    let mut agents: Vec<Agent> = Vec::new();
    let mut i: usize = 0;
    while i < n
        invariant
            0 <= i <= n,
            n == settings.agents,
            settings.valid(),
            agents.len() == i,
            forall|j: int|
                0 <= j < i ==> agents@[j].is_it == (j == 0) && !agents@[j].has_immunity
                    && agents@[j].x_bound == settings.width && agents@[j].y_bound
                    == settings.height && agents@[j].on_field() && agents@[j].id == j,
        decreases n - i,
    {
        let x = random_below(settings.width);
        let y = random_below(settings.height);
        agents.push(
            Agent {
                id: i,
                position: Position { x, y },
                is_it: i == 0,
                has_immunity: false,
                x_bound: settings.width,
                y_bound: settings.height,
            },
        );
        i = i + 1;
    }
    assert(agents@[0].is_it);
    agents
}

/// One tick: every agent decides on the population as it stood before the
/// tick, every agent moves, then the tag rule runs once.
pub fn step(agents: Vec<Agent>, policy: Policy) -> (r: Vec<Agent>)
    requires
        bounds_positive(agents@),
        has_it(agents@),
    ensures
        r.len() == agents.len(),
        exists|acts: Seq<Action>|
            acts.len() == agents.len() && (forall|i: int|
                0 <= i < acts.len() ==> allowed_decision(agents@, i, #[trigger] acts[i], policy))
                && r@ == retag(moved_all(agents@, acts)),
        population_wf(agents@) ==> population_wf(r@),
{
    let n = agents.len();
    let mut actions: Vec<Action> = Vec::new();
    let mut i: usize = 0;
    while i < n
        invariant
            0 <= i <= n,
            n == agents.len(),
            has_it(agents@),
            actions.len() == i,
            forall|j: int|
                0 <= j < i ==> allowed_decision(agents@, j, #[trigger] actions@[j], policy),
        decreases n - i,
    {
        let fallback = agents[i].decide_action();
        let action = match policy {
            Policy::Random => fallback,
            Policy::Heuristic => agents[i].decide_heuristic(&agents, fallback),
        };
        actions.push(action);
        i = i + 1;
    }
    let ghost acts = actions@;
    let ghost target = moved_all(agents@, acts);
    let mut next: Vec<Agent> = Vec::new();
    let mut i: usize = 0;
    while i < n
        invariant
            0 <= i <= n,
            n == agents.len(),
            n == actions.len(),
            acts == actions@,
            bounds_positive(agents@),
            target == moved_all(agents@, acts),
            next@ == target.take(i as int),
        decreases n - i,
    {
        next.push(agents[i].execute_action(actions[i]));
        assert(next@ =~= target.take(i + 1));
        i = i + 1;
    }
    assert(next@ =~= target);
    let ghost k = choose|k: int| 0 <= k < n && agents@[k].is_it;
    assert(target[k].is_it);
    let r = make_agents_tag(next);
    proof {
        if population_wf(agents@) {
            let t = choose|t: int|
                0 <= t < n && agents@[t].is_it && forall|j: int|
                    0 <= j < n && j != t ==> !agents@[j].is_it;
            assert(target[t].is_it);
            assert(one_it(target));
            assert(at_most_one_immune(target));
            lemma_retag_keeps_roles(target);
            assert forall|i: int| 0 <= i < r.len() implies r@[i].on_field() && r@[i].id == i by {
                assert(target[i].on_field());
            }
        }
    }
    r
}

} // verus!

use vstd::prelude::*;
use crate::agent::Agent;
use crate::geometry::manhattan;

verus! {

/// `t` is the first index of `s` whose agent is "it".
pub open spec fn is_first_it(s: Seq<Agent>, t: int) -> bool {
    0 <= t < s.len() && s[t].is_it && forall|j: int| 0 <= j < t ==> !s[j].is_it
}

/// Some agent of `s` is "it".
pub open spec fn has_it(s: Seq<Agent>) -> bool {
    exists|i: int| 0 <= i < s.len() && s[i].is_it
}

/// The index of the first agent of `s` that is "it".
pub open spec fn it_index(s: Seq<Agent>) -> int {
    choose|t: int| is_first_it(s, t)
}

/// Agent `i` may be tagged by agent `t`: it is another agent, it is not
/// immune, and it stands on the same cell or on a neighbouring one.
pub open spec fn can_be_tagged(s: Seq<Agent>, t: int, i: int) -> bool {
    0 <= i < s.len() && s[i].id != s[t].id && !s[i].has_immunity && manhattan(
        s[i].position,
        s[t].position,
    ) < 2
}

/// `c` is the first index of `s` that agent `t` may tag.
pub open spec fn is_first_tagged(s: Seq<Agent>, t: int, c: int) -> bool {
    can_be_tagged(s, t, c) && forall|j: int| 0 <= j < c ==> !can_be_tagged(s, t, j)
}

/// `s` after agent `c` was tagged by agent `t`: `c` becomes "it", `t` stops
/// being "it" and is the one immune agent.
pub open spec fn after_tag(s: Seq<Agent>, t: int, c: int) -> Seq<Agent> {
    Seq::new(
        s.len(),
        |i: int|
            Agent {
                is_it: if i == c {
                    true
                } else if i == t {
                    false
                } else {
                    s[i].is_it
                },
                has_immunity: i == t,
                ..s[i]
            },
    )
}

/// One pass of the tag rule over `s`.
pub open spec fn retag(s: Seq<Agent>) -> Seq<Agent> {
    let t = it_index(s);
    if exists|c: int| is_first_tagged(s, t, c) {
        after_tag(s, t, choose|c: int| is_first_tagged(s, t, c))
    } else {
        s
    }
}

/// Exactly one agent of `s` is "it".
pub open spec fn one_it(s: Seq<Agent>) -> bool {
    exists|t: int|
        0 <= t < s.len() && s[t].is_it && forall|j: int| 0 <= j < s.len() && j != t ==> !s[j].is_it
}

/// At most one agent of `s` is immune.
pub open spec fn at_most_one_immune(s: Seq<Agent>) -> bool {
    forall|i: int, j: int|
        0 <= i < s.len() && 0 <= j < s.len() && s[i].has_immunity && s[j].has_immunity ==> i == j
}

/// There is a first "it" agent whenever there is one, and only one.
pub proof fn lemma_first_it(s: Seq<Agent>, t: int)
    requires
        is_first_it(s, t),
    ensures
        it_index(s) == t,
{
    let u = it_index(s);
    assert(is_first_it(s, u));
    if u < t {
        assert(!s[u].is_it);
    } else if t < u {
        assert(!s[t].is_it);
    }
}

/// There is only one first agent that may be tagged.
proof fn lemma_first_tagged_unique(s: Seq<Agent>, t: int, c: int, d: int)
    requires
        is_first_tagged(s, t, c),
        is_first_tagged(s, t, d),
    ensures
        c == d,
{
    if c < d {
        assert(!can_be_tagged(s, t, c));
    } else if d < c {
        assert(!can_be_tagged(s, t, d));
    }
}

/// Every pass of the tag rule keeps exactly one agent "it" and at most one
/// agent immune, and changes nothing but the two flags.
pub proof fn lemma_retag_keeps_roles(s: Seq<Agent>)
    requires
        one_it(s),
        at_most_one_immune(s),
    ensures
        retag(s).len() == s.len(),
        one_it(retag(s)),
        at_most_one_immune(retag(s)),
        forall|i: int|
            0 <= i < s.len() ==> (Agent {
                is_it: s[i].is_it,
                has_immunity: s[i].has_immunity,
                ..retag(s)[i]
            }) == s[i],
{
    let t0 = choose|t: int|
        0 <= t < s.len() && s[t].is_it && forall|j: int| 0 <= j < s.len() && j != t ==> !s[j].is_it;
    assert(is_first_it(s, t0));
    lemma_first_it(s, t0);
    let t = it_index(s);
    if exists|c: int| is_first_tagged(s, t, c) {
        let c = choose|c: int| is_first_tagged(s, t, c);
        let r = after_tag(s, t, c);
        assert(r[c].is_it);
        assert forall|j: int| 0 <= j < r.len() && j != c implies !r[j].is_it by {}
    }
}

/// Passes the "it" role on: the first agent, in population order, that the
/// "it" agent may tag becomes "it", and the previous holder of the role
/// becomes the one immune agent. When no agent may be tagged, nothing
/// changes.
pub fn make_agents_tag(agents: Vec<Agent>) -> (r: Vec<Agent>)
    requires
        has_it(agents@),
    ensures
        r@ == retag(agents@),
        one_it(agents@) && at_most_one_immune(agents@) ==> one_it(r@) && at_most_one_immune(r@),
{
    let n = agents.len();
    let mut t: usize = 0;
    while !agents[t].is_it
        invariant
            0 <= t < n,
            n == agents.len(),
            forall|j: int| 0 <= j < t ==> !agents@[j].is_it,
            has_it(agents@),
            exists|k: int| t <= k < n && agents@[k].is_it,
        decreases n - t,
    {
        t = t + 1;
    }
    proof {
        lemma_first_it(agents@, t as int);
    }
    let it_id = agents[t].id;
    let it_pos = agents[t].position;
    let mut c: usize = 0;
    let mut found = false;
    while !found && c < n
        invariant
            0 <= c <= n,
            n == agents.len(),
            it_id == agents@[t as int].id,
            it_pos == agents@[t as int].position,
            0 <= t < n,
            forall|j: int| 0 <= j < c ==> !can_be_tagged(agents@, t as int, j),
            found ==> c < n && can_be_tagged(agents@, t as int, c as int),
        decreases n - c + (if found { 0int } else { 1int }),
    {
        let a = agents[c];
        if a.id != it_id && !a.has_immunity && a.position.distance(&it_pos) < 2 {
            found = true;
        } else {
            c = c + 1;
        }
    }
    if !found {
        proof {
            assert forall|k: int| !is_first_tagged(agents@, t as int, k) by {
                if 0 <= k < n {
                    assert(!can_be_tagged(agents@, t as int, k));
                }
            }
        }
        return agents;
    }
    proof {
        assert(is_first_tagged(agents@, t as int, c as int));
        let d = choose|d: int| is_first_tagged(agents@, t as int, d);
        lemma_first_tagged_unique(agents@, t as int, c as int, d);
    }
    let ghost target = after_tag(agents@, t as int, c as int);
    let mut r: Vec<Agent> = Vec::new();
    let mut i: usize = 0;
    while i < n
        invariant
            0 <= i <= n,
            n == agents.len(),
            target == after_tag(agents@, t as int, c as int),
            r@ == target.take(i as int),
        decreases n - i,
    {
        let a = agents[i];
        let is_it = if i == c {
            true
        } else if i == t {
            false
        } else {
            a.is_it
        };
        r.push(Agent { is_it, has_immunity: i == t, ..a });
        assert(r@ =~= target.take(i + 1));
        i = i + 1;
    }
    assert(r@ =~= target);
    proof {
        if one_it(agents@) && at_most_one_immune(agents@) {
            lemma_retag_keeps_roles(agents@);
        }
    }
    r
}

} // verus!

use vstd::prelude::*;
use crate::geometry::Position;

verus! {

/// One move an agent can make on a tick. `Up` lowers `y`, `Down` raises it.
#[derive(Debug, Clone, Copy, PartialEq, Eq, Structural)]
pub enum Action {
    Stay,
    Up,
    Right,
    Down,
    Left,
}

/// The action that an integer code stands for: `0..=4` map, in order, to
/// `Stay`, `Up`, `Right`, `Down`, `Left`; any other code stands for none.
pub open spec fn action_of_code(code: int) -> Option<Action> {
    if code == 0 {
        Some(Action::Stay)
    } else if code == 1 {
        Some(Action::Up)
    } else if code == 2 {
        Some(Action::Right)
    } else if code == 3 {
        Some(Action::Down)
    } else if code == 4 {
        Some(Action::Left)
    } else {
        None
    }
}

impl Action {
    /// Decodes an action code; `None` for a code outside `0..=4`.
    pub fn from_code(code: i64) -> (r: Option<Action>)
        ensures
            r == action_of_code(code as int),
    {
        match code {
            0 => Some(Action::Stay),
            1 => Some(Action::Up),
            2 => Some(Action::Right),
            3 => Some(Action::Down),
            4 => Some(Action::Left),
            _ => None,
        }
    }
}

/// `v` clamped into `[0, bound)`, for `v >= 0` and `bound >= 1`.
pub open spec fn clamp_below(v: int, bound: int) -> int {
    if v >= bound {
        bound - 1
    } else {
        v
    }
}

/// `v - 1`, but never below zero.
pub open spec fn dec_sat(v: int) -> int {
    if v >= 1 {
        v - 1
    } else {
        0
    }
}

/// Where `action` takes `p` on a field of `x_bound` by `y_bound` cells.
pub open spec fn moved(p: Position, action: Action, x_bound: u32, y_bound: u32) -> Position {
    let (x, y): (int, int) = match action {
        Action::Stay => (p.x as int, p.y as int),
        Action::Up => (p.x as int, dec_sat(p.y as int)),
        Action::Right => (p.x + 1, p.y as int),
        Action::Down => (p.x as int, p.y + 1),
        Action::Left => (dec_sat(p.x as int), p.y as int),
    };
    Position { x: clamp_below(x, x_bound as int) as u32, y: clamp_below(y, y_bound as int) as u32 }
}

/// `v + 1` clamped below `bound`, computed without overflow.
fn inc_clamped(v: u32, bound: u32) -> (r: u32)
    requires
        bound >= 1,
    ensures
        r == clamp_below(v + 1, bound as int),
{
    if v >= bound - 1 {
        bound - 1
    } else {
        v + 1
    }
}

/// `v - 1` (saturating at zero) clamped below `bound`.
fn dec_clamped(v: u32, bound: u32) -> (r: u32)
    requires
        bound >= 1,
    ensures
        r == clamp_below(dec_sat(v as int), bound as int),
{
    let w: u32 = if v >= 1 { v - 1 } else { 0 };
    if w >= bound { bound - 1 } else { w }
}

/// `v` clamped below `bound`.
fn clamped(v: u32, bound: u32) -> (r: u32)
    requires
        bound >= 1,
    ensures
        r == clamp_below(v as int, bound as int),
{
    if v >= bound { bound - 1 } else { v }
}

/// Applies `action` to `position` and clamps the result into
/// `[0, x_bound) x [0, y_bound)`. A bound of zero is not a field.
pub fn apply(position: Position, action: Action, x_bound: u32, y_bound: u32) -> (r: Position)
    requires
        x_bound >= 1,
        y_bound >= 1,
    ensures
        r == moved(position, action, x_bound, y_bound),
        r.x < x_bound,
        r.y < y_bound,
        action == Action::Stay && position.x < x_bound && position.y < y_bound ==> r == position,
{
    let x = position.x;
    let y = position.y;
    match action {
        Action::Stay => Position { x: clamped(x, x_bound), y: clamped(y, y_bound) },
        Action::Up => Position { x: clamped(x, x_bound), y: dec_clamped(y, y_bound) },
        Action::Right => Position { x: inc_clamped(x, x_bound), y: clamped(y, y_bound) },
        Action::Down => Position { x: clamped(x, x_bound), y: inc_clamped(y, y_bound) },
        Action::Left => Position { x: dec_clamped(x, x_bound), y: clamped(y, y_bound) },
    }
}

/// A participant of the game. `id` also names the agent's index in its
/// population.
#[derive(Debug, Clone, Copy, PartialEq, Eq, Structural)]
pub struct Agent {
    pub id: usize,
    pub position: Position,
    pub is_it: bool,
    pub has_immunity: bool,
    /// Width of the field; the lower bound is 0.
    pub x_bound: u32,
    /// Height of the field; the lower bound is 0.
    pub y_bound: u32,
}

impl Agent {
    /// The agent's bounds describe a field and its position lies on it.
    pub open spec fn on_field(self) -> bool {
        self.x_bound >= 1 && self.y_bound >= 1 && self.position.x < self.x_bound
            && self.position.y < self.y_bound
    }

    /// The agent after taking `action`: only its position changes.
    pub fn execute_action(self, action: Action) -> (r: Self)
        requires
            self.x_bound >= 1,
            self.y_bound >= 1,
        ensures
            r == (Agent {
                position: moved(self.position, action, self.x_bound, self.y_bound),
                ..self
            }),
            r.on_field(),
    {
        let mut agent = self;
        agent.position = apply(self.position, action, self.x_bound, self.y_bound);
        agent
    }
}

} // verus!

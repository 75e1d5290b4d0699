use vstd::prelude::*;
use crate::agent::Agent;

verus! {

/// How an agent is drawn: `#` for the "it" agent, `O` for the others.
pub open spec fn glyph(a: Agent) -> char {
    if a.is_it {
        '#'
    } else {
        'O'
    }
}

/// What cell `(x, y)` shows for population `s`: the glyph of the last agent
/// standing on it, or a blank.
pub open spec fn cell_glyph(s: Seq<Agent>, x: int, y: int) -> char
    decreases s.len(),
{
    if s.len() == 0 {
        ' '
    } else if s.last().position.x == x && s.last().position.y == y {
        glyph(s.last())
    } else {
        cell_glyph(s.drop_last(), x, y)
    }
}

fn cell(agents: &Vec<Agent>, x: u32, y: u32) -> (r: char)
    ensures
        r == cell_glyph(agents@, x as int, y as int),
{
    let mut g = ' ';
    let mut i: usize = 0;
    while i < agents.len()
        invariant
            0 <= i <= agents.len(),
            g == cell_glyph(agents@.take(i as int), x as int, y as int),
        decreases agents.len() - i,
    {
        let a = agents[i];
        if a.position.x == x && a.position.y == y {
            g = if a.is_it { '#' } else { 'O' };
        }
        assert(agents@.take(i + 1).drop_last() =~= agents@.take(i as int));
        i = i + 1;
    }
    assert(agents@.take(agents.len() as int) =~= agents@);
    g
}

/// The field as `height` rows of `width` characters, each cell drawn as
/// `cell_glyph` says.
pub fn screen_rows(agents: &Vec<Agent>, width: u32, height: u32) -> (r: Vec<Vec<char>>)
    ensures
        r.len() == height,
        forall|y: int|
            0 <= y < height ==> #[trigger] r@[y].len() == width && forall|x: int|
                0 <= x < width ==> #[trigger] r@[y]@[x] == cell_glyph(agents@, x, y),
{
    let mut rows: Vec<Vec<char>> = Vec::new();
    let mut y: u32 = 0;
    while y < height
        invariant
            0 <= y <= height,
            rows.len() == y,
            forall|j: int|
                0 <= j < y ==> #[trigger] rows@[j].len() == width && forall|x: int|
                    0 <= x < width ==> #[trigger] rows@[j]@[x] == cell_glyph(agents@, x, j),
        decreases height - y,
    {
        let mut row: Vec<char> = Vec::new();
        let mut x: u32 = 0;
        while x < width
            invariant
                0 <= x <= width,
                row.len() == x,
                forall|i: int| 0 <= i < x ==> #[trigger] row@[i] == cell_glyph(agents@, i, y as int),
            decreases width - x,
        {
            row.push(cell(agents, x, y));
            x = x + 1;
        }
        rows.push(row);
        y = y + 1;
    }
    rows
}

} // verus!

//! What holds of the rule, of the step and of the picture in general.

use crate::generation::{
    lemma_index_in_range, lemma_index_round_trip, live_count, Generation,
};
use crate::world::World;
use vstd::prelude::*;

verus! {

/// The generation that follows a well-formed one is well-formed, on a board
/// of the same size.
pub proof fn next_keeps_the_board(g: Generation)
    requires
        g.wf(),
    ensures
        g.next().wf(),
        g.next().width == g.width,
        g.next().height == g.height,
{
}

/// In the following generation a cell is in the state that the rule gives
/// it in this one.
pub proof fn next_follows_the_rule(g: Generation, x: int, y: int)
    requires
        g.wf(),
        g.contains(x, y),
    ensures
        g.next().alive(x, y) == g.lives_on(x, y),
{
    lemma_index_in_range(g.width as int, g.height as int, x, y);
    lemma_index_round_trip(g.width as int, x, y);
}

/// A live cell is alive in the following generation if two or three of its
/// neighbours are alive, and dead with any other number of them.
pub proof fn survival_law(g: Generation, x: int, y: int)
    requires
        g.wf(),
        g.contains(x, y),
        g.alive(x, y),
    ensures
        g.next().alive(x, y) <==> g.live_neighbors(x, y) == 2 || g.live_neighbors(x, y) == 3,
{
    next_follows_the_rule(g, x, y);
}

/// A dead cell is alive in the following generation if exactly three of its
/// neighbours are alive, and stays dead otherwise.
pub proof fn birth_law(g: Generation, x: int, y: int)
    requires
        g.wf(),
        g.contains(x, y),
        !g.alive(x, y),
    ensures
        g.next().alive(x, y) <==> g.live_neighbors(x, y) == 3,
{
    next_follows_the_rule(g, x, y);
}

/// A cell in the first or last column or row has no neighbours that count,
/// so it is dead in the following generation whatever its state was.
pub proof fn border_law(g: Generation, x: int, y: int)
    requires
        g.wf(),
        g.contains(x, y),
        x == 0 || y == 0 || x == g.width - 1 || y == g.height - 1,
    ensures
        g.neighbors(x, y).len() == 0,
        g.live_neighbors(x, y) == 0,
        !g.next().alive(x, y),
{
    next_follows_the_rule(g, x, y);
}

/// A cell away from the border has eight neighbours, so at most eight live
/// ones.
pub proof fn inner_cells_have_eight_neighbors(g: Generation, x: int, y: int)
    requires
        g.wf(),
        g.contains(x, y),
        !g.on_border(x, y),
    ensures
        g.neighbors(x, y).len() == 8,
        g.live_neighbors(x, y) <= 8,
{
    live_count_is_bounded(g.neighbors(x, y));
}

/// No more cells of a sequence are alive than it has cells.
pub proof fn live_count_is_bounded(states: Seq<bool>)
    ensures
        live_count(states) <= states.len(),
    decreases states.len(),
{
    if states.len() > 0 {
        live_count_is_bounded(states.drop_last());
    }
}

/// After a step, the colour of a cell in the frame is decided by the state
/// the cell has now and by nothing else: the crab colour if it is alive, the
/// clear colour if it is dead, whatever the frame held before.
pub proof fn pixel_law(before: World, after: World, frame: Seq<u8>, i: int, channel: int)
    requires
        before.draws(&after, frame),
        0 <= i < after@.cells.len(),
        0 <= channel < 4,
    ensures
        frame.len() == 4 * after@.cells.len(),
        frame[4 * i + channel] == if after@.cells[i] {
            after.crab_color()@[channel]
        } else {
            after.clear_color()@[channel]
        },
{
}

/// A step is a function of what the world shows and of its two colours: two
/// worlds that agree in these show the same generation after a step and
/// paint the same frame.
pub proof fn step_is_deterministic(
    a: World,
    b: World,
    a_after: World,
    b_after: World,
    a_frame: Seq<u8>,
    b_frame: Seq<u8>,
)
    requires
        a@ == b@,
        a.crab_color() == b.crab_color(),
        a.clear_color() == b.clear_color(),
        a.draws(&a_after, a_frame),
        b.draws(&b_after, b_frame),
    ensures
        a_after@ == b_after@,
        a_frame == b_frame,
{
}

} // verus!

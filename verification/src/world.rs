//! The executable board.

use crate::generation::{
    lemma_area_fits, lemma_index_in_range, lemma_place_is_a_cell, live_count, picture,
    Generation,
};
use crate::seed::random_state;
use vstd::prelude::*;

verus! {

/// A board of crabs, the generation it currently shows, and the two colours
/// it is painted with.
pub struct World {
    clear_color: [u8; 4],
    width: u32,
    height: u32,
    crabs: Vec<bool>,
    crab_buffer: Vec<bool>,
    crab_color: [u8; 4],
}

impl View for World {
    type V = Generation;

    /// The current generation. The scratch buffer is no part of it.
    closed spec fn view(&self) -> Generation {
        Generation { width: self.width as nat, height: self.height as nat, cells: self.crabs@ }
    }
}

impl World {
    #[verifier::type_invariant]
    spec fn inv(&self) -> bool {
        &&& self@.wf()
        &&& self.crab_buffer@.len() == self.crabs@.len()
    }

    /// The colour of a dead cell.
    pub closed spec fn clear_color(&self) -> [u8; 4] {
        self.clear_color
    }

    /// The colour of a live cell.
    pub closed spec fn crab_color(&self) -> [u8; 4] {
        self.crab_color
    }

    /// The number of columns of the board.
    pub fn width(&self) -> (width: u32)
        ensures
            width == self@.width,
            self@.wf(),
    {
        proof {
            use_type_invariant(self);
        }
        self.width
    }

    /// The number of rows of the board.
    pub fn height(&self) -> (height: u32)
        ensures
            height == self@.height,
            self@.wf(),
    {
        proof {
            use_type_invariant(self);
        }
        self.height
    }

    /// Builds the world that shows `cells` on a board of `width` by `height`,
    /// or refuses: a board without cells, or a number of states other than
    /// `width * height`.
    pub fn from_cells(
        clear_color: [u8; 4],
        crab_color: [u8; 4],
        width: u32,
        height: u32,
        cells: Vec<bool>,
    ) -> (made: Option<World>)
        ensures
            made is Some <==> width > 0 && height > 0 && cells@.len() == width * height,
            made matches Some(world) ==> {
                &&& world@ == (Generation {
                    width: width as nat,
                    height: height as nat,
                    cells: cells@,
                })
                &&& world.clear_color() == clear_color
                &&& world.crab_color() == crab_color
            },
    {
        if width == 0 || height == 0 {
            return None;
        }
        proof {
            lemma_area_fits(width, height);
        }
        let area: u64 = (width as u64) * (height as u64);
        if cells.len() as u64 != area {
            return None;
        }
        Some(World::build(clear_color, crab_color, width, height, cells))
    }

    /// Puts a world together from its parts, with a scratch buffer of its own.
    fn build(
        clear_color: [u8; 4],
        crab_color: [u8; 4],
        width: u32,
        height: u32,
        cells: Vec<bool>,
    ) -> (world: World)
        requires
            width > 0,
            height > 0,
            cells@.len() == width * height,
        ensures
            world@ == (Generation { width: width as nat, height: height as nat, cells: cells@ }),
            world.clear_color() == clear_color,
            world.crab_color() == crab_color,
    {
        let crab_buffer: Vec<bool> = vec![false; cells.len()];
        World { clear_color, width, height, crabs: cells, crab_buffer, crab_color }
    }

    /// A world of `width` by `height` crabs, each of them alive or dead as a
    /// coin toss decides.
    pub fn new(clear_color: [u8; 4], crab_color: [u8; 4], width: u32, height: u32) -> (world:
        World)
        requires
            width > 0,
            height > 0,
            width * height <= usize::MAX,
        ensures
            world@.wf(),
            world@.width == width,
            world@.height == height,
            world.clear_color() == clear_color,
            world.crab_color() == crab_color,
    {
        let area: usize = width as usize * height as usize;
        let mut crabs: Vec<bool> = Vec::new();
        let mut i: usize = 0;
        while i < area
            invariant
                i <= area,
                crabs@.len() == i,
            decreases area - i,
        {
            crabs.push(random_state());
            i += 1;
        }
        World::build(clear_color, crab_color, width, height, crabs)
    }

    /// A world of random crabs as [`World::new`] makes it, or `None` for a
    /// board that cannot be made: one without cells, or one with more cells
    /// than the machine can address.
    pub fn try_new(clear_color: [u8; 4], crab_color: [u8; 4], width: u32, height: u32) -> (made:
        Option<World>)
        ensures
            made is Some <==> width > 0 && height > 0 && width * height <= usize::MAX,
            made matches Some(world) ==> {
                &&& world@.wf()
                &&& world@.width == width
                &&& world@.height == height
                &&& world.clear_color() == clear_color
                &&& world.crab_color() == crab_color
            },
    {
        if width == 0 || height == 0 {
            return None;
        }
        proof {
            lemma_area_fits(width, height);
        }
        let area: u64 = (width as u64) * (height as u64);
        if area > usize::MAX as u64 {
            return None;
        }
        Some(World::new(clear_color, crab_color, width, height))
    }

    /// Where the state of the crab at `(x, y)` is stored.
    fn place(&self, x: usize, y: usize) -> (place: usize)
        requires
            self@.contains(x as int, y as int),
        ensures
            place == self@.index_of(x as int, y as int),
            place < self.crabs@.len(),
    {
        proof {
            use_type_invariant(self);
            lemma_index_in_range(self.width as int, self.height as int, x as int, y as int);
            assert(self.crabs.len() <= usize::MAX);
        }
        x + (self.width as usize * y)
    }

    /// The state of the crab at `(x, y)`.
    pub fn get_crab(&self, x: usize, y: usize) -> (state: bool)
        requires
            self@.contains(x as int, y as int),
        ensures
            state == self@.alive(x as int, y as int),
    {
        self.crabs[self.place(x, y)]
    }

    /// Sets the state of the crab at `(x, y)` to `val` and leaves every other
    /// crab, the size of the board and the colours as they were.
    pub fn set_crab(&mut self, val: bool, x: usize, y: usize)
        requires
            old(self)@.contains(x as int, y as int),
        ensures
            final(self)@.width == old(self)@.width,
            final(self)@.height == old(self)@.height,
            final(self)@.cells == old(self)@.cells.update(
                old(self)@.index_of(x as int, y as int),
                val,
            ),
            final(self).clear_color() == old(self).clear_color(),
            final(self).crab_color() == old(self).crab_color(),
    {
        let place: usize = self.place(x, y);
        proof {
            use_type_invariant(&*self);
        }
        self.crabs[place] = val;
    }

    /// The states of the eight crabs around `(x, y)`, in this order:
    ///
    /// ```text
    /// 0 1 2
    /// 3 _ 4
    /// 5 6 7
    /// ```
    ///
    /// A crab in the first or last column or row has no siblings, and neither
    /// has a place outside the board.
    pub fn get_crabs_siblings(&self, x: usize, y: usize) -> (siblings: Vec<bool>)
        ensures
            siblings@ == self@.neighbors(x as int, y as int),
    {
        proof {
            use_type_invariant(self);
        }
        if x == 0 || y == 0 || y >= self.height as usize - 1 || x >= self.width as usize - 1 {
            Vec::new()
        } else {
            vec![
                self.get_crab(x - 1, y - 1),
                self.get_crab(x, y - 1),
                self.get_crab(x + 1, y - 1),
                self.get_crab(x - 1, y),
                self.get_crab(x + 1, y),
                self.get_crab(x - 1, y + 1),
                self.get_crab(x, y + 1),
                self.get_crab(x + 1, y + 1),
            ]
        }
    }

    /// Whether the crab at `(x, y)` is alive in the next generation: a live
    /// crab with two or three live siblings, or a dead one with exactly three.
    pub fn should_crab_live(&self, x: usize, y: usize) -> (live: bool)
        requires
            self@.contains(x as int, y as int),
        ensures
            live == self@.lives_on(x as int, y as int),
    {
        let siblings = self.get_crabs_siblings(x, y);
        let alive: usize = count_live(&siblings);
        if self.get_crab(x, y) {
            alive == 2 || alive == 3
        } else {
            alive == 3
        }
    }

    /// What one step does to a world: `after` shows the generation that
    /// follows the one `self` shows, on the same board and in the same
    /// colours, and `frame` is the picture of that new generation.
    pub open spec fn draws(&self, after: &World, frame: Seq<u8>) -> bool {
        &&& after@ == self@.next()
        &&& after.clear_color() == self.clear_color()
        &&& after.crab_color() == self.crab_color()
        &&& frame == picture(after@.cells, after.crab_color(), after.clear_color())
    }

    /// Advances the world by one generation and paints the new generation
    /// into `frame`, which holds four bytes for each crab.
    ///
    /// Every crab's fate is decided from the generation shown before the
    /// call; the whole of `frame` is overwritten.
    pub fn draw(&mut self, frame: &mut [u8])
        requires
            old(frame)@.len() == old(self)@.width * old(self)@.height * 4,
        ensures
            old(self).draws(final(self), final(frame)@),
    {
        proof {
            use_type_invariant(&*self);
        }
        let width: usize = self.width as usize;
        let area: usize = self.crabs.len();
        let mut i: usize = 0;
        while i < area
            invariant
                i <= area,
                area == self.crabs@.len(),
                area == self.crab_buffer@.len(),
                width == self.width,
                self@ == old(self)@,
                self@.wf(),
                self.clear_color == old(self).clear_color,
                self.crab_color == old(self).crab_color,
                frame@.len() == 4 * area,
                forall|k: int| 0 <= k < i ==> self.crab_buffer@[k] == old(self)@.next_cells()[k],
                forall|j: int|
                    0 <= j < 4 * i ==> frame@[j] == picture(
                        old(self)@.next_cells(),
                        self.crab_color,
                        self.clear_color,
                    )[j],
            decreases area - i,
        {
            proof {
                lemma_place_is_a_cell(width as int, self.height as int, i as int);
            }
            let x: usize = i % width;
            let y: usize = i / width;
            let should_live = self.should_crab_live(x, y);
            self.crab_buffer[i] = should_live;
            if should_live {
                put_pixel(frame, i, &self.crab_color);
            } else {
                put_pixel(frame, i, &self.clear_color);
            }
            i += 1;
        }
        std::mem::swap(&mut self.crabs, &mut self.crab_buffer);
        proof {
            // Both hold cell by cell, which makes them equal as sequences.
            assert(self.crabs@ =~= old(self)@.next_cells());
            assert(frame@ =~= picture(self.crabs@, self.crab_color, self.clear_color));
        }
    }

    /// Takes the step of [`World::draw`] if `frame` holds exactly four bytes
    /// for each crab and says so; leaves the world and `frame` untouched if
    /// it does not.
    pub fn try_draw(&mut self, frame: &mut [u8]) -> (drawn: bool)
        ensures
            drawn <==> old(frame)@.len() == old(self)@.width * old(self)@.height * 4,
            drawn ==> old(self).draws(final(self), final(frame)@),
            !drawn ==> *final(self) == *old(self) && final(frame)@ == old(frame)@,
    {
        proof {
            use_type_invariant(&*self);
        }
        if frame.len() % 4 == 0 && frame.len() / 4 == self.crabs.len() {
            self.draw(frame);
            true
        } else {
            false
        }
    }
}

/// Counts the live crabs among `states`.
fn count_live(states: &Vec<bool>) -> (alive: usize)
    ensures
        alive == live_count(states@),
{
    let mut alive: usize = 0;
    let mut i: usize = 0;
    while i < states.len()
        invariant
            i <= states.len(),
            alive == live_count(states@.take(i as int)),
            alive <= i,
        decreases states.len() - i,
    {
        assert(states@.take(i + 1).drop_last() == states@.take(i as int));
        if states[i] {
            alive += 1;
        }
        i += 1;
    }
    assert(states@.take(i as int) == states@);
    alive
}

/// Writes `color` into the four bytes of `frame` that belong to cell `i`.
fn put_pixel(frame: &mut [u8], i: usize, color: &[u8; 4])
    requires
        4 * i + 4 <= old(frame)@.len(),
    ensures
        final(frame)@.len() == old(frame)@.len(),
        forall|j: int|
            0 <= j < old(frame)@.len() ==> final(frame)@[j] == if 4 * i <= j < 4 * i + 4 {
                color@[j - 4 * i]
            } else {
                old(frame)@[j]
            },
{
    let start: usize = 4 * i;
    frame[start] = color[0];
    frame[start + 1] = color[1];
    frame[start + 2] = color[2];
    frame[start + 3] = color[3];
}

} // verus!

use vstd::prelude::*;

use crate::direction::Direction;
use crate::rng::random_in_range;

verus! {

/// One grid cell, identified by its (x, y) coordinate. Equality is purely
/// positional.
#[derive(Clone, Copy, PartialEq, Eq, Structural, Debug)]
pub struct Block {
    pub x: i32,
    pub y: i32,
}

/// The mathematical model of a snake: its body cells from head to tail,
/// its heading, the most recently dropped tail cell, and the cosmetic
/// tongue animation state.
pub ghost struct SnakeView {
    pub body: Seq<Block>,
    pub dir: Direction,
    pub last_removed: Option<Block>,
    pub tongue_timer: u64,
    pub tongue_out: bool,
}

/// The coordinate one step towards smaller values, wrapping at the end of
/// the i32 range (the two's-complement behaviour of the grid coordinates).
pub open spec fn spec_coord_dec(v: i32) -> i32 {
    if v == i32::MIN {
        i32::MAX
    } else {
        (v - 1) as i32
    }
}

/// The coordinate one step towards larger values, wrapping at the end of
/// the i32 range.
pub open spec fn spec_coord_inc(v: i32) -> i32 {
    if v == i32::MAX {
        i32::MIN
    } else {
        (v + 1) as i32
    }
}

/// The cell one step away from `b` in direction `d`.
pub open spec fn spec_next_block(b: Block, d: Direction) -> Block {
    match d {
        Direction::Up => Block { x: b.x, y: spec_coord_dec(b.y) },
        Direction::Down => Block { x: b.x, y: spec_coord_inc(b.y) },
        Direction::Left => Block { x: spec_coord_dec(b.x), y: b.y },
        Direction::Right => Block { x: spec_coord_inc(b.x), y: b.y },
    }
}

impl SnakeView {
    /// A snake is well formed when it keeps at least its initial three
    /// body cells.
    pub open spec fn wf(self) -> bool {
        self.body.len() >= 3
    }

    /// The head cell (front of the body).
    pub open spec fn head(self) -> Block {
        self.body[0]
    }

    /// The tail cell (back of the body), about to be vacated on the next
    /// move.
    pub open spec fn tail(self) -> Block {
        self.body.last()
    }

    /// The heading a move would use: the override if one is given, the
    /// current heading otherwise.
    pub open spec fn effective_dir(self, dir: Option<Direction>) -> Direction {
        match dir {
            Some(d) => d,
            None => self.dir,
        }
    }

    /// The cell the head would occupy after one step.
    pub open spec fn next_head(self, dir: Option<Direction>) -> Block {
        spec_next_block(self.head(), self.effective_dir(dir))
    }

    /// Whether (x, y) lies under some body cell other than the current
    /// tail. The tail does not count: it is vacated by the next move, so
    /// stepping onto it is not a collision.
    pub open spec fn overlaps_except_tail(self, x: i32, y: i32) -> bool {
        exists|i: int|
            0 <= i < self.body.len() - 1 && #[trigger] self.body[i] == (Block { x: x, y: y })
    }
}

/// The snake after one forward move: the heading takes the override if one
/// is given, the next head cell is pushed to the front, and the tail cell
/// is dropped and remembered.
pub open spec fn spec_move(v: SnakeView, dir: Option<Direction>) -> SnakeView {
    SnakeView {
        dir: v.effective_dir(dir),
        body: seq![v.next_head(dir)] + v.body.drop_last(),
        last_removed: Some(v.tail()),
        ..v
    }
}

/// The snake after re-appending the remembered tail cell, which undoes the
/// shrink of the move before it: this is how eating grows the snake.
pub open spec fn spec_restore(v: SnakeView) -> SnakeView {
    SnakeView { body: v.body.push(v.last_removed->0), ..v }
}

/// The model of a freshly built snake: three cells on one row, head at
/// (init_x + 2, init_y), heading Right.
pub open spec fn spec_snake_new(init_x: i32, init_y: i32) -> SnakeView {
    SnakeView {
        body: seq![
            Block { x: (init_x + 2) as i32, y: init_y },
            Block { x: (init_x + 1) as i32, y: init_y },
            Block { x: init_x, y: init_y },
        ],
        dir: Direction::Right,
        last_removed: None,
        tongue_timer: 0,
        tongue_out: false,
    }
}

/// How one tick advances the tongue animation: the countdown loses the
/// elapsed time; when it runs out the tongue flips and the countdown
/// restarts at a randomly drawn duration — short while the tongue is out,
/// long while it is in. Nothing else about the snake changes.
pub open spec fn tongue_step_ok(pre: SnakeView, post: SnakeView, dt: u64) -> bool {
    &&& post.body == pre.body
    &&& post.dir == pre.dir
    &&& post.last_removed == pre.last_removed
    &&& if pre.tongue_timer > dt {
        post.tongue_timer == pre.tongue_timer - dt && post.tongue_out == pre.tongue_out
    } else {
        &&& post.tongue_out == !pre.tongue_out
        &&& (post.tongue_out ==> 150 <= post.tongue_timer < 250)
        &&& (!post.tongue_out ==> 1000 <= post.tongue_timer < 3000)
    }
}

/// The player-controlled snake: an ordered body of grid cells (head
/// first), a current heading, the most recently dropped tail cell, and a
/// cosmetic tongue animation driven by its own countdown.
pub struct Snake {
    pub moving_direction: Direction,
    pub body: Vec<Block>,
    pub last_removed_block: Option<Block>,
    pub tongue_timer: u64,
    pub tongue_out: bool,
}

impl View for Snake {
    type V = SnakeView;

    open spec fn view(&self) -> SnakeView {
        SnakeView {
            body: self.body@,
            dir: self.moving_direction,
            last_removed: self.last_removed_block,
            tongue_timer: self.tongue_timer,
            tongue_out: self.tongue_out,
        }
    }
}

/// Returns the coordinate one below `v`, wrapping at the range end.
fn coord_dec(v: i32) -> (r: i32)
    ensures
        r == spec_coord_dec(v),
{
    if v == i32::MIN {
        i32::MAX
    } else {
        v - 1
    }
}

/// Returns the coordinate one above `v`, wrapping at the range end.
fn coord_inc(v: i32) -> (r: i32)
    ensures
        r == spec_coord_inc(v),
{
    if v == i32::MAX {
        i32::MIN
    } else {
        v + 1
    }
}

/// Returns the cell one step away from `b` in direction `d`.
fn next_block(b: Block, d: Direction) -> (r: Block)
    ensures
        r == spec_next_block(b, d),
{
    match d {
        Direction::Up => Block { x: b.x, y: coord_dec(b.y) },
        Direction::Down => Block { x: b.x, y: coord_inc(b.y) },
        Direction::Left => Block { x: coord_dec(b.x), y: b.y },
        Direction::Right => Block { x: coord_inc(b.x), y: b.y },
    }
}

impl Snake {
    /// Builds the initial three-cell snake occupying (init_x + 2, init_y),
    /// (init_x + 1, init_y) and (init_x, init_y) head to tail, heading
    /// Right.
    pub fn new(init_x: i32, init_y: i32) -> (s: Snake)
        requires
            init_x + 2 <= i32::MAX,
        ensures
            s@ == spec_snake_new(init_x, init_y),
            s@.wf(),
    {
        let mut body: Vec<Block> = Vec::new();
        body.push(Block { x: init_x + 2, y: init_y });
        body.push(Block { x: init_x + 1, y: init_y });
        body.push(Block { x: init_x, y: init_y });
        let s = Snake {
            moving_direction: Direction::Right,
            body,
            last_removed_block: None,
            tongue_timer: 0,
            tongue_out: false,
        };
        proof {
            assert(s@.body =~= spec_snake_new(init_x, init_y).body);
        }
        s
    }

    /// Returns the current head cell.
    pub fn head_position(&self) -> (r: (i32, i32))
        requires
            self@.wf(),
        ensures
            r.0 == self@.head().x,
            r.1 == self@.head().y,
    {
        let head_block = self.body[0];
        (head_block.x, head_block.y)
    }

    /// Returns the current heading.
    pub fn head_direction(&self) -> (r: Direction)
        ensures
            r == self@.dir,
    {
        self.moving_direction
    }

    /// Returns the cell the head would occupy after one step, using the
    /// override direction if one is given. Does not mutate.
    pub fn next_head_position(&self, dir: Option<Direction>) -> (r: (i32, i32))
        requires
            self@.wf(),
        ensures
            r.0 == self@.next_head(dir).x,
            r.1 == self@.next_head(dir).y,
    {
        let head_block = self.body[0];
        let moving_dir = match dir {
            Some(d) => d,
            None => self.moving_direction,
        };
        let b = next_block(head_block, moving_dir);
        (b.x, b.y)
    }

    /// Takes one step: the override direction, if given, becomes the new
    /// heading; the next head cell is pushed to the front; the tail cell
    /// is dropped and remembered as the last removed block.
    pub fn move_forward(&mut self, dir: Option<Direction>)
        requires
            old(self)@.wf(),
        ensures
            final(self)@ == spec_move(old(self)@, dir),
            final(self)@.wf(),
    {
        match dir {
            Some(d) => {
                self.moving_direction = d;
            },
            None => {},
        }
        let head_block = self.body[0];
        let new_block = next_block(head_block, self.moving_direction);
        self.body.insert(0, new_block);
        let removed = self.body.pop().unwrap();
        self.last_removed_block = Some(removed);
        proof {
            assert(self@.body =~= spec_move(old(self)@, dir).body);
            assert(removed == old(self)@.tail());
        }
    }

    /// Re-appends the most recently dropped tail cell, undoing the shrink
    /// of the move before it. The caller must have moved at least once.
    pub fn restore_last_removed(&mut self)
        requires
            old(self)@.wf(),
            old(self)@.last_removed is Some,
        ensures
            final(self)@ == spec_restore(old(self)@),
            final(self)@.wf(),
    {
        let blk = self.last_removed_block.unwrap();
        self.body.push(blk);
    }

    /// Reports whether (x, y) lies under a body cell other than the
    /// current tail: exactly the first `len - 1` cells from the head are
    /// examined.
    pub fn is_overlap_except_tail(&self, x: i32, y: i32) -> (r: bool)
        requires
            self@.wf(),
        ensures
            r == self@.overlaps_except_tail(x, y),
    {
        let mut checked: usize = 0;
        let limit: usize = self.body.len() - 1;
        while checked < limit
            invariant
                limit == self@.body.len() - 1,
                0 <= checked <= limit,
                self@.wf(),
                forall|j: int|
                    0 <= j < checked ==> !(#[trigger] self@.body[j] == (Block { x: x, y: y })),
            decreases limit - checked,
        {
            let block = self.body[checked];
            if x == block.x && y == block.y {
                return true;
            }
            checked = checked + 1;
        }
        false
    }

    /// Advances the tongue animation by the elapsed time: when the
    /// countdown runs out, the tongue flips and a fresh random countdown
    /// is drawn — 150 to 249 ms while out, 1000 to 2999 ms while in.
    pub fn update_tongue(&mut self, delta_time: u64)
        ensures
            tongue_step_ok(old(self)@, final(self)@, delta_time),
    {
        if self.tongue_timer > delta_time {
            self.tongue_timer = self.tongue_timer - delta_time;
        } else {
            self.tongue_out = !self.tongue_out;
            let ms: i64 = if self.tongue_out {
                random_in_range(150, 250)
            } else {
                random_in_range(1000, 3000)
            };
            self.tongue_timer = ms as u64;
        }
    }
}

/// Law: a forward move never changes the body length.
pub proof fn lemma_move_preserves_length(v: SnakeView, dir: Option<Direction>)
    requires
        v.wf(),
    ensures
        spec_move(v, dir).body.len() == v.body.len(),
{
}

/// Law: restoring the dropped tail right after a forward move grows the
/// body by exactly one cell.
pub proof fn lemma_restore_after_move_grows_by_one(v: SnakeView, dir: Option<Direction>)
    requires
        v.wf(),
    ensures
        spec_restore(spec_move(v, dir)).body.len() == v.body.len() + 1,
{
}

/// Law: a fresh snake has exactly three body cells, its head two cells to
/// the right of the given origin, and heads Right.
pub proof fn lemma_fresh_snake(init_x: i32, init_y: i32)
    requires
        init_x + 2 <= i32::MAX,
    ensures
        spec_snake_new(init_x, init_y).body.len() == 3,
        spec_snake_new(init_x, init_y).head() == (Block { x: (init_x + 2) as i32, y: init_y }),
        spec_snake_new(init_x, init_y).dir == Direction::Right,
{
}

/// Law: every cell under a non-tail body segment is reported as an
/// overlap.
pub proof fn lemma_overlap_hits_nontail_segment(v: SnakeView, i: int)
    requires
        v.wf(),
        0 <= i < v.body.len() - 1,
    ensures
        v.overlaps_except_tail(v.body[i].x, v.body[i].y),
{
    assert(v.body[i] == (Block { x: v.body[i].x, y: v.body[i].y }));
}

/// Law: the tail cell alone is never an overlap: when no non-tail cell
/// shares the tail's coordinate, the check rejects the tail's cell.
pub proof fn lemma_tail_cell_alone_no_overlap(v: SnakeView)
    requires
        v.wf(),
        forall|i: int| 0 <= i < v.body.len() - 1 ==> #[trigger] v.body[i] != v.tail(),
    ensures
        !v.overlaps_except_tail(v.tail().x, v.tail().y),
{
    assert(v.tail() == (Block { x: v.tail().x, y: v.tail().y }));
}

} // verus!

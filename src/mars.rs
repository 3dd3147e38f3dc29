//! The grid the rover drives on, and its rendering as text.
use vstd::prelude::*;

use crate::rover::{Orientation, Position, Rover};

verus! {

/// A square grid of `size` by `size` cells holding a set of obstacles.
///
/// The size only bounds what is rendered: positions outside it are still legal.
pub struct Mars {
    size: u32,
    obstacles: Vec<Position>,
}

/// What a grid is: its size and the cells that hold an obstacle.
pub struct MarsView {
    pub size: nat,
    pub obstacles: Set<Position>,
}

impl View for Mars {
    type V = MarsView;

    closed spec fn view(&self) -> MarsView {
        MarsView { size: self.size as nat, obstacles: self.obstacles@.to_set() }
    }
}

/// Produces a text snapshot of a grid with a rover on it.
pub trait MarsRenderer {
    fn render(&self, mars: &Mars, rover: &Rover) -> String;
}

/// Renders the grid as `size` lines of `size` glyphs, top line first.
pub struct SimpleMarsRenderer {}

impl Mars {
    /// An empty grid of the given size.
    pub fn new(size: u32) -> (r: Mars)
        ensures
            r@.size == size,
            r@.obstacles == Set::<Position>::empty(),
    {
        let r = Mars { size: size, obstacles: Vec::new() };
        assert(r@.obstacles =~= Set::<Position>::empty());
        r
    }

    /// Puts an obstacle on `position`; one already there stays.
    pub fn add_obstacle(&mut self, position: Position)
        ensures
            final(self)@.size == old(self)@.size,
            final(self)@.obstacles == old(self)@.obstacles.insert(position),
    {
        proof {
            self.obstacles@.lemma_push_to_set_commute(position);
        }
        self.obstacles.push(position);
    }

    /// Whether an obstacle stands on `position`.
    pub fn has_obstacle(&self, position: Position) -> (r: bool)
        ensures
            r == self@.obstacles.contains(position),
    {
        let mut i: usize = 0;
        while i < self.obstacles.len()
            invariant
                i <= self.obstacles@.len(),
                forall|j: int| 0 <= j < i ==> self.obstacles@[j] != position,
            decreases self.obstacles@.len() - i,
        {
            if self.obstacles[i] == position {
                assert(self.obstacles@[i as int] == position);
                return true;
            }
            i = i + 1;
        }
        false
    }
}

/// The glyph that shows a rover with the given heading.
pub open spec fn rover_glyph(o: Orientation) -> char {
    match o {
        Orientation::North => '^',
        Orientation::East => '>',
        Orientation::South => 'v',
        Orientation::West => '<',
    }
}

/// The glyph of one cell: the rover first, then an obstacle, else empty ground.
pub open spec fn cell_glyph(m: MarsView, r: Rover, p: Position) -> char {
    if p == r.position {
        rover_glyph(r.orientation)
    } else if m.obstacles.contains(p) {
        'X'
    } else {
        '.'
    }
}

/// The glyphs of the first `n` cells of line `y`, left to right.
pub open spec fn row_cells(m: MarsView, r: Rover, y: int, n: int) -> Seq<char>
    decreases n,
{
    if n <= 0 {
        Seq::empty()
    } else {
        row_cells(m, r, y, n - 1).push(cell_glyph(m, r, Position { x: (n - 1) as i32, y: y as i32 }))
    }
}

/// The top `k` lines of the grid, each ended by a newline; the top line is `y == size - 1`.
pub open spec fn top_rows(m: MarsView, r: Rover, k: int) -> Seq<char>
    decreases k,
{
    if k <= 0 {
        Seq::empty()
    } else {
        top_rows(m, r, k - 1) + row_cells(m, r, m.size - k, m.size as int).push('\n')
    }
}

/// The whole grid as text.
pub open spec fn rendering(m: MarsView, r: Rover) -> Seq<char> {
    top_rows(m, r, m.size as int)
}

/// A line of `n` cells holds `n` glyphs.
pub proof fn lemma_row_cells_len(m: MarsView, r: Rover, y: int, n: int)
    requires
        n >= 0,
    ensures
        row_cells(m, r, y, n).len() == n,
        forall|x: int|
            0 <= x < n ==> #[trigger] row_cells(m, r, y, n)[x] == cell_glyph(
                m,
                r,
                Position { x: x as i32, y: y as i32 },
            ),
    decreases n,
{
    if n > 0 {
        lemma_row_cells_len(m, r, y, n - 1);
    }
}

/// The rendering of a grid of size `n` is `n` lines of `n` glyphs, each ended by a
/// newline; line `k` from the top shows the cells with `y == n - 1 - k`, left to right.
pub proof fn lemma_rendering_shape(m: MarsView, r: Rover)
    ensures
        rendering(m, r).len() == m.size * (m.size + 1),
        forall|k: int, x: int|
            0 <= k < m.size && 0 <= x < m.size ==> #[trigger] rendering(m, r)[k * (m.size + 1)
                + x] == cell_glyph(m, r, Position { x: x as i32, y: (m.size - 1 - k) as i32 }),
        forall|k: int|
            0 <= k < m.size ==> #[trigger] rendering(m, r)[k * (m.size + 1) + m.size as int]
                == '\n',
{
    lemma_top_rows_shape(m, r, m.size as int);
}

/// The top `k` lines, as `lemma_rendering_shape` states them for the whole grid.
proof fn lemma_top_rows_shape(m: MarsView, r: Rover, k: int)
    requires
        0 <= k <= m.size,
    ensures
        top_rows(m, r, k).len() == k * (m.size + 1),
        forall|j: int, x: int|
            0 <= j < k && 0 <= x < m.size ==> #[trigger] top_rows(m, r, k)[j * (m.size + 1) + x]
                == cell_glyph(m, r, Position { x: x as i32, y: (m.size - 1 - j) as i32 }),
        forall|j: int|
            0 <= j < k ==> #[trigger] top_rows(m, r, k)[j * (m.size + 1) + m.size as int] == '\n',
    decreases k,
{
    if k > 0 {
        let w = m.size + 1;
        lemma_top_rows_shape(m, r, k - 1);
        lemma_row_cells_len(m, r, m.size - k, m.size as int);
        let prev = top_rows(m, r, k - 1);
        let line = row_cells(m, r, m.size - k, m.size as int).push('\n');
        assert(top_rows(m, r, k) == prev + line);
        assert(line.len() == w);
        assert((k - 1) * w + w == k * w) by (nonlinear_arith);
        assert forall|j: int, x: int| 0 <= j < k && 0 <= x < m.size implies #[trigger] top_rows(
            m,
            r,
            k,
        )[j * w + x] == cell_glyph(m, r, Position { x: x as i32, y: (m.size - 1 - j) as i32 }) by {
            if j < k - 1 {
                assert(j * w + x < (k - 1) * w) by (nonlinear_arith)
                    requires
                        0 <= j < k - 1,
                        0 <= x < w - 1,
                ;
            } else {
                assert(j * w == (k - 1) * w);
            }
        }
        assert forall|j: int| 0 <= j < k implies #[trigger] top_rows(m, r, k)[j * w
            + m.size as int] == '\n' by {
            if j < k - 1 {
                assert(j * w + m.size < (k - 1) * w) by (nonlinear_arith)
                    requires
                        0 <= j < k - 1,
                        w == m.size + 1,
                ;
            } else {
                assert(j * w == (k - 1) * w);
            }
        }
    } else {
        assert(k * (m.size + 1) == 0) by (nonlinear_arith)
            requires
                k == 0,
        ;
    }
}

impl SimpleMarsRenderer {
    pub fn new() -> SimpleMarsRenderer {
        SimpleMarsRenderer {}
    }

    /// The grid as text: `size` lines of `size` glyphs, from the top line down.
    pub fn render(&self, mars: &Mars, rover: &Rover) -> (r: String)
        ensures
            r@ == rendering(mars@, *rover),
    {
        let mut text = String::new();
        let mut k: u32 = 0;
        while k < mars.size
            invariant
                k <= mars.size,
                text@ == top_rows(mars@, *rover, k as int),
            decreases mars.size - k,
        {
            let y: u32 = mars.size - 1 - k;
            let ghost before = text@;
            let mut x: u32 = 0;
            while x < mars.size
                invariant
                    x <= mars.size,
                    k < mars.size,
                    y == mars.size - 1 - k,
                    text@ == before + row_cells(mars@, *rover, y as int, x as int),
                decreases mars.size - x,
            {
                let cell = self.render_cell(Position { x: x as i32, y: y as i32 }, mars, rover);
                text.append(cell);
                x = x + 1;
            }
            let newline = "\n";
            proof {
                reveal_strlit("\n");
            }
            text.append(newline);
            k = k + 1;
        }
        text
    }

    /// The one-glyph text of the cell at `position`.
    pub fn render_cell(&self, position: Position, mars: &Mars, rover: &Rover) -> (r: &str)
        ensures
            r@ == seq![cell_glyph(mars@, *rover, position)],
    {
        if position == rover.position {
            self.render_rover(rover)
        } else if mars.has_obstacle(position) {
            proof {
                reveal_strlit("X");
            }
            "X"
        } else {
            proof {
                reveal_strlit(".");
            }
            "."
        }
    }

    /// The one-glyph text of the rover.
    pub fn render_rover(&self, rover: &Rover) -> (r: &str)
        ensures
            r@ == seq![rover_glyph(rover.orientation)],
    {
        proof {
            reveal_strlit("^");
            reveal_strlit(">");
            reveal_strlit("v");
            reveal_strlit("<");
        }
        match rover.orientation {
            Orientation::North => "^",
            Orientation::East => ">",
            Orientation::West => "<",
            Orientation::South => "v",
        }
    }
}

impl MarsRenderer for SimpleMarsRenderer {
    fn render(&self, mars: &Mars, rover: &Rover) -> String {
        SimpleMarsRenderer::render(self, mars, rover)
    }
}

} // verus!

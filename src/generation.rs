//! Generation representation.
use vstd::prelude::*;

use crate::cell::{Cell, SimpleCell};
use crate::result::Error;

verus! {

/// Represents a cell's generation. Generation is a 2D grid of Cells, stored
/// row by row: the cell at (x, y) sits at position `y * width + x`.
#[derive(Debug, PartialEq)]
pub struct Generation<T> where T: Cell {
    width: u64,
    height: u64,
    cells: Vec<T>,
}

/// The row-major position `y * width + x`, computed without overflow.
fn linear_position(x: u64, y: u64, width: u64) -> (r: u128)
    ensures
        r == y * width + x,
{
    proof {
        assert(y * width <= u64::MAX * u64::MAX) by (nonlinear_arith)
            requires
                y <= u64::MAX,
                width <= u64::MAX,
        ;
    }
    (y as u128) * (width as u128) + (x as u128)
}

/// Represents a Generation made of SimpleCells.
pub type SimpleGeneration = Generation<SimpleCell>;

impl<T> Generation<T> where T: Cell {
    /// The number of columns.
    pub closed spec fn spec_width(&self) -> u64 {
        self.width
    }

    /// The number of rows.
    pub closed spec fn spec_height(&self) -> u64 {
        self.height
    }

    /// The cells, row by row.
    pub closed spec fn cells(&self) -> Seq<T> {
        self.cells@
    }

    /// Both dimensions are at least 3 and there is one cell per coordinate.
    pub open spec fn wf(&self) -> bool {
        &&& self.spec_width() >= 3
        &&& self.spec_height() >= 3
        &&& self.cells().len() == self.spec_width() * self.spec_height()
        &&& self.cells().len() <= usize::MAX
    }

    /// The position in `cells()` that (x, y) addresses.
    pub open spec fn position(&self, x: int, y: int) -> int {
        y * self.spec_width() + x
    }

    /// Whether (x, y) addresses a cell of the generation.
    pub open spec fn holds(&self, x: int, y: int) -> bool {
        0 <= self.position(x, y) < self.cells().len()
    }

    /// Whether the cell at (x, y) is alive.
    pub open spec fn alive_at(&self, x: int, y: int) -> bool {
        self.cells()[self.position(x, y)].alive()
    }

    /// In a well-formed generation every coordinate inside the grid addresses
    /// a cell.
    pub proof fn lemma_inside_holds(&self, x: int, y: int)
        requires
            self.wf(),
            0 <= x < self.spec_width(),
            0 <= y < self.spec_height(),
        ensures
            self.holds(x, y),
    {
        let w = self.spec_width() as int;
        let h = self.spec_height() as int;
        assert(y * w + x < w * h) by (nonlinear_arith)
            requires
                0 <= x < w,
                0 <= y < h,
        ;
        assert(0 <= y * w) by (nonlinear_arith)
            requires
                0 <= y,
                0 <= w,
        ;
    }

    /// The extent of a well-formed generation: the last cell (width - 1,
    /// height - 1) is present, while (width, height), and any coordinate whose
    /// position `y * width + x` exceeds `width * height`, addresses no cell.
    pub proof fn lemma_extent(&self)
        requires
            self.wf(),
        ensures
            self.holds(self.spec_width() - 1, self.spec_height() - 1),
            !self.holds(self.spec_width() as int, self.spec_height() as int),
            forall|x: int, y: int|
                #![trigger self.position(x, y)]
                self.position(x, y) > self.spec_width() * self.spec_height() ==> !self.holds(x, y),
    {
        let w = self.spec_width() as int;
        let h = self.spec_height() as int;
        self.lemma_inside_holds(w - 1, h - 1);
        assert(h * w + w >= h * w) by (nonlinear_arith)
            requires
                w >= 0,
        ;
    }

    /// Creates a new generation, all of whose cells are dead.
    pub fn new(width: u64, height: u64) -> (r: Result<Self, Error>)
        requires
            width * height <= usize::MAX,
        ensures
            r is Ok <==> (width >= 3 && height >= 3),
            r is Err ==> r == Err::<Self, Error>(Error::InvalidDimensionError),
            r matches Ok(g) ==> {
                &&& g.wf()
                &&& g.spec_width() == width
                &&& g.spec_height() == height
                &&& forall|i: int| 0 <= i < g.cells().len() ==> !(#[trigger] g.cells()[i]).alive()
            },
    {
        if width < 3 || height < 3 {
            return Err(Error::InvalidDimensionError);
        }
        let size = (width * height) as usize;
        let mut cells: Vec<T> = Vec::with_capacity(size);
        while cells.len() < size
            invariant
                cells@.len() <= size,
                forall|i: int| 0 <= i < cells@.len() ==> !(#[trigger] cells@[i]).alive(),
            decreases size - cells@.len(),
        {
            cells.push(T::dead());
        }
        Ok(Generation { width, height, cells })
    }

    /// Gets width value.
    pub fn width(&self) -> (r: u64)
        ensures
            r == self.spec_width(),
    {
        self.width
    }

    /// Gets height value.
    pub fn height(&self) -> (r: u64)
        ensures
            r == self.spec_height(),
    {
        self.height
    }

    /// Retrieves a &Cell from Generation's (x, y) position, or None where
    /// `y * width + x` lies past the last cell. The position `width * height`
    /// itself is past the last cell, so `cell(0, height)` is None.
    pub fn cell(&self, x: u64, y: u64) -> (r: Option<&T>)
        ensures
            self.holds(x as int, y as int) ==> r == Some(&self.cells()[self.position(x as int, y as int)]),
            !self.holds(x as int, y as int) ==> r is None,
    {
        let position = linear_position(x, y, self.width);
        if position >= self.cells.len() as u128 {
            return None;
        }
        Some(&self.cells[position as usize])
    }

    /// Retrieves a mutable &Cell from Generation's (x, y) position, under the
    /// same rule as `cell`.
    pub fn cell_mut(&mut self, x: u64, y: u64) -> (r: Option<&mut T>)
        ensures
            final(self).spec_width() == old(self).spec_width(),
            final(self).spec_height() == old(self).spec_height(),
            old(self).holds(x as int, y as int) ==> {
                &&& r is Some
                &&& *r.unwrap() == old(self).cells()[old(self).position(x as int, y as int)]
                &&& final(self).cells() == old(self).cells().update(
                    old(self).position(x as int, y as int),
                    *final(r.unwrap()),
                )
            },
            !old(self).holds(x as int, y as int) ==> r is None && *final(self) == *old(self),
    {
        let position = linear_position(x, y, self.width);
        if position >= self.cells.len() as u128 {
            return None;
        }
        Some(&mut self.cells[position as usize])
    }
}

} // verus!

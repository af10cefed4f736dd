//! Cell representations.
use vstd::prelude::*;

verus! {

/// What a generation needs of its cells: a live or dead flag, ways to change
/// it, and a dead cell to start from.
///
/// This crate provides SimpleCell as a default implementation.
pub trait Cell: Sized {
    /// Whether the cell is alive.
    spec fn alive(&self) -> bool;

    /// A dead cell.
    fn dead() -> (r: Self)
        ensures
            !r.alive(),
    ;

    /// Returns if the cell is alive or not.
    fn is_alive(&self) -> (r: bool)
        ensures
            r == self.alive(),
    ;

    /// Turns the cell alive.
    fn spawn(&mut self)
        ensures
            final(self).alive(),
    ;

    /// Turns the cell dead.
    fn kill(&mut self)
        ensures
            !final(self).alive(),
    ;
}

/// Represents the state of a SimpleCell.
#[derive(Debug, Clone, Copy, PartialEq, Eq, Structural)]
enum State {
    Alive,
    Dead,
}

/// Default representation of a cell.
#[derive(Debug, PartialEq, Eq, Structural)]
pub struct SimpleCell {
    state: State,
}

impl View for SimpleCell {
    type V = bool;

    /// Whether the cell is alive.
    closed spec fn view(&self) -> bool {
        self.state == State::Alive
    }
}

impl SimpleCell {
    /// Creates a new SimpleCell alive or dead.
    pub fn new(alive: bool) -> (r: Self)
        ensures
            r@ == alive,
    {
        let state = if alive {
            State::Alive
        } else {
            State::Dead
        };
        SimpleCell { state }
    }
}

impl Default for SimpleCell {
    fn default() -> (r: Self)
        ensures
            !r@,
    {
        SimpleCell { state: State::Dead }
    }
}

impl Cell for SimpleCell {
    open spec fn alive(&self) -> bool {
        self@
    }

    fn dead() -> (r: Self) {
        SimpleCell { state: State::Dead }
    }

    /// Returns if the SimpleCell is alive or not.
    fn is_alive(&self) -> (r: bool) {
        self.state == State::Alive
    }

    /// Turns the SimpleCell alive.
    fn spawn(&mut self) {
        self.state = State::Alive;
    }

    /// Turns the SimpleCell dead.
    fn kill(&mut self) {
        self.state = State::Dead;
    }
}

/// Spawning and killing are idempotent on a SimpleCell. Let `spawned` be any
/// cell that `spawn` may leave (a live one) and `killed` any cell that `kill`
/// may leave (a dead one). Spawning a live cell leaves it as it was; killing a
/// dead cell leaves it as it was, so a dead cell spawned and then killed is
/// the cell it was before.
pub proof fn lemma_spawn_kill_idempotent(c: SimpleCell, spawned: SimpleCell, killed: SimpleCell)
    requires
        spawned.alive(),
        !killed.alive(),
    ensures
        c.alive() ==> spawned == c,
        !c.alive() ==> killed == c,
{
}

} // verus!

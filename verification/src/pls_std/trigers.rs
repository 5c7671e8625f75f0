//! Edge-detecting triggers and a reset-dominant latch.

use vstd::prelude::*;

verus! {

/// Rising-edge trigger: `q` holds for exactly one `run` call after the
/// input goes from `false` to `true`.
pub struct RTrig {
    pub clk: bool,
    pub q: bool,
}

impl RTrig {
    pub fn new() -> (r: Self)
        ensures
            !r.clk,
            !r.q,
    {
        Self { clk: false, q: false }
    }

    pub fn get_q(&self) -> (r: bool)
        ensures
            r == self.q,
    {
        self.q
    }

    pub fn run(&mut self, clk: bool)
        ensures
            final(self).q == (clk && !old(self).clk),
            final(self).clk == clk,
    {
        self.q = clk && !self.clk;
        self.clk = clk;
    }
}

/// Falling-edge trigger: `q` holds for exactly one `run` call after the
/// input goes from `true` to `false`.
pub struct FTrig {
    pub clk: bool,
    pub q: bool,
}

impl FTrig {
    pub fn new() -> (r: Self)
        ensures
            !r.clk,
            !r.q,
    {
        Self { clk: false, q: false }
    }

    pub fn get_q(&self) -> (r: bool)
        ensures
            r == self.q,
    {
        self.q
    }

    pub fn run(&mut self, clk: bool)
        ensures
            final(self).q == (!clk && old(self).clk),
            final(self).clk == clk,
    {
        self.q = !clk && self.clk;
        self.clk = clk;
    }
}

/// Set/reset latch with reset dominance: `q` becomes true on `set`,
/// stays true until `reset`, and `reset` wins when both are given.
pub struct Rs {
    pub set: bool,
    pub reset: bool,
    pub q: bool,
}

impl Rs {
    pub fn new() -> (r: Self)
        ensures
            !r.set,
            !r.reset,
            !r.q,
    {
        Self { set: false, reset: false, q: false }
    }

    pub fn get_q(&self) -> (r: bool)
        ensures
            r == self.q,
    {
        self.q
    }

    pub fn run(&mut self, set: bool, reset: bool)
        ensures
            final(self).q == ((set || old(self).q) && !reset),
            final(self).set == set,
            final(self).reset == reset,
    {
        self.q = (set || self.q) && !reset;
        self.set = set;
        self.reset = reset;
    }
}

} // verus!

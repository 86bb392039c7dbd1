use vstd::prelude::*;

verus! {

/// Number of cells in the global table: one for every 16-bit id.
pub const GLOBAL_COUNT: usize = 0x10000;

/// The global variable table shared by every script: raw 32-bit cells with
/// no kind of their own (the opcode that reads a cell decides how). A new
/// table has a cell for every 16-bit id.
pub struct Globals {
    cells: Vec<u32>,
}

impl View for Globals {
    type V = Seq<u32>;

    closed spec fn view(&self) -> Seq<u32> {
        self.cells@
    }
}

impl Globals {
    /// A table of zeroed cells.
    pub fn new() -> (r: Globals)
        ensures
            r@ == Seq::new(GLOBAL_COUNT as nat, |i: int| 0u32),
    {
        let mut cells: Vec<u32> = Vec::new();
        let mut i: usize = 0;
        while i < GLOBAL_COUNT
            invariant
                i <= GLOBAL_COUNT,
                cells@ == Seq::new(i as nat, |k: int| 0u32),
            decreases GLOBAL_COUNT - i,
        {
            cells.push(0);
            i = i + 1;
            assert(cells@ =~= Seq::new(i as nat, |k: int| 0u32));
        }
        Globals { cells }
    }

    pub fn len(&self) -> (r: usize)
        ensures
            r == self@.len(),
    {
        self.cells.len()
    }

    /// The cell `id`, if there is one.
    pub fn get(&self, id: usize) -> (r: Option<u32>)
        ensures
            r == (if id < self@.len() { Some(self@[id as int]) } else { None::<u32> }),
    {
        if id < self.cells.len() {
            Some(self.cells[id])
        } else {
            None
        }
    }

    /// Stores `v` in cell `id`; false where there is no such cell.
    pub fn set(&mut self, id: usize, v: u32) -> (r: bool)
        ensures
            r == (id < old(self)@.len()),
            final(self)@ == (if r { old(self)@.update(id as int, v) } else { old(self)@ }),
    {
        if id < self.cells.len() {
            self.cells.set(id, v);
            true
        } else {
            false
        }
    }
}

} // verus!

//! Assignment state for witness synthesis: named, sequentially numbered
//! regions, each carrying a per-wire row cursor and the list of cells
//! assigned so far.  A fresh context is built for every synthesis call.
use vstd::prelude::*;
use crate::field::Fe;

verus! {

/// The five advice (private witness) wire columns.
#[derive(Clone, Copy, Debug, PartialEq, Eq, Structural)]
pub enum Col {
    /// Point x-coordinate wire.
    X,
    /// Point y-coordinate wire.
    Y,
    /// Signature `r` wire.
    R,
    /// Signature `s` wire.
    S,
    /// Wire for the witnessed inverse of `s`.
    W,
}

/// The purpose of an assignment region; regions are entered in this order.
#[derive(Clone, Copy, Debug, PartialEq, Eq, Structural)]
pub enum RegionKind {
    /// Public key, signature, inverse witness, `u1`, `u2`, and generator.
    MainAssignments,
    /// Scalar multiplication of the generator by `u1`.
    GeneratorMult,
    /// Scalar multiplication of the public key by `u2`.
    PublicKeyMult,
    /// The final chord addition of the two products.
    FinalAddition,
}

impl RegionKind {
    /// A human-readable scope name for diagnostics.
    pub fn label(&self) -> (r: &'static str)
        ensures
            (*self is MainAssignments) ==> r@ == "main assignments"@,
            (*self is GeneratorMult) ==> r@ == "g_mult"@,
            (*self is PublicKeyMult) ==> r@ == "pk_mult"@,
            (*self is FinalAddition) ==> r@ == "final addition"@,
    {
        match self {
            RegionKind::MainAssignments => "main assignments",
            RegionKind::GeneratorMult => "g_mult",
            RegionKind::PublicKeyMult => "pk_mult",
            RegionKind::FinalAddition => "final addition",
        }
    }
}

/// One resolved cell: a column, a region-local row, and the assigned value.
#[derive(Clone, Copy, Debug, PartialEq, Eq, Structural)]
pub struct CellAssign {
    /// The wire the value sits on.
    pub col: Col,
    /// The region-local row index.
    pub row: u64,
    /// The assigned field element.
    pub val: Fe,
}

/// Assignment context for one region.
pub struct RegionCtx {
    /// What this region is for.
    pub kind: RegionKind,
    /// The region's sequential number within the synthesis call.
    pub index: usize,
    /// Cells assigned so far, in assignment order.
    pub cells: Vec<CellAssign>,
    /// Next free row of the `X` wire.
    pub cur_x: u64,
    /// Next free row of the `Y` wire.
    pub cur_y: u64,
}

impl RegionCtx {
    /// Every assigned value is a canonical field element.
    pub open spec fn wf(&self) -> bool {
        forall|i: int| 0 <= i < self.cells@.len() ==> (#[trigger] self.cells@[i]).val.wf()
    }

    /// A fresh, empty region.
    pub fn new(kind: RegionKind, index: usize) -> (r: RegionCtx)
        ensures
            r.kind == kind,
            r.index == index,
            r.cells@.len() == 0,
            r.cur_x == 0,
            r.cur_y == 0,
            r.wf(),
    {
        RegionCtx { kind, index, cells: Vec::new(), cur_x: 0, cur_y: 0 }
    }

    /// Records a value at an explicit row of a wire.
    pub fn assign_at(&mut self, col: Col, row: u64, val: Fe)
        ensures
            final (self).cells@ == old(self).cells@.push((CellAssign { col, row, val })),
            final (self).kind == old(self).kind,
            final (self).index == old(self).index,
            final (self).cur_x == old(self).cur_x,
            final (self).cur_y == old(self).cur_y,
            old(self).wf() && val.wf() ==> final (self).wf(),
    {
        self.cells.push(CellAssign { col, row, val });
    }

    /// Records an x/y coordinate pair at the next free row of the two point
    /// wires, advancing both cursors together.
    pub fn assign_point_pair(&mut self, x: Fe, y: Fe) -> (row: u64)
        requires
            old(self).cur_x < 0xffff_ffff_ffff_ffff,
            old(self).cur_x == old(self).cur_y,
        ensures
            row == old(self).cur_x,
            final (self).cells@ == old(self).cells@.push((CellAssign { col: Col::X, row, val: x }))
                .push((CellAssign { col: Col::Y, row, val: y })),
            final (self).kind == old(self).kind,
            final (self).index == old(self).index,
            final (self).cur_x == row + 1,
            final (self).cur_y == row + 1,
            old(self).wf() && x.wf() && y.wf() ==> final (self).wf(),
    {
        let row = self.cur_x;
        self.cells.push(CellAssign { col: Col::X, row, val: x });
        self.cells.push(CellAssign { col: Col::Y, row, val: y });
        self.cur_x = row + 1;
        self.cur_y = row + 1;
        row
    }
}

/// The value a wire holds at a row, taking the latest assignment; `None`
/// where the cell was never assigned.
pub open spec fn cell_value(cells: Seq<CellAssign>, col: Col, row: u64) -> Option<Fe>
    decreases cells.len(),
{
    if cells.len() == 0 {
        None
    } else if cells.last().col == col && cells.last().row == row {
        Some(cells.last().val)
    } else {
        cell_value(cells.drop_last(), col, row)
    }
}

/// Looks up the latest assignment of a cell.
pub fn find_cell(cells: &Vec<CellAssign>, col: Col, row: u64) -> (r: Option<Fe>)
    ensures
        r == cell_value(cells@, col, row),
{
    let mut i: usize = cells.len();
    proof {
        assert(cells@.subrange(0, i as int) =~= cells@);
    }
    while i > 0
        invariant
            i <= cells@.len(),
            cell_value(cells@, col, row) == cell_value(cells@.subrange(0, i as int), col, row),
        decreases i,
    {
        let idx = i - 1;
        let c = cells[idx];
        proof {
            let pre = cells@.subrange(0, i as int);
            assert(pre.last() == cells@[idx as int]);
            assert(pre.drop_last() =~= cells@.subrange(0, idx as int));
        }
        if c.col == col && c.row == row {
            return Some(c.val);
        }
        i = idx;
    }
    proof {
        assert(cells@.subrange(0, 0).len() == 0);
    }
    None
}

/// The full output of one synthesis call: the regions in entry order and the
/// selector-enabled rows, each given as a region number and a region-local
/// row.
pub struct Assignment {
    /// The four regions, in the order they were entered.
    pub regions: Vec<RegionCtx>,
    /// Rows at which the verification gate is enabled.
    pub enabled: Vec<(usize, u64)>,
}

impl Assignment {
    /// Every region holds only canonical values.
    pub open spec fn wf(&self) -> bool {
        forall|i: int| 0 <= i < self.regions@.len() ==> (#[trigger] self.regions@[i]).wf()
    }
}

} // verus!

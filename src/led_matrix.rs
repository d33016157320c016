use vstd::prelude::*;

verus! {

/// The two kinds of matrix line: anodes select columns, cathodes select rows.
#[derive(Clone, Copy, Debug, PartialEq, Eq, Structural)]
pub enum MatrixLine {
    Anode,
    Cathode,
}

/// Driving matrix line `index` of one kind to one level. A cathode driven low
/// lights its row; driven high it is off.
#[derive(Clone, Copy, Debug, PartialEq, Eq, Structural)]
pub struct MatrixWrite {
    pub line: MatrixLine,
    pub index: usize,
    pub high: bool,
}

/// What a matrix is: its size, its bitmap (bit `width * y + x` is point `(x, y)`),
/// how many anode and cathode lines it drives, the row under scan, and the line
/// writes made since they were last taken.
pub struct MatrixView {
    pub width: u8,
    pub height: u8,
    pub data: u8,
    pub anodes: nat,
    pub cathodes: nat,
    pub row: nat,
    pub writes: Seq<MatrixWrite>,
}

pub open spec fn matrix_wf(v: MatrixView) -> bool {
    &&& v.width <= 8
    &&& v.height <= 8
    &&& v.anodes <= 8
    &&& v.cathodes <= 8
    &&& (v.row == 0 || v.row < v.height)
}

/// Whether bit `pos` of the bitmap is set; the bitmap has eight bits.
pub open spec fn bit_set(data: u8, pos: int) -> bool {
    0 <= pos < 8 && (data >> (pos as u8)) & 1u8 == 1u8
}

/// Whether point `(x, y)` is lit: it lies inside the matrix and its bit is set.
pub open spec fn point_lit(v: MatrixView, x: int, y: int) -> bool {
    0 <= x < v.width && 0 <= y < v.height && bit_set(v.data, v.width * y + x)
}

/// The bitmap after setting or clearing point `(x, y)`; points outside the
/// matrix or the eight bits leave it as it is.
pub open spec fn set_point(v: MatrixView, x: int, y: int, value: bool) -> u8 {
    let pos = v.width * y + x;
    if 0 <= x < v.width && 0 <= y < v.height && pos < 8 {
        if value {
            v.data | (1u8 << (pos as u8))
        } else {
            v.data & !(1u8 << (pos as u8))
        }
    } else {
        v.data
    }
}

pub open spec fn cathode_write(index: int, high: bool) -> MatrixWrite {
    MatrixWrite { line: MatrixLine::Cathode, index: index as usize, high }
}

pub open spec fn anode_write(index: int, high: bool) -> MatrixWrite {
    MatrixWrite { line: MatrixLine::Anode, index: index as usize, high }
}

/// Every cathode off.
pub open spec fn cathodes_off(count: nat) -> Seq<MatrixWrite> {
    Seq::new(count, |i: int| cathode_write(i, true))
}

/// Each anode driven high exactly when its point of row `row` is lit.
pub open spec fn anode_levels(v: MatrixView, row: int) -> Seq<MatrixWrite> {
    Seq::new(v.anodes, |i: int| anode_write(i, point_lit(v, i, row)))
}

/// Whether any anode lights in row `row`.
pub open spec fn row_has_light(v: MatrixView, row: int) -> bool {
    exists|i: int| 0 <= i < v.anodes && point_lit(v, i, row)
}

/// The writes that scan row `row`: all cathodes off, the anodes set, then the
/// row's cathode on if anything in the row is lit and the row has a cathode.
pub open spec fn row_writes(v: MatrixView, row: int) -> Seq<MatrixWrite> {
    cathodes_off(v.cathodes) + anode_levels(v, row) + if row_has_light(v, row) && row < v.cathodes {
        seq![cathode_write(row, false)]
    } else {
        Seq::empty()
    }
}

/// One scan step: light the current row, move to the next and report when the
/// last row has been scanned.
pub open spec fn matrix_step(v: MatrixView) -> (MatrixView, bool) {
    let w = v.writes + row_writes(v, v.row as int);
    if v.row + 1 >= v.height {
        (MatrixView { writes: w, row: 0, ..v }, true)
    } else {
        (MatrixView { writes: w, row: v.row + 1, ..v }, false)
    }
}

/// The matrix with point `(x, y)` set or cleared as `set_point` says.
pub open spec fn set_view(v: MatrixView, x: int, y: int, value: bool) -> MatrixView {
    MatrixView { data: set_point(v, x, y, value), ..v }
}

pub open spec fn data_view(v: MatrixView, data: u8) -> MatrixView {
    MatrixView { data, ..v }
}

/// The LED matrix multiplexer: at most eight by eight points over an eight-bit
/// bitmap, scanned one row per step.
pub struct LEDMatrix {
    width: u8,
    height: u8,
    data: u8,
    anodes_count: usize,
    cathodes_count: usize,
    update_step: usize,
    writes: Vec<MatrixWrite>,
}

impl View for LEDMatrix {
    type V = MatrixView;

    closed spec fn view(&self) -> MatrixView {
        MatrixView {
            width: self.width,
            height: self.height,
            data: self.data,
            anodes: self.anodes_count as nat,
            cathodes: self.cathodes_count as nat,
            row: self.update_step as nat,
            writes: self.writes@,
        }
    }
}

impl LEDMatrix {
    pub open spec fn wf(&self) -> bool {
        matrix_wf(self@)
    }

    /// An unlit matrix of `width` by `height` points with no lines yet.
    pub fn create(width: u8, height: u8) -> (m: LEDMatrix)
        requires
            width <= 8,
            height <= 8,
        ensures
            m.wf(),
            m@ == (MatrixView { width, height, data: 0, anodes: 0, cathodes: 0, row: 0, writes: Seq::empty() }),
    {
        LEDMatrix {
            width,
            height,
            data: 0,
            anodes_count: 0,
            cathodes_count: 0,
            update_step: 0,
            writes: Vec::new(),
        }
    }

    fn get_position(width: u8, x: u8, y: u8) -> (r: u8)
        requires
            width <= 8,
            x < 8,
            y < 8,
        ensures
            r == width * y + x,
    {
        assert(width * y <= 56) by (nonlinear_arith)
            requires
                width <= 8,
                y < 8,
        ;
        width * y + x
    }

    pub fn data(&self) -> (r: u8)
        ensures
            r == self@.data,
    {
        self.data
    }

    pub fn set_data(&mut self, data: u8)
        requires
            old(self).wf(),
        ensures
            final(self).wf(),
            final(self)@ == data_view(old(self)@, data),
    {
        self.data = data;
    }

    /// Lights (`value`) or darkens point `(x, y)`; a point outside the matrix is ignored.
    pub fn set(&mut self, x: u8, y: u8, value: bool)
        requires
            old(self).wf(),
        ensures
            final(self).wf(),
            final(self)@ == set_view(old(self)@, x as int, y as int, value),
    {
        if x >= self.width || y >= self.height {
            return;
        }
        let pos = Self::get_position(self.width, x, y);
        if pos >= 8 {
            return;
        }
        let mask: u8 = 1u8 << pos;
        if value {
            self.data = self.data | mask;
        } else {
            self.data = self.data & !mask;
        }
    }

    /// Registers the next anode line, which drives column `anodes` of the view.
    pub fn add_anode(&mut self)
        requires
            old(self).wf(),
            old(self)@.anodes < 8,
        ensures
            final(self).wf(),
            final(self)@ == (MatrixView { anodes: old(self)@.anodes + 1, ..old(self)@ }),
    {
        self.anodes_count = self.anodes_count + 1;
    }

    /// Registers the next cathode line, which drives row `cathodes` of the view.
    pub fn add_cathode(&mut self)
        requires
            old(self).wf(),
            old(self)@.cathodes < 8,
        ensures
            final(self).wf(),
            final(self)@ == (MatrixView { cathodes: old(self)@.cathodes + 1, ..old(self)@ }),
    {
        self.cathodes_count = self.cathodes_count + 1;
    }

    fn point_on(&self, x: usize, row: usize) -> (r: bool)
        requires
            self.wf(),
            x < 8,
            row < 8,
        ensures
            r == point_lit(self@, x as int, row as int),
    {
        if x >= self.width as usize || row >= self.height as usize {
            return false;
        }
        let pos = Self::get_position(self.width, x as u8, row as u8);
        pos < 8 && (self.data >> pos) & 1u8 == 1u8
    }

    /// Scans the current row; returns whether that was the last row of the sweep.
    pub fn step(&mut self) -> (complete: bool)
        requires
            old(self).wf(),
        ensures
            final(self).wf(),
            (final(self)@, complete) == matrix_step(old(self)@),
    {
        let ghost start = self@;
        let row = self.update_step;
        let mut x: usize = 0;
        while x < self.cathodes_count
            invariant
                self@ == (MatrixView { writes: self@.writes, ..start }),
                matrix_wf(start),
                row == start.row,
                x <= start.cathodes,
                self@.writes == start.writes + cathodes_off(x as nat),
            decreases start.cathodes - x,
        {
            self.writes.push(MatrixWrite { line: MatrixLine::Cathode, index: x, high: true });
            assert(self@.writes =~= start.writes + cathodes_off((x + 1) as nat));
            x = x + 1;
        }
        let mut any_anode = false;
        let mut x: usize = 0;
        while x < self.anodes_count
            invariant
                self@ == (MatrixView { writes: self@.writes, ..start }),
                matrix_wf(start),
                row == start.row,
                x <= start.anodes,
                self@.writes == start.writes + cathodes_off(start.cathodes) + Seq::new(
                    x as nat,
                    |i: int| anode_write(i, point_lit(start, i, row as int)),
                ),
                any_anode == exists|i: int| 0 <= i < x && point_lit(start, i, row as int),
            decreases start.anodes - x,
        {
            let lit = self.point_on(x, row);
            self.writes.push(MatrixWrite { line: MatrixLine::Anode, index: x, high: lit });
            if lit {
                any_anode = true;
                assert(point_lit(start, x as int, row as int));
            } else {
                assert forall|i: int| 0 <= i < x + 1 && point_lit(start, i, row as int) implies 0 <= i < x by {}
            }
            assert(self@.writes =~= start.writes + cathodes_off(start.cathodes) + Seq::new(
                (x + 1) as nat,
                |i: int| anode_write(i, point_lit(start, i, row as int)),
            ));
            x = x + 1;
        }
        assert(Seq::new(start.anodes, |i: int| anode_write(i, point_lit(start, i, row as int))) =~= anode_levels(
            start,
            row as int,
        ));
        if any_anode && row < self.cathodes_count {
            self.writes.push(MatrixWrite { line: MatrixLine::Cathode, index: row, high: false });
        }
        assert(self@.writes =~= start.writes + row_writes(start, row as int));
        self.update_step = self.update_step + 1;
        if self.update_step >= self.height as usize {
            self.update_step = 0;
            return true;
        }
        false
    }

    /// Darkens every point.
    pub fn clear(&mut self)
        requires
            old(self).wf(),
        ensures
            final(self).wf(),
            final(self)@ == data_view(old(self)@, 0),
    {
        self.data = 0;
    }

    /// Hands out the recorded line writes, oldest first, and forgets them.
    pub fn take_writes(&mut self) -> (w: Vec<MatrixWrite>)
        requires
            old(self).wf(),
        ensures
            final(self).wf(),
            w@ == old(self)@.writes,
            final(self)@ == (MatrixView { writes: Seq::empty(), ..old(self)@ }),
    {
        let mut w: Vec<MatrixWrite> = Vec::new();
        std::mem::swap(&mut w, &mut self.writes);
        w
    }
}

} // verus!

verus! {

/// `n` scan steps in a row: the state after them and what each returned.
pub open spec fn matrix_run(v: MatrixView, n: nat) -> (MatrixView, Seq<bool>)
    decreases n,
{
    if n == 0 {
        (v, Seq::empty())
    } else {
        let (v1, rs) = matrix_run(v, (n - 1) as nat);
        let (v2, r) = matrix_step(v1);
        (v2, rs.push(r))
    }
}

/// The writes that scan rows `0..k`, in order.
pub open spec fn scan_writes(v: MatrixView, k: nat) -> Seq<MatrixWrite>
    decreases k,
{
    if k == 0 {
        Seq::empty()
    } else {
        scan_writes(v, (k - 1) as nat) + row_writes(v, k - 1)
    }
}

proof fn lemma_scan_prefix(v: MatrixView, k: nat)
    requires
        matrix_wf(v),
        v.row == 0,
        1 <= k <= v.height,
    ensures
        matrix_run(v, k).0 == (MatrixView {
            writes: v.writes + scan_writes(v, k),
            row: if k == v.height { 0 } else { k },
            ..v
        }),
        matrix_run(v, k).1 == Seq::new((k - 1) as nat, |i: int| false).push(k == v.height),
    decreases k,
{
    if k == 1 {
        assert(scan_writes(v, 1) =~= row_writes(v, 0));
        assert(matrix_run(v, 1).1 =~= Seq::new(0, |i: int| false).push(1 == v.height));
    } else {
        lemma_scan_prefix(v, (k - 1) as nat);
        let prev = matrix_run(v, (k - 1) as nat).0;
        assert(row_writes(prev, (k - 1) as int) == row_writes(v, (k - 1) as int)) by {
            assert(forall|i: int| #[trigger] point_lit(prev, i, (k - 1) as int) == point_lit(v, i, (k - 1) as int));
            let r = (k - 1) as int;
            if row_has_light(prev, r) {
                let i = choose|i: int| 0 <= i < prev.anodes && point_lit(prev, i, r);
                assert(point_lit(v, i, r));
            }
            if row_has_light(v, r) {
                let i = choose|i: int| 0 <= i < v.anodes && point_lit(v, i, r);
                assert(point_lit(prev, i, r));
            }
            assert(anode_levels(prev, (k - 1) as int) =~= anode_levels(v, (k - 1) as int));
        }
        assert(matrix_run(v, k).0.writes =~= v.writes + scan_writes(v, k));
        assert(matrix_run(v, k).1 =~= Seq::new((k - 1) as nat, |i: int| false).push(k == v.height));
    }
}

/// A scan from the first row takes one step per row: it scans every row once, in
/// order, reports completion on its last step and on no other, and ends back at
/// the first row with the bitmap untouched.
pub proof fn lemma_matrix_sweep(v: MatrixView)
    requires
        matrix_wf(v),
        v.row == 0,
        v.height >= 1,
    ensures
        matrix_run(v, v.height as nat).0 == (MatrixView {
            writes: v.writes + scan_writes(v, v.height as nat),
            ..v
        }),
        matrix_run(v, v.height as nat).1 == Seq::new((v.height - 1) as nat, |i: int| false).push(true),
{
    lemma_scan_prefix(v, v.height as nat);
}

proof fn lemma_single_bit(p: u8, q: u8)
    requires
        p < 8,
        q < 8,
    ensures
        ((0u8 | (1u8 << p)) >> q) & 1u8 == 1u8 <==> p == q,
{
    assert(((0u8 | (1u8 << p)) >> q) & 1u8 == 1u8 <==> p == q) by (bit_vector)
        requires
            p < 8,
            q < 8,
    ;
}

proof fn lemma_position_unique(w: int, x: int, y: int, i: int, r: int)
    requires
        0 <= x < w,
        0 <= i < w,
        0 <= y,
        0 <= r,
        w * r + i == w * y + x,
    ensures
        r == y,
        i == x,
{
    if r > y {
        assert(w * r >= w * (y + 1)) by (nonlinear_arith)
            requires
                r >= y + 1,
                w >= 0,
        ;
        assert(w * (y + 1) == w * y + w) by (nonlinear_arith);
    } else if r < y {
        assert(w * y >= w * (r + 1)) by (nonlinear_arith)
            requires
                y >= r + 1,
                w >= 0,
        ;
        assert(w * (r + 1) == w * r + w) by (nonlinear_arith);
    }
}

/// With the single point `(x, y)` lit on a cleared matrix, scanning row `y`
/// turns every cathode off, drives anode `x` high and every other anode low, and
/// then turns on cathode `y` alone; scanning any other row drives every anode
/// low and turns no cathode on. So only `(x, y)` ever lights.
pub proof fn lemma_single_point_scan(v: MatrixView, x: u8, y: u8, r: int)
    requires
        matrix_wf(v),
        x < v.width,
        y < v.height,
        v.width * y + x < 8,
        x < v.anodes,
        y < v.cathodes,
        0 <= r < v.height,
    ensures
        ({
            let m = MatrixView { data: set_point(MatrixView { data: 0, ..v }, x as int, y as int, true), ..v };
            row_writes(m, r) == cathodes_off(v.cathodes) + Seq::new(
                v.anodes,
                |i: int| anode_write(i, r == y && i == x),
            ) + if r == y {
                seq![cathode_write(y as int, false)]
            } else {
                Seq::<MatrixWrite>::empty()
            }
        }),
{
    let m = MatrixView { data: set_point(MatrixView { data: 0, ..v }, x as int, y as int, true), ..v };
    let pos = (v.width * y + x) as u8;
    assert(m.data == 0u8 | (1u8 << pos));
    assert forall|i: int| 0 <= i < v.anodes implies point_lit(m, i, r) == (r == y && i == x) by {
        if point_lit(m, i, r) {
            let q = (v.width * r + i) as u8;
            lemma_single_bit(pos, q);
            lemma_position_unique(v.width as int, x as int, y as int, i, r);
        }
        if r == y && i == x {
            lemma_single_bit(pos, pos);
        }
    }
    assert(anode_levels(m, r) =~= Seq::new(v.anodes, |i: int| anode_write(i, r == y && i == x)));
    if r == y {
        assert(point_lit(m, x as int, r));
    }
}

} // verus!

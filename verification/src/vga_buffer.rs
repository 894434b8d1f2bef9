//! The display writer and its model of the hardware text buffer.
//!
//! The display hardware renders a fixed-address block of memory as a grid of
//! characters. Each screen cell occupies two consecutive bytes: the character
//! code, then a colour attribute (low nibble foreground, high nibble
//! background). `TextBuffer` models that block as a byte vector of the exact
//! size of the grid, and `write_at` performs the one transformation the
//! display writer needs: storing a message's bytes, each paired with the
//! fixed attribute, at consecutive cells.

use vstd::prelude::*;

verus! {

/// Character columns of the fixed text mode.
pub const BUFFER_WIDTH: usize = 80;

/// Character rows of the fixed text mode.
pub const BUFFER_HEIGHT: usize = 25;

/// Total number of screen cells.
pub const BUFFER_CELLS: usize = BUFFER_WIDTH * BUFFER_HEIGHT;

/// Bytes per screen cell: the character code, then the attribute.
pub const CELL_BYTES: usize = 2;

/// The fixed colour attribute: light-gray foreground on a black background.
pub const ATTRIBUTE: u8 = 0x07;

/// The fixed cell at which the display writer starts rendering.
pub const START_OFFSET: usize = 0;

/// The screen cell that byte index `j` of the buffer belongs to.
pub open spec fn cell_of(j: int) -> int {
    j / (CELL_BYTES as int)
}

/// The buffer contents after the display writer stores `msg` at cell
/// `start` of a buffer that held `buf`: within the written cells, even
/// bytes carry the message's character codes and odd bytes the fixed
/// attribute; every byte outside those cells is unchanged.
pub open spec fn written(buf: Seq<u8>, msg: Seq<u8>, start: int) -> Seq<u8> {
    Seq::new(
        buf.len(),
        |j: int|
            if start <= cell_of(j) < start + msg.len() {
                if j % (CELL_BYTES as int) == 0 {
                    msg[cell_of(j) - start]
                } else {
                    ATTRIBUTE
                }
            } else {
                buf[j]
            },
    )
}

/// The memory block backing the text display, one byte per element, in the
/// layout the display controller expects.
pub struct TextBuffer {
    bytes: Vec<u8>,
}

impl View for TextBuffer {
    type V = Seq<u8>;

    closed spec fn view(&self) -> Seq<u8> {
        self.bytes@
    }
}

impl TextBuffer {
    /// The buffer always spans exactly the visible grid.
    pub open spec fn wf(&self) -> bool {
        self@.len() == BUFFER_CELLS * CELL_BYTES
    }

    /// A blank buffer, standing for the hardware block before any write.
    pub fn new() -> (r: TextBuffer)
        ensures
            r.wf(),
            forall|j: int| 0 <= j < r@.len() ==> r@[j] == 0u8,
    {
        let mut bytes: Vec<u8> = Vec::new();
        let mut j: usize = 0;
        while j < BUFFER_CELLS * CELL_BYTES
            invariant
                j <= BUFFER_CELLS * CELL_BYTES,
                bytes@.len() == j,
                forall|k: int| 0 <= k < j ==> bytes@[k] == 0u8,
            decreases BUFFER_CELLS * CELL_BYTES - j,
        {
            bytes.push(0u8);
            j = j + 1;
        }
        TextBuffer { bytes }
    }

    /// Render `msg` starting at cell `start`: store each byte of the
    /// message, paired with the fixed attribute, at consecutive cells.
    /// Every byte outside the written cells keeps its previous value.
    #[verifier::loop_isolation(false)]
    pub fn write_at(&mut self, msg: &[u8], start: usize)
        requires
            old(self).wf(),
            start + msg@.len() <= BUFFER_CELLS,
        ensures
            final(self).wf(),
            final(self)@ == written(old(self)@, msg@, start as int),
    {
        let mut i: usize = 0;
        while i < msg.len()
            invariant
                i <= msg@.len(),
                self@ == written(old(self)@, msg@.take(i as int), start as int),
            decreases msg@.len() - i,
        {
            let k: usize = (start + i) * CELL_BYTES;
            self.bytes[k] = msg[i];
            self.bytes[k + 1] = ATTRIBUTE;
            proof {
                assert(self@ =~= written(old(self)@, msg@.take(i + 1), start as int));
            }
            i = i + 1;
        }
        proof {
            assert(msg@.take(msg@.len() as int) =~= msg@);
        }
    }

    /// Render `msg` at the fixed start position of the display writer.
    pub fn write(&mut self, msg: &[u8])
        requires
            old(self).wf(),
            msg@.len() <= BUFFER_CELLS - START_OFFSET,
        ensures
            final(self).wf(),
            final(self)@ == written(old(self)@, msg@, START_OFFSET as int),
    {
        self.write_at(msg, START_OFFSET)
    }

    /// Read one byte back, as a simulated display (or a test) would.
    pub fn byte_at(&self, j: usize) -> (r: u8)
        requires
            j < self@.len(),
        ensures
            r == self@[j as int],
    {
        self.bytes[j]
    }

    /// The character code stored at screen cell `c`.
    pub fn char_at(&self, c: usize) -> (r: u8)
        requires
            self.wf(),
            c < BUFFER_CELLS,
        ensures
            r == self@[CELL_BYTES * c],
    {
        self.bytes[c * CELL_BYTES]
    }

    /// The colour attribute stored at screen cell `c`.
    pub fn attr_at(&self, c: usize) -> (r: u8)
        requires
            self.wf(),
            c < BUFFER_CELLS,
        ensures
            r == self@[CELL_BYTES * c + 1],
    {
        self.bytes[c * CELL_BYTES + 1]
    }
}

/// Within the written range, the buffer shows the message: the cell at
/// `start + i` carries character code `msg[i]` and the fixed attribute.
pub proof fn lemma_write_covers_message(buf: Seq<u8>, msg: Seq<u8>, start: int, i: int)
    requires
        0 <= start,
        CELL_BYTES * (start + msg.len()) <= buf.len(),
        0 <= i < msg.len(),
    ensures
        written(buf, msg, start)[CELL_BYTES * (start + i)] == msg[i],
        written(buf, msg, start)[CELL_BYTES * (start + i) + 1] == ATTRIBUTE,
{
    assert(cell_of(CELL_BYTES * (start + i)) == start + i) by (nonlinear_arith);
    assert(cell_of(CELL_BYTES * (start + i) + 1) == start + i) by (nonlinear_arith);
    assert((CELL_BYTES * (start + i)) % (CELL_BYTES as int) == 0) by (nonlinear_arith);
    assert((CELL_BYTES * (start + i) + 1) % (CELL_BYTES as int) == 1) by (nonlinear_arith);
}

/// Outside the written range nothing changes: every byte of a cell below
/// `start` or at `start + msg.len()` and beyond keeps its previous value.
pub proof fn lemma_write_preserves_outside(buf: Seq<u8>, msg: Seq<u8>, start: int, j: int)
    requires
        0 <= j < buf.len(),
        cell_of(j) < start || cell_of(j) >= start + msg.len(),
    ensures
        written(buf, msg, start)[j] == buf[j],
{
}

/// Writing the same message at the same position twice leaves exactly the
/// buffer that one write leaves: each cell write is idempotent.
pub proof fn lemma_write_idempotent(buf: Seq<u8>, msg: Seq<u8>, start: int)
    ensures
        written(written(buf, msg, start), msg, start) == written(buf, msg, start),
{
    assert(written(written(buf, msg, start), msg, start) =~= written(buf, msg, start));
}

} // verus!

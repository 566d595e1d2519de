use vstd::prelude::*;
use crate::channel::RowChannel;
use crate::image::{attractor_bytes, convergence_bytes, encode_row};

verus! {

/// The first row at or after `from` that is not ready yet, or the resolution
/// when every row from `from` on is ready: the rows `from ..` that end are the
/// ones a writer standing at `from` can write without a gap.
pub open spec fn run_end(ch: RowChannel, from: nat) -> nat
    decreases ch.slots@.len() - from,
{
    if from >= ch.slots@.len() || !ch.ready(from as int) {
        from
    } else {
        run_end(ch, from + 1)
    }
}

/// The rows from `from` to `run_end(ch, from)` are all ready, and the row at the
/// end, if inside the picture, is not.
pub proof fn lemma_run_end(ch: RowChannel, from: nat)
    ensures
        from <= run_end(ch, from),
        run_end(ch, from) <= ch.slots@.len() || run_end(ch, from) == from,
        forall|r: int| from <= r < run_end(ch, from) ==> ch.ready(r),
        run_end(ch, from) < ch.slots@.len() ==> !ch.ready(run_end(ch, from) as int),
    decreases ch.slots@.len() - from,
{
    if from < ch.slots@.len() && ch.ready(from as int) {
        lemma_run_end(ch, from + 1);
    }
}

/// Writing is strictly in row order, whatever order rows become ready in: if
/// `later` holds every ready row of `earlier`, unchanged, and perhaps more, then
/// a writer that polls at `earlier` and then at `later` stands where one that
/// polls only at `later` stands, and the rows it wrote on the way are the same
/// rows, `from` up to that point, in index order.
pub proof fn lemma_write_order(earlier: RowChannel, later: RowChannel, from: nat)
    requires
        earlier.slots@.len() == later.slots@.len(),
        forall|r: int|
            #[trigger] earlier.ready(r) ==> later.ready(r) && later.row_view(r)
                == earlier.row_view(r),
    ensures
        from <= run_end(earlier, from) <= run_end(later, from),
        run_end(later, run_end(earlier, from)) == run_end(later, from),
        forall|r: int|
            from <= r < run_end(earlier, from) ==> later.row_view(r) == earlier.row_view(r),
    decreases earlier.slots@.len() - from,
{
    lemma_run_end(earlier, from);
    lemma_run_end(later, from);
    if from < earlier.slots@.len() && earlier.ready(from as int) {
        lemma_write_order(earlier, later, from + 1);
    }
}

/// A picture row ready to be appended to the two output pictures.
pub struct EncodedRow {
    pub row: usize,
    pub attractors: Vec<u8>,
    pub convergence: Vec<u8>,
}

/// Writes rows in increasing order, each as soon as it and every row above it
/// are ready. `next_row` is the first row not yet written.
pub struct RowWriter {
    pub next_row: usize,
    pub resolution: usize,
}

impl RowWriter {
    /// A writer for a picture of `resolution` rows that has written none.
    pub fn new(resolution: usize) -> (w: RowWriter)
        ensures
            w.next_row == 0,
            w.resolution == resolution,
    {
        RowWriter { next_row: 0, resolution }
    }

    /// Whether every row has been written.
    pub fn is_done(&self) -> (b: bool)
        ensures
            b == (self.next_row >= self.resolution),
    {
        self.next_row >= self.resolution
    }

    /// Encodes, in order, every row from `next_row` on up to the first that is
    /// not ready, and moves past them. Returns nothing while `next_row` is
    /// pending: the caller waits and polls again.
    pub fn poll(&mut self, ch: &RowChannel) -> (out: Vec<EncodedRow>)
        requires
            ch.wf(),
            old(self).resolution == ch.resolution,
            old(self).next_row <= ch.resolution,
            3 * ch.resolution <= usize::MAX,
        ensures
            final(self).resolution == old(self).resolution,
            final(self).next_row == run_end(*ch, old(self).next_row as nat),
            final(self).next_row <= ch.resolution,
            out@.len() == final(self).next_row - old(self).next_row,
            forall|i: int|
                0 <= i < out@.len() ==> (#[trigger] out@[i]).row == old(self).next_row + i
                    && out@[i].attractors@ == attractor_bytes(
                    ch.row_view(old(self).next_row + i),
                ) && out@[i].convergence@ == convergence_bytes(
                    ch.row_view(old(self).next_row + i),
                ),
    {
        let ghost start = self.next_row;
        proof {
            lemma_run_end(*ch, start as nat);
        }
        let mut out: Vec<EncodedRow> = Vec::new();
        while self.next_row < ch.resolution && ch.is_ready(self.next_row)
            invariant
                ch.wf(),
                self.resolution == ch.resolution,
                self.resolution == old(self).resolution,
                3 * ch.resolution <= usize::MAX,
                start == old(self).next_row,
                start <= self.next_row <= ch.resolution,
                run_end(*ch, self.next_row as nat) == run_end(*ch, start as nat),
                out@.len() == self.next_row - start,
                forall|i: int|
                    0 <= i < out@.len() ==> (#[trigger] out@[i]).row == start + i
                        && out@[i].attractors@ == attractor_bytes(ch.row_view(start + i))
                        && out@[i].convergence@ == convergence_bytes(ch.row_view(start + i)),
            decreases ch.resolution - self.next_row,
        {
            let r = self.next_row;
            let row = ch.get_row(r);
            match row {
                Some(v) => {
                    let (a, c) = encode_row(v);
                    out.push(EncodedRow { row: r, attractors: a, convergence: c });
                },
                None => {},
            }
            self.next_row = r + 1;
        }
        out
    }
}

} // verus!

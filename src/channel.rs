use vstd::prelude::*;
use crate::pixel::{PixelResult, pixel_valid};

verus! {

/// Why a row could not be handed over.
#[derive(Clone, Copy, Debug, PartialEq, Eq, Structural)]
pub enum PublishError {
    /// The row index is not below the resolution.
    RowOutOfRange,
    /// The row was handed over before: each row is ready once.
    AlreadyReady,
    /// The row does not hold one result per column.
    WrongLength,
    /// A result names a root outside the table or more steps than allowed.
    InvalidPixel,
}

/// Whether every pixel of `row` may stand in a picture of this degree.
pub open spec fn row_valid(row: Seq<PixelResult>, degree: nat) -> bool {
    forall|i: int| 0 <= i < row.len() ==> pixel_valid(#[trigger] row[i], degree)
}

/// The place where workers leave finished rows and the writer picks them up.
/// Slot `r` is empty while row `r` is pending and holds the row once it is
/// ready; a row's data and its readiness change in one step.
pub struct RowChannel {
    pub resolution: usize,
    pub degree: usize,
    pub slots: Vec<Option<Vec<PixelResult>>>,
}

impl RowChannel {
    /// One slot per row; each filled slot holds a whole, valid row.
    pub open spec fn wf(&self) -> bool {
        &&& self.slots@.len() == self.resolution
        &&& forall|r: int|
            0 <= r < self.slots@.len() ==> (#[trigger] self.slots@[r] matches Some(v) ==> v@.len()
                == self.resolution && row_valid(v@, self.degree as nat))
    }

    /// Whether row `r` has been handed over.
    pub open spec fn ready(&self, r: int) -> bool {
        0 <= r < self.slots@.len() && self.slots@[r] is Some
    }

    /// The results of row `r`, once it is ready.
    pub open spec fn row_view(&self, r: int) -> Seq<PixelResult> {
        self.slots@[r]->Some_0@
    }

    /// A channel for a picture of `resolution` rows, all pending.
    pub fn new(resolution: usize, degree: usize) -> (c: RowChannel)
        ensures
            c.wf(),
            c.resolution == resolution,
            c.degree == degree,
            forall|r: int| !c.ready(r),
    {
        let mut slots: Vec<Option<Vec<PixelResult>>> = Vec::new();
        let mut i: usize = 0;
        while i < resolution
            invariant
                i <= resolution,
                slots@.len() == i,
                forall|r: int| 0 <= r < i ==> slots@[r] is None,
            decreases resolution - i,
        {
            slots.push(None);
            i = i + 1;
        }
        RowChannel { resolution, degree, slots }
    }

    /// Whether row `r` has been handed over; false for a row past the end.
    pub fn is_ready(&self, r: usize) -> (b: bool)
        ensures
            b == self.ready(r as int),
    {
        r < self.slots.len() && self.slots[r].is_some()
    }

    /// Hands over the finished row `r`: its data and its readiness together.
    /// Refused, with nothing changed, when the row is out of range, already
    /// ready, of the wrong length, or holds an invalid result (checked in that
    /// order).
    pub fn publish(&mut self, r: usize, row: Vec<PixelResult>) -> (res: Result<(), PublishError>)
        requires
            old(self).wf(),
        ensures
            final(self).wf(),
            final(self).resolution == old(self).resolution,
            final(self).degree == old(self).degree,
            res is Ok <==> r < old(self).resolution && !old(self).ready(r as int) && row@.len()
                == old(self).resolution && row_valid(row@, old(self).degree as nat),
            res == Err::<(), PublishError>(PublishError::RowOutOfRange) <==> r
                >= old(self).resolution,
            res == Err::<(), PublishError>(PublishError::AlreadyReady) <==> r
                < old(self).resolution && old(self).ready(r as int),
            res == Err::<(), PublishError>(PublishError::WrongLength) <==> r
                < old(self).resolution && !old(self).ready(r as int) && row@.len()
                != old(self).resolution,
            res == Err::<(), PublishError>(PublishError::InvalidPixel) <==> r
                < old(self).resolution && !old(self).ready(r as int) && row@.len()
                == old(self).resolution && !row_valid(row@, old(self).degree as nat),
            res is Ok ==> final(self).ready(r as int) && final(self).row_view(r as int) == row@,
            forall|q: int|
                0 <= q < old(self).resolution && q != r ==> #[trigger] final(self).slots@[q]
                    == old(self).slots@[q],
            res is Err ==> final(self).slots@ == old(self).slots@,
    {
        if r >= self.slots.len() {
            return Err(PublishError::RowOutOfRange);
        }
        if self.slots[r].is_some() {
            return Err(PublishError::AlreadyReady);
        }
        if row.len() != self.resolution {
            return Err(PublishError::WrongLength);
        }
        let mut i: usize = 0;
        while i < row.len()
            invariant
                *self == *old(self),
                self.wf(),
                r < self.resolution,
                !self.ready(r as int),
                row@.len() == self.resolution,
                i <= row@.len(),
                forall|j: int| 0 <= j < i ==> pixel_valid(#[trigger] row@[j], self.degree as nat),
            decreases row@.len() - i,
        {
            if !pixel_ok(row[i], self.degree) {
                return Err(PublishError::InvalidPixel);
            }
            i = i + 1;
        }
        self.slots[r] = Some(row);
        Ok(())
    }

    /// The results of row `r` if it is ready.
    pub fn get_row(&self, r: usize) -> (out: Option<&Vec<PixelResult>>)
        ensures
            out is Some <==> self.ready(r as int),
            out matches Some(v) ==> v@ == self.row_view(r as int),
    {
        if r < self.slots.len() {
            match &self.slots[r] {
                Some(v) => Some(v),
                None => None,
            }
        } else {
            None
        }
    }
}

/// Whether one result may stand in a picture of this degree.
pub fn pixel_ok(p: PixelResult, degree: usize) -> (b: bool)
    ensures
        b == pixel_valid(p, degree as nat),
{
    p.iterations <= crate::pixel::MAX_ITERATIONS && match p.attractor {
        crate::pixel::Attractor::Root(k) => k < degree,
        _ => true,
    }
}

} // verus!

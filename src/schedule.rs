use vstd::prelude::*;

verus! {

/// How many of the rows `0 .. resolution` fall to `worker` when they are dealt
/// out in strides of `workers`.
pub open spec fn stride_count(worker: nat, workers: nat, resolution: nat) -> nat
    recommends
        workers > 0,
{
    if worker >= resolution {
        0
    } else {
        ((resolution - 1 - worker) as nat / workers) + 1
    }
}

/// The rows that `worker` computes: `worker`, `worker + workers`, and so on,
/// as long as they stay below `resolution`.
pub open spec fn stride_rows(worker: nat, workers: nat, resolution: nat) -> Seq<nat>
    recommends
        workers > 0,
{
    Seq::new(stride_count(worker, workers, resolution), |i: int| (worker + i * workers) as nat)
}

proof fn lemma_stride_bound(worker: nat, workers: nat, resolution: nat, i: nat)
    requires
        workers > 0,
        i < stride_count(worker, workers, resolution),
    ensures
        worker + i * workers < resolution,
{
    let q = ((resolution - 1 - worker) as nat / workers);
    assert(i <= q);
    assert(q * workers <= resolution - 1 - worker) by (nonlinear_arith)
        requires
            q == ((resolution - 1 - worker) as nat / workers),
            workers > 0,
            worker < resolution,
    ;
    assert(i * workers <= q * workers) by (nonlinear_arith)
        requires
            i <= q,
            workers > 0,
    ;
}

/// The rows, in increasing order, that `worker` computes out of `resolution`
/// rows shared by `workers` workers.
pub fn worker_rows(worker: usize, workers: usize, resolution: usize) -> (rows: Vec<usize>)
    requires
        workers > 0,
    ensures
        rows@.len() == stride_count(worker as nat, workers as nat, resolution as nat),
        forall|i: int|
            0 <= i < rows@.len() ==> rows@[i] as nat == stride_rows(
                worker as nat,
                workers as nat,
                resolution as nat,
            )[i],
{
    let mut rows: Vec<usize> = Vec::new();
    if worker >= resolution {
        return rows;
    }
    let count: usize = (resolution - 1 - worker) / workers + 1;
    assert(count == stride_count(worker as nat, workers as nat, resolution as nat));
    let mut i: usize = 0;
    let mut row: usize = worker;
    while i < count
        invariant
            workers > 0,
            worker < resolution,
            count == stride_count(worker as nat, workers as nat, resolution as nat),
            i <= count,
            rows@.len() == i,
            i < count ==> row == worker + i * workers,
            forall|j: int|
                0 <= j < i ==> rows@[j] as nat == stride_rows(
                    worker as nat,
                    workers as nat,
                    resolution as nat,
                )[j],
        decreases count - i,
    {
        proof {
            lemma_stride_bound(worker as nat, workers as nat, resolution as nat, i as nat);
        }
        rows.push(row);
        i = i + 1;
        if i < count {
            proof {
                lemma_stride_bound(worker as nat, workers as nat, resolution as nat, i as nat);
                assert(worker + i * workers == worker + (i - 1) * workers + workers) by (nonlinear_arith);
            }
            row = row + workers;
        }
    }
    rows
}

/// Every row below `resolution` is computed by exactly one worker, the one
/// numbered `row % workers`, and it appears exactly once in that worker's list;
/// no worker is given a row at or beyond `resolution`.
pub proof fn lemma_partition_complete(workers: nat, resolution: nat, row: nat)
    requires
        workers > 0,
        row < resolution,
    ensures
        stride_rows(row % workers, workers, resolution).contains(row),
        forall|t: nat|
            t < workers && #[trigger] stride_rows(t, workers, resolution).contains(row) ==> t
                == row % workers,
        forall|t: nat, i: int, j: int|
            0 <= i < j < stride_count(t, workers, resolution) ==> #[trigger] stride_rows(
                t,
                workers,
                resolution,
            )[i] < #[trigger] stride_rows(t, workers, resolution)[j],
        forall|t: nat, i: int|
            0 <= i < stride_count(t, workers, resolution) ==> #[trigger] stride_rows(
                t,
                workers,
                resolution,
            )[i] < resolution,
{
    let t0 = row % workers;
    let q = row / workers;
    assert(row == t0 + q * workers) by (nonlinear_arith)
        requires
            t0 == row % workers,
            q == row / workers,
            workers > 0,
    ;
    assert(t0 < workers);
    assert(q < stride_count(t0, workers, resolution)) by {
        assert(q * workers <= (resolution - 1 - t0) as nat);
        assert(q <= ((resolution - 1 - t0) as nat) / workers) by (nonlinear_arith)
            requires
                q * workers <= (resolution - 1 - t0) as nat,
                workers > 0,
        ;
    }
    assert(stride_rows(t0, workers, resolution)[q as int] == row);
    assert forall|t: nat|
        t < workers && #[trigger] stride_rows(t, workers, resolution).contains(row) implies t
            == row % workers by {
        let i = choose|i: int|
            0 <= i < stride_rows(t, workers, resolution).len() && stride_rows(
                t,
                workers,
                resolution,
            )[i] == row;
        assert(row == t + i * workers);
        assert((t + i * workers) % (workers as int) == t) by (nonlinear_arith)
            requires
                t < workers,
                i >= 0,
                workers > 0,
        ;
    }
    assert forall|t: nat, i: int, j: int|
        0 <= i < j < stride_count(t, workers, resolution) implies #[trigger] stride_rows(
            t,
            workers,
            resolution,
        )[i] < #[trigger] stride_rows(t, workers, resolution)[j] by {
        assert(i * workers < j * workers) by (nonlinear_arith)
            requires
                i < j,
                workers > 0,
        ;
    }
    assert forall|t: nat, i: int|
        0 <= i < stride_count(t, workers, resolution) implies #[trigger] stride_rows(
            t,
            workers,
            resolution,
        )[i] < resolution by {
        lemma_stride_bound(t, workers, resolution, i as nat);
    }
}

} // verus!

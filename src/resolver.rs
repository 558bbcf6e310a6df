//! Choice of the monitored GPU among the handles the backend enumerated.
use vstd::prelude::*;

verus! {

/// Why no GPU handle could be chosen.
#[derive(Debug, Clone, Copy, PartialEq, Eq, Structural)]
pub enum ResolveError {
    /// No handle was enumerated, or the index lies past the end of the handles.
    NoGpuFound { index: usize, available: usize },
    /// The index equals the number of handles: it passes the range test and
    /// then finds no handle there.
    IndexOutOfBounds { index: usize, available: usize },
}

/// The handles of all sockets, in enumeration order, one socket after another.
pub open spec fn flat_handles<H>(sockets: Seq<Vec<H>>) -> Seq<H>
    decreases sockets.len(),
{
    if sockets.len() == 0 {
        seq![]
    } else {
        flat_handles(sockets.drop_last()) + sockets.last()@
    }
}

/// Joins the processor handles of every socket into one sequence, keeping the
/// backend's order.
pub fn flatten_handles<H: Copy>(sockets: &Vec<Vec<H>>) -> (r: Vec<H>)
    ensures
        r@ == flat_handles(sockets@),
{
    let mut out: Vec<H> = Vec::new();
    let mut i: usize = 0;
    while i < sockets.len()
        invariant
            i <= sockets@.len(),
            out@ == flat_handles(sockets@.subrange(0, i as int)),
        decreases sockets@.len() - i,
    {
        let ghost before = out@;
        let socket = &sockets[i];
        let mut j: usize = 0;
        while j < socket.len()
            invariant
                j <= socket@.len(),
                out@ == before + socket@.subrange(0, j as int),
            decreases socket@.len() - j,
        {
            out.push(socket[j]);
            j += 1;
            assert(out@ =~= before + socket@.subrange(0, j as int));
        }
        assert(sockets@.subrange(0, i + 1).drop_last() =~= sockets@.subrange(0, i as int));
        assert(socket@.subrange(0, j as int) =~= socket@);
        i += 1;
    }
    assert(sockets@.subrange(0, i as int) =~= sockets@);
    out
}

/// Picks the handle at `gpu_idx` among the handles of all sockets.
///
/// Fails when there is no handle or the index is past the end; an index equal
/// to the number of handles is let through the range test and then fails with
/// its own error.
pub fn select_gpu_handle<H: Copy>(sockets: &Vec<Vec<H>>, gpu_idx: usize) -> (r: Result<H, ResolveError>)
    ensures
        ({
            let hs = flat_handles(sockets@);
            &&& (r is Ok <==> gpu_idx < hs.len())
            &&& (r is Ok ==> r->Ok_0 == hs[gpu_idx as int])
            &&& ((hs.len() == 0 || gpu_idx > hs.len()) ==> r == Err::<H, ResolveError>(
                ResolveError::NoGpuFound { index: gpu_idx, available: hs.len() as usize },
            ))
            &&& ((hs.len() > 0 && gpu_idx == hs.len()) ==> r == Err::<H, ResolveError>(
                ResolveError::IndexOutOfBounds { index: gpu_idx, available: gpu_idx },
            ))
        }),
{
    let handles = flatten_handles(sockets);
    if handles.len() == 0 || gpu_idx > handles.len() {
        return Err(ResolveError::NoGpuFound { index: gpu_idx, available: handles.len() });
    }
    if gpu_idx == handles.len() {
        return Err(ResolveError::IndexOutOfBounds { index: gpu_idx, available: handles.len() });
    }
    Ok(handles[gpu_idx])
}

} // verus!

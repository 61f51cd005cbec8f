//! The layout of data in buffers of the device.

use vstd::prelude::*;

verus! {

/// The smallest size, in bytes, that a buffer is created with.
pub const MIN_BUFFER_SIZE: u64 = 16;

/// The size, in bytes, of the buffer to create where `requested` bytes are
/// asked for.
pub open spec fn buffer_size_of(requested: int) -> int {
    if requested < MIN_BUFFER_SIZE {
        MIN_BUFFER_SIZE as int
    } else {
        requested
    }
}

/// The size, in bytes, of the buffer to create for a request.
pub fn buffer_size(requested_size_bytes: usize) -> (r: u64)
    ensures
        r == buffer_size_of(requested_size_bytes as int),
{
    if (requested_size_bytes as u64) < MIN_BUFFER_SIZE {
        MIN_BUFFER_SIZE
    } else {
        requested_size_bytes as u64
    }
}

/// Brings an array of one, two or three elements to four elements, each new
/// one a clone of `zero`. An empty array and one of four elements or more stay
/// as they are.
pub fn resize<T: Clone>(array: Vec<T>, zero: T) -> (r: Vec<T>)
    ensures
        0 < array@.len() < 4 ==> r@.len() == 4 && r@.subrange(0, array@.len() as int) == array@
            && forall|i: int| array@.len() <= i < 4 ==> cloned::<T>(zero, #[trigger] r@[i]),
        !(0 < array@.len() < 4) ==> r@ == array@,
{
    let mut array = array;
    let size = array.len();
    if size < 4 && size != 0 {
        array.resize(size + 4 - size % 4, zero);
    }
    array
}

/// The first `chunks` chunks of `chunk_size` bytes of `data`, each followed by
/// `padding_size` bytes of zero.
pub open spec fn padded(data: Seq<u8>, chunk_size: int, padding_size: int, chunks: int) -> Seq<u8>
    decreases chunks,
{
    if chunks <= 0 {
        Seq::empty()
    } else {
        padded(data, chunk_size, padding_size, chunks - 1) + data.subrange(
            (chunks - 1) * chunk_size,
            chunks * chunk_size,
        ) + Seq::new(padding_size as nat, |i: int| 0u8)
    }
}

/// The padded data holds each whole chunk of the data at a distance of
/// `chunk_size + padding_size` bytes from the one before, and zeros between.
pub proof fn lemma_padded_layout(data: Seq<u8>, chunk_size: int, padding_size: int, chunks: int)
    requires
        chunk_size > 0,
        padding_size >= 0,
        0 <= chunks,
        chunks * chunk_size <= data.len(),
    ensures
        padded(data, chunk_size, padding_size, chunks).len() == chunks * (chunk_size
            + padding_size),
        forall|k: int, j: int|
            0 <= k < chunks && 0 <= j < chunk_size ==> #[trigger] padded(
                data,
                chunk_size,
                padding_size,
                chunks,
            )[k * (chunk_size + padding_size) + j] == data[k * chunk_size + j],
        forall|k: int, j: int|
            0 <= k < chunks && chunk_size <= j < chunk_size + padding_size ==> #[trigger] padded(
                data,
                chunk_size,
                padding_size,
                chunks,
            )[k * (chunk_size + padding_size) + j] == 0,
    decreases chunks,
{
    let step = chunk_size + padding_size;
    if chunks > 0 {
        assert((chunks - 1) * chunk_size == chunks * chunk_size - chunk_size
            && (chunks - 1) * step == chunks * step - step && (chunks - 1) * chunk_size >= 0)
            by (nonlinear_arith)
            requires
                chunks >= 1,
                chunk_size > 0,
        ;
        lemma_padded_layout(data, chunk_size, padding_size, chunks - 1);
        let before = padded(data, chunk_size, padding_size, chunks - 1);
        let all = padded(data, chunk_size, padding_size, chunks);
        assert forall|k: int, j: int| 0 <= k < chunks && 0 <= j < step implies (j < chunk_size
            ==> #[trigger] all[k * step + j] == data[k * chunk_size + j]) && (j >= chunk_size
            ==> all[k * step + j] == 0) by {
            assert(k * step + step <= (chunks - 1) * step || k == chunks - 1) by (nonlinear_arith)
                requires
                    0 <= k < chunks,
                    step >= 1,
            ;
            assert(k * step >= 0) by (nonlinear_arith)
                requires
                    0 <= k,
                    step >= 1,
            ;
            if k < chunks - 1 {
                assert(all[k * step + j] == before[k * step + j]);
            }
        }
    }
}

/// Copies each whole chunk of `chunk_size` bytes of `data`, followed by
/// `padding_size` bytes of zero. Bytes after the last whole chunk are left
/// out.
pub fn padding(data: &[u8], chunk_size: usize, padding_size: usize) -> (r: Vec<u8>)
    requires
        chunk_size > 0,
    ensures
        r@ == padded(
            data@,
            chunk_size as int,
            padding_size as int,
            data@.len() as int / chunk_size as int,
        ),
{
    let mut padded_data: Vec<u8> = Vec::new();
    let n = data.len() / chunk_size;
    let mut i: usize = 0;
    while i < n
        invariant
            i <= n,
            chunk_size > 0,
            n == data@.len() as int / chunk_size as int,
            padded_data@ == padded(data@, chunk_size as int, padding_size as int, i as int),
        decreases n - i,
    {
        assert(i * chunk_size + chunk_size <= data@.len() && (i + 1) * chunk_size == i
            * chunk_size + chunk_size && chunk_size * i == i * chunk_size) by (nonlinear_arith)
            requires
                0 <= i < n,
                n == data@.len() as int / chunk_size as int,
                chunk_size > 0,
        ;
        let length = data.len();
        let start = chunk_size * i;
        let ghost before = padded_data@;
        let mut j: usize = 0;
        while j < chunk_size
            invariant
                j <= chunk_size,
                length == data@.len(),
                start + chunk_size <= data@.len(),
                padded_data@ == before + data@.subrange(start as int, start + j),
            decreases chunk_size - j,
        {
            padded_data.push(data[start + j]);
            assert(padded_data@ =~= before + data@.subrange(start as int, start + j + 1));
            j += 1;
        }
        let ghost copied = padded_data@;
        let mut k: usize = 0;
        while k < padding_size
            invariant
                k <= padding_size,
                padded_data@ == copied + Seq::new(k as nat, |i: int| 0u8),
            decreases padding_size - k,
        {
            padded_data.push(0);
            assert(padded_data@ =~= copied + Seq::new((k + 1) as nat, |i: int| 0u8));
            k += 1;
        }
        i += 1;
    }
    padded_data
}

} // verus!

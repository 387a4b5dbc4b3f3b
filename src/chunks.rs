//! Splitting a buffer into chunks of bounded size.
//!
//! A transfer of `size` bytes with at most `limit` bytes per chunk takes
//! `ceil(size / limit)` chunks; chunk `i` covers `[i * limit, min((i + 1) * limit, size))`.

use vstd::prelude::*;
use crate::status::{ContractViolation, EcError};

verus! {

/// The number of chunks: `size / limit`, rounded up.
pub open spec fn ceil_div(size: int, limit: int) -> int {
    (size + limit - 1) / limit
}

/// Where chunk `i` starts.
pub open spec fn chunk_start(i: int, limit: int) -> int {
    i * limit
}

/// The length of chunk `i`: `limit`, or what is left for the last one.
pub open spec fn chunk_len(i: int, size: int, limit: int) -> int {
    if size - i * limit < limit {
        size - i * limit
    } else {
        limit
    }
}

/// The bytes covered by the first `n` chunks.
pub open spec fn covered(n: int, size: int, limit: int) -> int {
    if n * limit < size {
        n * limit
    } else {
        size
    }
}

/// The chunks tile the buffer: there are `ceil(size / limit)` of them, each
/// holds between one and `limit` bytes, each starts where the one before it
/// ended, and the last one ends at `size`. So the chunks read in order put
/// back exactly `size` bytes.
pub proof fn lemma_chunk_plan(size: int, limit: int, i: int)
    requires
        size >= 0,
        limit > 0,
    ensures
        ceil_div(size, limit) >= 0,
        ceil_div(size, limit) * limit >= size,
        size > 0 ==> (ceil_div(size, limit) - 1) * limit < size,
        size == 0 ==> ceil_div(size, limit) == 0,
        0 <= i < ceil_div(size, limit) ==> 0 < chunk_len(i, size, limit) <= limit,
        0 <= i < ceil_div(size, limit) ==> chunk_start(i, limit) + chunk_len(i, size, limit) == covered(i + 1, size, limit),
        0 <= i ==> covered(i, size, limit) == chunk_start(i, limit) || covered(i, size, limit) == size,
        covered(ceil_div(size, limit), size, limit) == size,
        0 <= i < ceil_div(size, limit) ==> covered(i, size, limit) == chunk_start(i, limit),
        0 <= i < ceil_div(size, limit) - 1 ==> chunk_len(i, size, limit) == limit,
{
    let n = ceil_div(size, limit);
    assert(n * limit >= size && (size > 0 ==> (n - 1) * limit < size) && n >= 0 && (size == 0 ==> n == 0)) by (nonlinear_arith)
        requires
            n == (size + limit - 1) / limit,
            size >= 0,
            limit > 0,
    ;
    if 0 <= i < n {
        assert(i * limit < size) by (nonlinear_arith)
            requires
                i < n,
                (n - 1) * limit < size,
                i >= 0,
                limit > 0,
        ;
        assert((i + 1) * limit == i * limit + limit) by (nonlinear_arith);
        if i < n - 1 {
            assert((i + 1) * limit < size) by (nonlinear_arith)
                requires
                    i + 1 < n,
                    (n - 1) * limit < size,
                    limit > 0,
            ;
        }
    }
}

/// The number of chunks for a transfer; a zero limit is refused.
pub fn chunk_count(size: usize, limit: usize) -> (r: Result<usize, EcError>)
    ensures
        r is Err <==> limit == 0,
        r matches Ok(n) ==> n == ceil_div(size as int, limit as int),
        r matches Err(e) ==> e == EcError::ContractViolation(ContractViolation::ZeroChunkSize),
{
    if limit == 0 {
        return Err(EcError::ContractViolation(ContractViolation::ZeroChunkSize));
    }
    let q: usize = size / limit;
    assert(size % limit != 0 ==> q < size) by (nonlinear_arith)
        requires
            limit > 0,
            q == size / limit,
    ;
    let n: usize = if size % limit != 0 { q + 1 } else { q };
    assert(n == ceil_div(size as int, limit as int)) by (nonlinear_arith)
        requires
            limit > 0,
            q == size / limit,
            n == (if size % limit != 0 { q + 1 } else { q as int }),
    ;
    Ok(n)
}

} // verus!

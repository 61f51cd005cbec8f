//! The limits of a device, and the split of a count of invocations into
//! workgroups within them.

use crate::error::{CompileError, CompileErrorView};
use vstd::prelude::*;
use vstd::string::*;

verus! {

/// The largest number of workgroups that one dispatch may have in each dimension.
pub const MAX_COMPUTE_WORKGROUPS_PER_DIMENSION: u32 = 65535;

/// The largest size of a workgroup in the x dimension.
pub const MAX_WORKGROUP_SIZE_X: u32 = 256;

/// The largest size of a workgroup in the y dimension.
pub const MAX_WORKGROUP_SIZE_Y: u32 = 256;

/// The largest size of a workgroup in the z dimension.
pub const MAX_WORKGROUP_SIZE_Z: u32 = 64;

/// `n` divided by `d`, rounded up.
pub open spec fn ceil_div(n: int, d: int) -> int {
    (n + d - 1) / d
}

/// `x` as a 32-bit number, or the largest one where it does not fit.
pub open spec fn saturated(x: int) -> u32 {
    if x > u32::MAX {
        u32::MAX
    } else {
        x as u32
    }
}

/// The number of workgroups and the size of each for `n` invocations, where at
/// most `max_threads` workgroups of at most `max_group` invocations can run.
pub open spec fn workgroup_split(n: int, max_threads: int, max_group: int) -> Result<
    (int, int),
    CompileErrorView,
> {
    if n <= max_threads {
        Ok((n, 1))
    } else {
        let group = ceil_div(n, max_threads);
        let threads = ceil_div(n, group);
        if threads > max_threads {
            Err(
                CompileErrorView::ComputeLimitExceeded(
                    "threads"@,
                    saturated(threads),
                    max_threads as u32,
                ),
            )
        } else if group > max_group {
            Err(
                CompileErrorView::ComputeLimitExceeded(
                    "workgroup size"@,
                    saturated(group),
                    max_group as u32,
                ),
            )
        } else {
            Ok((threads, group))
        }
    }
}

/// Rounding up gives the quotient, or one more where there is a remainder:
/// the least number of parts of size `d` that hold `n`.
pub proof fn lemma_ceil_div(n: int, d: int)
    requires
        0 <= n,
        0 < d,
    ensures
        ceil_div(n, d) == n / d + if n % d != 0 {
            1int
        } else {
            0int
        },
        ceil_div(n, d) * d >= n,
        (ceil_div(n, d) - 1) * d < n || n == 0,
        0 <= ceil_div(n, d) <= n,
        n > 0 ==> ceil_div(n, d) >= 1,
{
    let q = n / d;
    let r = n % d;
    assert(n == q * d + r && 0 <= r < d && q >= 0) by (nonlinear_arith)
        requires
            q == n / d,
            r == n % d,
            0 <= n,
            0 < d,
    ;
    if r == 0 {
        assert((q * d + d - 1) / d == q) by (nonlinear_arith)
            requires
                0 < d,
                q >= 0,
        ;
    } else {
        assert((q * d + r + d - 1) / d == q + 1) by (nonlinear_arith)
            requires
                0 < d,
                0 < r < d,
                q >= 0,
        ;
    }
    assert(q * d <= n && q <= q * d) by (nonlinear_arith)
        requires
            n == q * d + r,
            0 <= r,
            q >= 0,
            d >= 1,
    ;
    assert((q + 1) * d == q * d + d && (q - 1) * d == q * d - d) by (nonlinear_arith);
}

/// Splitting more invocations than there may be workgroups never asks for too
/// many workgroups: only the size of a workgroup can exceed its limit.
pub proof fn lemma_split_threads(n: int, max_threads: int)
    requires
        0 < max_threads < n,
    ensures
        1 <= ceil_div(n, max_threads) <= n,
        1 <= ceil_div(n, ceil_div(n, max_threads)) <= max_threads,
        ceil_div(n, ceil_div(n, max_threads)) * ceil_div(n, max_threads) >= n,
{
    lemma_ceil_div(n, max_threads);
    let group = ceil_div(n, max_threads);
    lemma_ceil_div(n, group);
    let threads = ceil_div(n, group);
    assert(threads <= max_threads) by (nonlinear_arith)
        requires
            group * max_threads >= n,
            (threads - 1) * group < n,
            group >= 1,
    ;
}

/// Where `n` invocations fit in `max_threads` workgroups of `max_group`, the
/// split succeeds, stays within both limits, and covers all of them.
pub proof fn lemma_workgroup_split_covers(n: int, max_threads: int, max_group: int)
    requires
        0 <= n <= max_threads * max_group,
        1 <= max_threads,
        1 <= max_group,
    ensures
        workgroup_split(n, max_threads, max_group) is Ok,
        ({
            let (threads, group) = workgroup_split(n, max_threads, max_group)->Ok_0;
            &&& threads * group >= n
            &&& threads <= max_threads
            &&& group <= max_group
        }),
{
    if n > max_threads {
        lemma_split_threads(n, max_threads);
        lemma_ceil_div(n, max_threads);
        let group = ceil_div(n, max_threads);
        assert(group <= max_group) by (nonlinear_arith)
            requires
                (group - 1) * max_threads < n,
                n <= max_threads * max_group,
                max_threads >= 1,
        ;
    }
}

/// The split fails exactly where the invocations do not fit.
pub proof fn lemma_workgroup_split_fails(n: int, max_threads: int, max_group: int)
    requires
        0 <= n,
        1 <= max_threads,
        1 <= max_group,
    ensures
        workgroup_split(n, max_threads, max_group) is Err <==> n > max_threads * max_group,
{
    if n <= max_threads * max_group {
        lemma_workgroup_split_covers(n, max_threads, max_group);
    } else {
        assert(n > max_threads) by (nonlinear_arith)
            requires
                n > max_threads * max_group,
                max_threads >= 1,
                max_group >= 1,
        ;
        lemma_split_threads(n, max_threads);
        lemma_ceil_div(n, max_threads);
        let group = ceil_div(n, max_threads);
        assert(group > max_group) by (nonlinear_arith)
            requires
                group * max_threads >= n,
                n > max_threads * max_group,
                max_threads >= 1,
        ;
    }
}

/// `num` divided by `div`, rounded up.
pub fn ceil(num: u64, div: u64) -> (r: u64)
    requires
        div > 0,
    ensures
        r == ceil_div(num as int, div as int),
{
    proof {
        lemma_ceil_div(num as int, div as int);
    }
    if num % div != 0 {
        num / div + 1
    } else {
        num / div
    }
}

/// Cuts a number off at 32 bits.
pub fn saturate(x: u64) -> (r: u32)
    ensures
        r == saturated(x as int),
{
    if x > u32::MAX as u64 {
        u32::MAX
    } else {
        x as u32
    }
}

/// Determines the number of workgroups and the size of a workgroup for `x`
/// runs of a shader's entry point.
pub fn workgroup_size(x: u64, max_threads: u32, max_workgroup_size: u32) -> (r: Result<
    (u32, u32),
    CompileError,
>)
    requires
        max_threads > 0 || x == 0,
    ensures
        match workgroup_split(x as int, max_threads as int, max_workgroup_size as int) {
            Ok((threads, group)) => r == Ok::<(u32, u32), CompileError>(
                (threads as u32, group as u32),
            ) && threads <= max_threads && threads * group >= x && (max_workgroup_size >= 1
                ==> group <= max_workgroup_size),
            Err(e) => r is Err && r->Err_0@ == e,
        },
        r is Err <==> x > max_threads && ceil_div(x as int, max_threads as int)
            > max_workgroup_size,
        max_workgroup_size >= 1 ==> (r is Ok <==> x <= max_threads * max_workgroup_size),
        r is Err ==> r->Err_0@ == CompileErrorView::ComputeLimitExceeded(
            "workgroup size"@,
            saturated(ceil_div(x as int, max_threads as int)),
            max_workgroup_size,
        ),
{
    let max_x = max_threads as u64;
    proof {
        if max_workgroup_size >= 1 && max_threads >= 1 {
            lemma_workgroup_split_fails(
                x as int,
                max_threads as int,
                max_workgroup_size as int,
            );
        }
    }
    if x > max_x {
        proof {
            lemma_split_threads(x as int, max_threads as int);
        }
        let group = ceil(x, max_x);
        if group > max_workgroup_size as u64 {
            return Err(
                CompileError::ComputeLimitExceeded(
                    String::from_str("workgroup size"),
                    saturate(group),
                    max_workgroup_size,
                ),
            );
        }
        let threads = ceil(x, group);
        Ok((threads as u32, group as u32))
    } else {
        assert(x * 1 >= x);
        Ok((x as u32, 1))
    }
}

} // verus!

//! Concurrency ceiling heuristic: from sampled host resources (CPU cores,
//! available memory, a short network-throughput window) propose how many
//! workers to run, clamped to `[1, job count]` and to an optional user
//! override. The sampling itself is host I/O and happens outside; this
//! module holds the decision.

use vstd::prelude::*;

verus! {

/// Assumed memory footprint of one in-flight task, in KiB.
pub const PER_TASK_MEMORY_KB: u64 = 64 * 1024;

/// Assumed bandwidth need of one in-flight task, in bytes per second.
pub const PER_TASK_BANDWIDTH_BYTES: u64 = 512 * 1024;

/// `ceil(x * 85 / 100)`: 85 percent of a resource, rounded up.
pub open spec fn scaled_85_up(x: int) -> int {
    (x * 85 + 99) / 100
}

/// The number of workers the CPU supports.
pub open spec fn cpu_limit_spec(cpu_cores: nat) -> int {
    let cores = if cpu_cores == 0 {
        1
    } else {
        cpu_cores as int
    };
    scaled_85_up(cores)
}

/// The number of workers the available memory supports, at least one.
pub open spec fn memory_limit_spec(available_kb: nat) -> int {
    let avail = if available_kb < PER_TASK_MEMORY_KB {
        PER_TASK_MEMORY_KB as int
    } else {
        available_kb as int
    };
    let limit = (avail * 85) / (100 * PER_TASK_MEMORY_KB);
    if limit < 1 {
        1
    } else {
        limit
    }
}

/// The number of workers the sampled bandwidth supports. The sample is the
/// byte-counter delta over a half-second window, so the bandwidth estimate
/// is twice the delta. Below one task's worth the sample is treated as
/// noise and the other limits rule.
pub open spec fn network_limit_spec(delta_bytes: nat, cpu_cores: nat, available_kb: nat) -> int {
    let bandwidth = delta_bytes * 2;
    if bandwidth < PER_TASK_BANDWIDTH_BYTES {
        let c = cpu_limit_spec(cpu_cores);
        let m = memory_limit_spec(available_kb);
        if c > m {
            c
        } else {
            m
        }
    } else {
        let limit = (bandwidth * 85 + (100 * PER_TASK_BANDWIDTH_BYTES - 1)) / (100
            * PER_TASK_BANDWIDTH_BYTES);
        if limit < 1 {
            1
        } else {
            limit
        }
    }
}

/// The concurrency ceiling for a run: a user override clamped to
/// `[1, total]`, or else the least of the three resource limits, clamped to
/// `[1, total]`, where `total` is the job count floored at one.
pub open spec fn concurrency_spec(
    user_override: Option<usize>,
    total_files: nat,
    cpu_cores: nat,
    available_kb: nat,
    delta_bytes: nat,
) -> int {
    let total = if total_files == 0 {
        1
    } else {
        total_files as int
    };
    match user_override {
        Some(limit) => {
            if limit < 1 {
                1
            } else if limit > total {
                total
            } else {
                limit as int
            }
        },
        None => {
            let c = cpu_limit_spec(cpu_cores);
            let m = memory_limit_spec(available_kb);
            let n = network_limit_spec(delta_bytes, cpu_cores, available_kb);
            let least = if c <= m && c <= n {
                c
            } else if m <= n {
                m
            } else {
                n
            };
            if least < 1 {
                1
            } else if least > total {
                total
            } else {
                least
            }
        },
    }
}

/// The concurrency ceiling from the sampled resources; the sampling is done
/// by the caller.
pub fn determine_concurrency_limit(
    user_override: Option<usize>,
    total_files: usize,
    cpu_cores: usize,
    available_kb: u64,
    delta_bytes: u64,
) -> (r: usize)
    ensures
        r == concurrency_spec(
            user_override,
            total_files as nat,
            cpu_cores as nat,
            available_kb as nat,
            delta_bytes as nat,
        ),
        1 <= r,
        total_files > 0 ==> r <= total_files,
{
    let total: usize = if total_files == 0 {
        1
    } else {
        total_files
    };
    if let Some(limit) = user_override {
        return if limit < 1 {
            1
        } else if limit > total {
            total
        } else {
            limit
        };
    }
    let cores: u128 = if cpu_cores == 0 {
        1
    } else {
        cpu_cores as u128
    };
    proof {
        assert(cores * 85 + 99 < 0x100000000000000000000u128) by (nonlinear_arith)
            requires 0 <= cores <= 0xffffffffffffffffu128,
        ;
    }
    let cpu_limit: u128 = (cores * 85 + 99) / 100;
    let avail: u128 = if available_kb < PER_TASK_MEMORY_KB {
        PER_TASK_MEMORY_KB as u128
    } else {
        available_kb as u128
    };
    proof {
        assert(avail * 85 < 0x100000000000000000000u128) by (nonlinear_arith)
            requires 0 <= avail <= 0xffffffffffffffffu128,
        ;
    }
    let mem_raw: u128 = (avail * 85) / (100 * PER_TASK_MEMORY_KB as u128);
    let mem_limit: u128 = if mem_raw < 1 {
        1
    } else {
        mem_raw
    };
    let bandwidth: u128 = (delta_bytes as u128) * 2;
    let net_limit: u128 = if bandwidth < PER_TASK_BANDWIDTH_BYTES as u128 {
        if cpu_limit > mem_limit {
            cpu_limit
        } else {
            mem_limit
        }
    } else {
        proof {
            assert(bandwidth * 85 < 0x100000000000000000000u128) by (nonlinear_arith)
                requires 0 <= bandwidth <= 0x1fffffffffffffffeu128,
            ;
        }
        let raw: u128 = (bandwidth * 85 + (100 * PER_TASK_BANDWIDTH_BYTES as u128 - 1)) / (100
            * PER_TASK_BANDWIDTH_BYTES as u128);
        if raw < 1 {
            1
        } else {
            raw
        }
    };
    let least: u128 = if cpu_limit <= mem_limit && cpu_limit <= net_limit {
        cpu_limit
    } else if mem_limit <= net_limit {
        mem_limit
    } else {
        net_limit
    };
    if least < 1 {
        1
    } else if least > total as u128 {
        total
    } else {
        least as usize
    }
}

} // verus!

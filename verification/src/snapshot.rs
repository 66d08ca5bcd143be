//! The snapshot: one immutable result of a sampling pass.

use crate::float_bits::{F32Bits, F64Bits};
use vstd::prelude::*;

verus! {

/// What the sampler read about the running process in one pass.
#[derive(Clone, Copy, Debug, PartialEq, Eq, Structural)]
pub struct ProcessSample {
    /// CPU utilization of the process, percent.
    pub cpu_usage: F32Bits,
    /// Resident memory of the process, bytes.
    pub memory: u64,
}

/// The raw readings of one sampling pass, before the guards are applied.
#[derive(Clone, Copy, Debug, PartialEq, Eq, Structural)]
pub struct RawSample {
    /// Mean utilization over all logical cores, percent.
    pub cpu_usage: F32Bits,
    /// Host memory in use, bytes.
    pub memory_used: u64,
    /// Host total memory, bytes.
    pub memory_total: u64,
    /// `memory_used / memory_total * 100` as the caller computed it. It is
    /// read only when `memory_total` is positive.
    pub memory_ratio: F64Bits,
    /// The process table entry of the running process, if the lookup found one.
    pub process: Option<ProcessSample>,
}

/// The fields of a snapshot, as contracts speak of them.
pub ghost struct SnapshotView {
    pub cpu_usage: F32Bits,
    pub memory_usage: F64Bits,
    pub memory_used: u64,
    pub memory_total: u64,
    pub process_cpu_usage: F32Bits,
    pub process_memory_usage: u64,
}

/// Host memory utilization of a pass: the caller's ratio when there is
/// memory to divide by, zero otherwise.
pub open spec fn guarded_memory_usage(raw: RawSample) -> F64Bits {
    if raw.memory_total > 0 {
        raw.memory_ratio
    } else {
        F64Bits { bits: 0 }
    }
}

/// The snapshot that a pass with readings `raw` publishes.
pub open spec fn snapshot_of(raw: RawSample) -> SnapshotView {
    SnapshotView {
        cpu_usage: raw.cpu_usage,
        memory_usage: guarded_memory_usage(raw),
        memory_used: raw.memory_used,
        memory_total: raw.memory_total,
        process_cpu_usage: match raw.process {
            Some(p) => p.cpu_usage,
            None => F32Bits { bits: 0 },
        },
        process_memory_usage: match raw.process {
            Some(p) => p.memory,
            None => 0,
        },
    }
}

/// Whether the division-by-zero guard shows in `v`: with no memory to divide
/// by, utilization is zero.
pub open spec fn division_guarded(v: SnapshotView) -> bool {
    v.memory_total == 0 ==> v.memory_usage.is_zero()
}

/// One immutable sampling result covering host and process CPU and memory.
///
/// A value is built from the readings of a single pass and never changed
/// afterwards; readers get copies.
#[derive(Clone, Copy, Debug, PartialEq, Eq, Structural)]
pub struct SystemInfo {
    cpu_usage: F32Bits,
    memory_usage: F64Bits,
    memory_used: u64,
    memory_total: u64,
    process_cpu_usage: F32Bits,
    process_memory_usage: u64,
}

impl View for SystemInfo {
    type V = SnapshotView;

    closed spec fn view(&self) -> SnapshotView {
        SnapshotView {
            cpu_usage: self.cpu_usage,
            memory_usage: self.memory_usage,
            memory_used: self.memory_used,
            memory_total: self.memory_total,
            process_cpu_usage: self.process_cpu_usage,
            process_memory_usage: self.process_memory_usage,
        }
    }
}

impl SystemInfo {
    /// Holds of every snapshot: the division-by-zero guard shows in it.
    #[verifier::type_invariant]
    pub open spec fn well_formed(self) -> bool {
        division_guarded(self@)
    }

    /// The snapshot that `from_sample` builds of `raw`.
    pub closed spec fn of_sample(raw: RawSample) -> SystemInfo {
        SystemInfo {
            cpu_usage: raw.cpu_usage,
            memory_usage: guarded_memory_usage(raw),
            memory_used: raw.memory_used,
            memory_total: raw.memory_total,
            process_cpu_usage: snapshot_of(raw).process_cpu_usage,
            process_memory_usage: snapshot_of(raw).process_memory_usage,
        }
    }

    /// Builds the snapshot of one sampling pass.
    ///
    /// Memory utilization is the caller's ratio, or zero when the host
    /// reports no memory; process metrics are zero when the process table
    /// had no entry for the running process.
    pub fn from_sample(raw: &RawSample) -> (info: SystemInfo)
        ensures
            info == Self::of_sample(*raw),
            info@ == snapshot_of(*raw),
            division_guarded(info@),
            raw.memory_total == 0 ==> info@.memory_usage.is_zero(),
            raw.process is None ==> info@.process_cpu_usage.is_zero()
                && info@.process_memory_usage == 0,
    {
        let memory_usage = if raw.memory_total > 0 {
            raw.memory_ratio
        } else {
            F64Bits::zero()
        };
        let (process_cpu_usage, process_memory_usage) = match raw.process {
            Some(p) => (p.cpu_usage, p.memory),
            None => (F32Bits::zero(), 0),
        };
        SystemInfo {
            cpu_usage: raw.cpu_usage,
            memory_usage,
            memory_used: raw.memory_used,
            memory_total: raw.memory_total,
            process_cpu_usage,
            process_memory_usage,
        }
    }

    /// Host-wide CPU utilization, percent.
    pub fn cpu_usage(&self) -> (r: F32Bits)
        ensures
            r == self@.cpu_usage,
    {
        self.cpu_usage
    }

    /// Host-wide memory utilization, percent; zero when `memory_total` is.
    pub fn memory_usage(&self) -> (r: F64Bits)
        ensures
            r == self@.memory_usage,
            self@.memory_total == 0 ==> r.is_zero(),
    {
        proof {
            use_type_invariant(self);
        }
        self.memory_usage
    }

    /// Host memory in use, bytes.
    pub fn memory_used(&self) -> (r: u64)
        ensures
            r == self@.memory_used,
    {
        self.memory_used
    }

    /// Host total memory, bytes.
    pub fn memory_total(&self) -> (r: u64)
        ensures
            r == self@.memory_total,
    {
        self.memory_total
    }

    /// CPU utilization of the running process, percent.
    pub fn process_cpu_usage(&self) -> (r: F32Bits)
        ensures
            r == self@.process_cpu_usage,
    {
        self.process_cpu_usage
    }

    /// Resident memory of the running process, bytes.
    pub fn process_memory_usage(&self) -> (r: u64)
        ensures
            r == self@.process_memory_usage,
    {
        self.process_memory_usage
    }
}

/// The fields of the snapshot built of `raw` are those that `snapshot_of`
/// gives, so the guards show in it: zero memory utilization when the host
/// reports no memory, zero process metrics when the process was not found.
pub proof fn lemma_of_sample(raw: RawSample)
    ensures
        SystemInfo::of_sample(raw)@ == snapshot_of(raw),
        division_guarded(SystemInfo::of_sample(raw)@),
        raw.memory_total == 0 ==> SystemInfo::of_sample(raw)@.memory_usage.is_zero(),
        raw.process is None ==> SystemInfo::of_sample(raw)@.process_cpu_usage.is_zero()
            && SystemInfo::of_sample(raw)@.process_memory_usage == 0,
{
}

} // verus!

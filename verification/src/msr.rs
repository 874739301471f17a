//! Access to model-specific registers, one logical CPU after the other.
//!
//! The builders and sessions here decide which CPU is next, what is asked
//! of it and when to stop; the caller moves the eight bytes and reports how
//! each transfer went.

use vstd::prelude::*;

verus! {

/// A register transfer failed on one CPU.
#[derive(Debug, Clone, Copy, PartialEq, Eq, Structural)]
pub struct RegisterIoError {
    /// The logical CPU on which it failed.
    pub cpu: usize,
    /// The operating system's error code, as the caller reported it.
    pub cause: i32,
}

/// A request to read register `msr` on logical CPU `cpu`.
#[derive(Debug, Clone, Copy, PartialEq, Eq, Structural)]
pub struct RegisterRead {
    pub cpu: usize,
    pub msr: u64,
}

/// A request to write `val` to register `msr` on logical CPU `cpu`.
#[derive(Debug, Clone, Copy, PartialEq, Eq, Structural)]
pub struct RegisterWrite {
    pub cpu: usize,
    pub msr: u64,
    pub val: u64,
}

/// The `width` lowest bits set.
pub open spec fn low_mask(width: u64) -> u64 {
    if width >= 64 {
        u64::MAX
    } else {
        ((1u64 << width) - 1) as u64
    }
}

/// Bits `from` to `to` of `val`, both included, moved down to bit 0.
pub open spec fn bit_range(val: u64, from: u32, to: u32) -> u64 {
    (val >> (from as u64)) & low_mask((to - from + 1) as u64)
}

/// What a builder with the bit range `mask` makes of a register's value.
pub open spec fn extract_bits_spec(mask: Option<(u32, u32)>, val: u64) -> u64 {
    match mask {
        Some((from, to)) => bit_range(val, from, to),
        None => val,
    }
}

/// The bits of a value that was shifted down by `from` and cut to `width`
/// bits.
proof fn lemma_shifted_mask_bits(val: u64, from: u64, width: u64, i: u64)
    by (bit_vector)
    requires
        from < 64,
        1 <= width < 64,
        width <= 64 - from,
        i < width,
    ensures
        (((val >> from) & (((1u64 << width) - 1) as u64)) >> i) & 1 == (val >> (from + i) as u64)
            & 1,
        ((val >> from) & (((1u64 << width) - 1) as u64)) >> width == 0,
{
}

/// The range is inclusive at both ends: bit `i` of `bit_range(val, from,
/// to)` is bit `from + i` of `val` for every `i` up to `to - from`, and no
/// bit is set above that.
pub proof fn lemma_bit_range(val: u64, from: u32, to: u32, i: u32)
    requires
        from < to <= 63,
        i <= to - from,
    ensures
        (bit_range(val, from, to) >> (i as u64)) & 1 == (val >> ((from + i) as u64)) & 1,
        to - from < 63 ==> bit_range(val, from, to) >> ((to - from + 1) as u64) == 0,
{
    let width = (to - from + 1) as u64;
    if width < 64 {
        lemma_shifted_mask_bits(val, from as u64, width, i as u64);
    } else {
        assert((val >> 0) & 0xFFFF_FFFF_FFFF_FFFF == val) by (bit_vector);
    }
}

/// The progress of one pass over the logical CPUs `0..cpu_count`, which
/// ends at the first failure.
#[derive(Debug, Clone, Copy, PartialEq, Eq, Structural)]
pub struct CpuSweep {
    /// Number of logical CPUs to visit.
    pub cpu_count: usize,
    /// The CPUs below this one are done.
    pub next: usize,
    /// The failure that ended the pass, if one did.
    pub failure: Option<RegisterIoError>,
}

impl CpuSweep {
    /// No CPU beyond the last is ever due.
    pub open spec fn wf(self) -> bool {
        self.next <= self.cpu_count
    }

    /// The CPU that is due: the next one, unless the pass has failed or is
    /// complete.
    pub open spec fn pending_spec(self) -> Option<usize> {
        if self.failure is None && self.next < self.cpu_count {
            Some(self.next)
        } else {
            None
        }
    }

    /// The pass after the transfer on the CPU that was due went as
    /// `outcome` says. With no CPU due nothing changes.
    pub open spec fn advance_spec(self, outcome: Result<(), i32>) -> CpuSweep {
        match self.pending_spec() {
            None => self,
            Some(cpu) => match outcome {
                Ok(_) => CpuSweep {
                    cpu_count: self.cpu_count,
                    next: (self.next + 1) as usize,
                    failure: None,
                },
                Err(cause) => CpuSweep {
                    cpu_count: self.cpu_count,
                    next: self.next,
                    failure: Some(RegisterIoError { cpu, cause }),
                },
            },
        }
    }

    /// How the pass ended: `None` while a CPU is due.
    pub open spec fn result_spec(self) -> Option<Result<(), RegisterIoError>> {
        match self.failure {
            Some(e) => Some(Err(e)),
            None => if self.next < self.cpu_count {
                None
            } else {
                Some(Ok(()))
            },
        }
    }

    /// The pass after a run of outcomes, taken in order.
    pub open spec fn run_spec(self, outcomes: Seq<Result<(), i32>>) -> CpuSweep
        decreases outcomes.len(),
    {
        if outcomes.len() == 0 {
            self
        } else {
            self.advance_spec(outcomes[0]).run_spec(outcomes.drop_first())
        }
    }

    /// The CPUs on which a transfer is asked for while a run of outcomes is
    /// taken in, in order.
    pub open spec fn requests_spec(self, outcomes: Seq<Result<(), i32>>) -> Seq<usize>
        decreases outcomes.len(),
    {
        if outcomes.len() == 0 {
            Seq::empty()
        } else {
            match self.pending_spec() {
                None => Seq::empty(),
                Some(cpu) => seq![cpu] + self.advance_spec(outcomes[0]).requests_spec(
                    outcomes.drop_first(),
                ),
            }
        }
    }

    /// A pass over `cpu_count` CPUs with none done yet.
    pub open spec fn new_spec(cpu_count: usize) -> CpuSweep {
        CpuSweep { cpu_count, next: 0, failure: None }
    }

    /// A pass over `cpu_count` CPUs with none done yet.
    pub fn new(cpu_count: usize) -> (s: CpuSweep)
        ensures
            s == CpuSweep::new_spec(cpu_count),
            s.wf(),
    {
        CpuSweep { cpu_count, next: 0, failure: None }
    }

    /// The CPU that is due, if any.
    pub fn pending(&self) -> (r: Option<usize>)
        ensures
            r == self.pending_spec(),
    {
        if self.failure.is_none() && self.next < self.cpu_count {
            Some(self.next)
        } else {
            None
        }
    }

    /// Takes in how the transfer on the CPU that was due went. Success
    /// moves on to the next CPU; a failure ends the pass, and no CPU is due
    /// from then on.
    pub fn advance(&mut self, outcome: Result<(), i32>)
        requires
            old(self).wf(),
        ensures
            *final(self) == old(self).advance_spec(outcome),
            final(self).wf(),
            outcome is Err && old(self).pending_spec() is Some ==> final(self).pending_spec()
                is None,
    {
        match self.pending() {
            None => {},
            Some(cpu) => match outcome {
                Ok(_) => {
                    self.next = self.next + 1;
                },
                Err(cause) => {
                    self.failure = Some(RegisterIoError { cpu, cause });
                },
            },
        }
    }

    /// How the pass ended; `None` while a CPU is due.
    pub fn result(&self) -> (r: Option<Result<(), RegisterIoError>>)
        ensures
            r == self.result_spec(),
            r is None <==> self.pending_spec() is Some,
    {
        match self.failure {
            Some(e) => Some(Err(e)),
            None => if self.next < self.cpu_count {
                None
            } else {
                Some(Ok(()))
            },
        }
    }
}

/// A pass that has failed stays as it is whatever is reported to it, and
/// asks for no further transfer.
pub proof fn lemma_failed_sweep_is_final(s: CpuSweep, outcomes: Seq<Result<(), i32>>)
    requires
        s.failure is Some,
    ensures
        s.pending_spec() is None,
        s.run_spec(outcomes) == s,
        s.requests_spec(outcomes) == Seq::<usize>::empty(),
    decreases outcomes.len(),
{
    if outcomes.len() > 0 {
        lemma_failed_sweep_is_final(s, outcomes.drop_first());
    }
}

/// Fail-fast: when the first `k` transfers of a pass succeed and the next
/// one fails, transfers are asked for on exactly the `k + 1` CPUs from the
/// one that was due onwards, none on any later CPU, and the pass reports
/// the failing CPU with its cause.
pub proof fn lemma_sweep_fail_fast(s: CpuSweep, outcomes: Seq<Result<(), i32>>, k: nat)
    requires
        s.wf(),
        s.failure is None,
        s.next + k < s.cpu_count,
        k < outcomes.len(),
        forall|i: int| 0 <= i < k ==> (#[trigger] outcomes[i]) is Ok,
        outcomes[k as int] is Err,
    ensures
        s.requests_spec(outcomes) == Seq::new(k + 1, |i: int| (s.next + i) as usize),
        s.run_spec(outcomes).failure == Some(
            RegisterIoError { cpu: (s.next + k) as usize, cause: outcomes[k as int]->Err_0 },
        ),
        s.run_spec(outcomes).next == s.next + k,
        s.run_spec(outcomes).result_spec() == Some(
            Err::<(), RegisterIoError>(
                RegisterIoError { cpu: (s.next + k) as usize, cause: outcomes[k as int]->Err_0 },
            ),
        ),
    decreases k,
{
    let rest = outcomes.drop_first();
    let after = s.advance_spec(outcomes[0]);
    if k == 0 {
        lemma_failed_sweep_is_final(after, rest);
        assert(s.requests_spec(outcomes) =~= Seq::new(1, |i: int| (s.next + i) as usize));
    } else {
        assert(outcomes[0] is Ok);
        assert forall|i: int| 0 <= i < k - 1 implies (#[trigger] rest[i]) is Ok by {
            assert(rest[i] == outcomes[i + 1]);
        }
        assert(rest[k - 1] == outcomes[k as int]);
        lemma_sweep_fail_fast(after, rest, (k - 1) as nat);
        assert(s.requests_spec(outcomes) =~= Seq::new(k + 1, |i: int| (s.next + i) as usize));
    }
}

/// The number of logical CPUs, from `num_cpus::get`. It depends on the
/// machine and on the process's affinity, so nothing is claimed of it.
#[verifier::external_body]
pub(crate) fn logical_cpu_count() -> (n: usize) {
    num_cpus::get()
}

/// Builder structure for reading from a MSR (Model-Specific Register).
#[derive(Debug, Clone, Copy)]
pub struct ReadMsrBuilder {
    msr: u64,
    mask: Option<(u32, u32)>,
}

impl ReadMsrBuilder {
    /// The register's address.
    pub closed spec fn msr_spec(&self) -> u64 {
        self.msr
    }

    /// The bit range to extract, if one is set.
    pub closed spec fn mask_spec(&self) -> Option<(u32, u32)> {
        self.mask
    }

    /// A bit range starts below its end and ends inside the register.
    pub open spec fn wf(&self) -> bool {
        self.mask_spec() matches Some(m) ==> m.0 < m.1 && m.1 <= 63
    }

    /// Creates a new ReadMsrBuilder for the given MSR.
    pub fn new(msr: u64) -> (r: ReadMsrBuilder)
        ensures
            r.msr_spec() == msr,
            r.mask_spec() is None,
            r.wf(),
    {
        ReadMsrBuilder { msr, mask: None }
    }

    /// Sets the bits to read: `mask.0` to `mask.1`, both included.
    pub fn mask(&mut self, mask: (u32, u32)) -> (r: &mut ReadMsrBuilder)
        requires
            mask.0 < mask.1,
            mask.1 <= 63,
        ensures
            r.msr_spec() == old(self).msr_spec(),
            r.mask_spec() == Some(mask),
            r.wf(),
            *final(self) == *final(r),
    {
        self.mask = Some(mask);
        self
    }

    /// The register's address.
    pub fn msr(&self) -> (r: u64)
        ensures
            r == self.msr_spec(),
    {
        self.msr
    }

    /// The part of a register's value that the builder asks for.
    pub fn extract_bits(&self, val: u64) -> (r: u64)
        requires
            self.wf(),
        ensures
            r == extract_bits_spec(self.mask_spec(), val),
    {
        let (from_bit, to_bit) = match self.mask {
            Some(m) => m,
            None => {
                return val;
            },
        };
        let width: u64 = (to_bit - from_bit + 1) as u64;
        let mask: u64 = if width >= 64 {
            u64::MAX
        } else {
            assert((1u64 << width) >= 1) by (bit_vector)
                requires
                    width < 64,
            ;
            (1u64 << width) - 1
        };
        (val >> (from_bit as u64)) & mask
    }

    /// Starts a read of the register on every logical CPU of the machine.
    pub fn read(&self) -> (s: ReadSession)
        requires
            self.wf(),
        ensures
            s.wf(),
            s.builder == *self,
            s.values@ == Seq::<u64>::empty(),
            s.sweep.next == 0,
            s.sweep.failure is None,
    {
        self.read_on(logical_cpu_count())
    }

    /// Starts a read of the register on the logical CPUs `0..cpu_count`.
    pub fn read_on(&self, cpu_count: usize) -> (s: ReadSession)
        requires
            self.wf(),
        ensures
            s.wf(),
            s.builder == *self,
            s.values@ == Seq::<u64>::empty(),
            s.sweep == CpuSweep::new_spec(cpu_count),
    {
        ReadSession { builder: *self, sweep: CpuSweep::new(cpu_count), values: Vec::new() }
    }

    /// The request that reads the register on the first CPU.
    pub fn first_request(&self) -> (r: RegisterRead)
        ensures
            r == (RegisterRead { cpu: 0, msr: self.msr_spec() }),
    {
        RegisterRead { cpu: 0, msr: self.msr }
    }

    /// The value for the first CPU in the system, from the outcome of the
    /// read on it: the bits asked for, or the failure with CPU 0.
    pub fn read_first(&self, outcome: Result<u64, i32>) -> (r: Result<u64, RegisterIoError>)
        requires
            self.wf(),
        ensures
            r == match outcome {
                Ok(val) => Ok::<u64, RegisterIoError>(extract_bits_spec(self.mask_spec(), val)),
                Err(cause) => Err(RegisterIoError { cpu: 0, cause }),
            },
    {
        match outcome {
            Ok(val) => Ok(self.extract_bits(val)),
            Err(cause) => Err(RegisterIoError { cpu: 0, cause }),
        }
    }
}

/// A read of one register on every logical CPU, in progress.
pub struct ReadSession {
    /// What is read, and which bits of it.
    pub builder: ReadMsrBuilder,
    /// Which CPU is due.
    pub sweep: CpuSweep,
    /// The values of the CPUs done so far, by CPU id.
    pub values: Vec<u64>,
}

impl ReadSession {
    /// One value per CPU that is done.
    pub open spec fn wf(&self) -> bool {
        &&& self.builder.wf()
        &&& self.sweep.wf()
        &&& self.values@.len() == self.sweep.next
    }

    /// The read that is due: the register on the next CPU, unless a read
    /// has failed or every CPU is done.
    pub fn next_read(&self) -> (r: Option<RegisterRead>)
        ensures
            r == match self.sweep.pending_spec() {
                Some(cpu) => Some(RegisterRead { cpu, msr: self.builder.msr_spec() }),
                None => None,
            },
    {
        match self.sweep.pending() {
            Some(cpu) => Some(RegisterRead { cpu, msr: self.builder.msr() }),
            None => None,
        }
    }

    /// Takes in the outcome of the read that was due: a value is kept, cut
    /// to the bits asked for; a failure ends the session.
    pub fn record(&mut self, outcome: Result<u64, i32>)
        requires
            old(self).wf(),
        ensures
            final(self).wf(),
            final(self).builder == old(self).builder,
            final(self).sweep == old(self).sweep.advance_spec(
                match outcome {
                    Ok(_) => Ok(()),
                    Err(cause) => Err(cause),
                },
            ),
            final(self).values@ == if old(self).sweep.pending_spec() is Some && outcome is Ok {
                old(self).values@.push(
                    extract_bits_spec(old(self).builder.mask_spec(), outcome->Ok_0),
                )
            } else {
                old(self).values@
            },
    {
        let due = self.sweep.pending();
        match outcome {
            Ok(val) => {
                self.sweep.advance(Ok(()));
                if due.is_some() {
                    let bits = self.builder.extract_bits(val);
                    self.values.push(bits);
                }
            },
            Err(cause) => {
                self.sweep.advance(Err(cause));
            },
        }
    }

    /// The values of all CPUs, by CPU id, or the first failure; `None`
    /// while a read is due.
    pub fn finish(self) -> (r: Option<Result<Vec<u64>, RegisterIoError>>)
        requires
            self.wf(),
        ensures
            r is None <==> self.sweep.pending_spec() is Some,
            match r {
                Some(Ok(values)) => self.sweep.failure is None && values@ == self.values@
                    && values@.len() == self.sweep.cpu_count,
                Some(Err(e)) => self.sweep.failure == Some(e),
                None => true,
            },
    {
        match self.sweep.result() {
            None => None,
            Some(Ok(_)) => Some(Ok(self.values)),
            Some(Err(e)) => Some(Err(e)),
        }
    }
}

/// Builder structure for writing to a MSR (Model-Specific Register).
#[derive(Debug, Clone, Copy)]
pub struct WriteMsrBuilder {
    msr: u64,
    val: u64,
}

impl WriteMsrBuilder {
    /// The register's address.
    pub closed spec fn msr_spec(&self) -> u64 {
        self.msr
    }

    /// The value to write.
    pub closed spec fn val_spec(&self) -> u64 {
        self.val
    }

    /// Creates a new WriteMsrBuilder with the given MSR/value pair.
    ///
    /// By default, values will be written to every CPU in the system.
    pub fn new(msr: u64, val: u64) -> (r: WriteMsrBuilder)
        ensures
            r.msr_spec() == msr,
            r.val_spec() == val,
    {
        WriteMsrBuilder { msr, val }
    }

    /// Starts a write of the value to all CPUs in the system.
    pub fn write(&self) -> (s: WriteSession)
        ensures
            s.wf(),
            s.builder == *self,
            s.sweep.next == 0,
            s.sweep.failure is None,
    {
        self.write_on(logical_cpu_count())
    }

    /// Starts a write of the value to the logical CPUs `0..cpu_count`.
    pub fn write_on(&self, cpu_count: usize) -> (s: WriteSession)
        ensures
            s.wf(),
            s.builder == *self,
            s.sweep == CpuSweep::new_spec(cpu_count),
    {
        WriteSession { builder: *self, sweep: CpuSweep::new(cpu_count) }
    }

    /// The request that writes the value to a single CPU in the system.
    pub fn write_one(&self, cpu: usize) -> (r: RegisterWrite)
        ensures
            r == (RegisterWrite { cpu, msr: self.msr_spec(), val: self.val_spec() }),
    {
        RegisterWrite { cpu, msr: self.msr, val: self.val }
    }
}

/// A write of one value to one register on every logical CPU, in progress.
pub struct WriteSession {
    /// What is written, and where.
    pub builder: WriteMsrBuilder,
    /// Which CPU is due.
    pub sweep: CpuSweep,
}

impl WriteSession {
    /// The pass is within its bounds.
    pub open spec fn wf(&self) -> bool {
        self.sweep.wf()
    }

    /// The write that is due: the value on the next CPU, unless a write
    /// has failed or every CPU is done.
    pub fn next_write(&self) -> (r: Option<RegisterWrite>)
        ensures
            r == match self.sweep.pending_spec() {
                Some(cpu) => Some(
                    RegisterWrite {
                        cpu,
                        msr: self.builder.msr_spec(),
                        val: self.builder.val_spec(),
                    },
                ),
                None => None,
            },
    {
        match self.sweep.pending() {
            Some(cpu) => Some(self.builder.write_one(cpu)),
            None => None,
        }
    }

    /// Takes in the outcome of the write that was due. After a failure no
    /// write is due any more: the CPUs after the failing one are left as
    /// they are, and those before it keep the new value.
    pub fn record(&mut self, outcome: Result<(), i32>)
        requires
            old(self).wf(),
        ensures
            final(self).wf(),
            final(self).builder == old(self).builder,
            final(self).sweep == old(self).sweep.advance_spec(outcome),
            (outcome is Err && old(self).sweep.pending_spec() is Some)
                ==> final(self).sweep.pending_spec() is None,
    {
        self.sweep.advance(outcome);
    }

    /// How the write ended: on every CPU, or with the first failure; `None`
    /// while a write is due.
    pub fn result(&self) -> (r: Option<Result<(), RegisterIoError>>)
        ensures
            r == self.sweep.result_spec(),
            r is None <==> self.sweep.pending_spec() is Some,
    {
        self.sweep.result()
    }
}

} // verus!

//! Applying a batch of pending writes: each write goes to every logical
//! CPU in turn and stops at its first failure; the batch then goes on with
//! the next write.

use crate::msr::{logical_cpu_count, CpuSweep, RegisterIoError, RegisterWrite};
use crate::planner::PendingWrite;
use vstd::prelude::*;

verus! {

/// A batch of writes in progress.
pub struct BatchSession {
    /// The writes, in the order in which they are applied.
    pub writes: Vec<PendingWrite>,
    /// Number of logical CPUs each write goes to.
    pub cpu_count: usize,
    /// The writes below this one are done.
    pub index: usize,
    /// The pass of the write that is in progress.
    pub sweep: CpuSweep,
    /// How each write that is done ended, by position in the batch.
    pub results: Vec<Result<(), RegisterIoError>>,
}

impl BatchSession {
    /// One result per write that is done, and while a write is in progress
    /// one of its CPUs is due.
    pub open spec fn wf(&self) -> bool {
        &&& self.index <= self.writes@.len()
        &&& self.results@.len() == self.index
        &&& self.sweep.wf()
        &&& self.sweep.cpu_count == self.cpu_count
        &&& self.index < self.writes@.len() ==> self.sweep.pending_spec() is Some
    }

    /// The transfer that is due: the write in progress, on the CPU that is
    /// due in its pass.
    pub open spec fn next_write_spec(&self) -> Option<RegisterWrite> {
        if self.index < self.writes@.len() {
            Some(
                RegisterWrite {
                    cpu: self.sweep.next,
                    msr: self.writes@[self.index as int].register,
                    val: self.writes@[self.index as int].value,
                },
            )
        } else {
            None
        }
    }

    /// Closes every write whose pass has ended and opens the next one.
    fn settle(&mut self)
        requires
            old(self).index <= old(self).writes@.len(),
            old(self).results@.len() == old(self).index,
            old(self).sweep.wf(),
            old(self).sweep.cpu_count == old(self).cpu_count,
        ensures
            final(self).wf(),
            final(self).writes@ == old(self).writes@,
            final(self).cpu_count == old(self).cpu_count,
            old(self).index <= final(self).index,
            final(self).results@.take(old(self).index as int) == old(self).results@,
            final(self).index == old(self).index ==> final(self).sweep == old(self).sweep,
            final(self).index == old(self).index <==> (old(self).index == old(self).writes@.len()
                || old(self).sweep.pending_spec() is Some),
            final(self).index > old(self).index ==> {
                &&& final(self).results@[old(self).index as int] == old(self).sweep.result_spec().unwrap()
                &&& final(self).sweep == CpuSweep::new_spec(old(self).cpu_count)
            },
            final(self).index > old(self).index + 1 ==> old(self).cpu_count == 0,
    {
        while self.index < self.writes.len() && self.sweep.pending().is_none()
            invariant
                self.writes@ == old(self).writes@,
                self.cpu_count == old(self).cpu_count,
                self.sweep.wf(),
                self.sweep.cpu_count == self.cpu_count,
                old(self).index <= self.index <= self.writes@.len(),
                self.results@.len() == self.index,
                self.results@.take(old(self).index as int) == old(self).results@,
                self.index == old(self).index ==> self.sweep == old(self).sweep,
                self.index > old(self).index ==> {
                    &&& old(self).sweep.pending_spec() is None
                    &&& self.results@[old(self).index as int] == old(self).sweep.result_spec().unwrap()
                    &&& self.sweep == CpuSweep::new_spec(old(self).cpu_count)
                },
                self.index > old(self).index + 1 ==> old(self).cpu_count == 0,
            decreases self.writes@.len() - self.index,
        {
            let ghost before = self.results@;
            match self.sweep.result() {
                Some(r) => {
                    self.results.push(r);
                },
                None => {},
            }
            self.index = self.index + 1;
            self.sweep = CpuSweep::new(self.cpu_count);
            proof {
                assert(self.results@ == before.push(self.results@.last()));
                assert(self.results@.take(old(self).index as int) =~= before.take(
                    old(self).index as int,
                ));
            }
        }
        proof {
            if self.index == old(self).index {
                assert(self.results@.take(old(self).index as int) =~= self.results@);
            }
        }
    }

    /// Starts the batch on the logical CPUs `0..cpu_count`.
    pub fn apply_on(writes: Vec<PendingWrite>, cpu_count: usize) -> (s: BatchSession)
        ensures
            s.wf(),
            s.writes@ == writes@,
            s.cpu_count == cpu_count,
            cpu_count > 0 ==> s.index == 0 && s.sweep == CpuSweep::new_spec(cpu_count),
            cpu_count == 0 ==> s.index == writes@.len(),
    {
        let mut s = BatchSession {
            writes,
            cpu_count,
            index: 0,
            sweep: CpuSweep::new(cpu_count),
            results: Vec::new(),
        };
        s.settle();
        proof {
            if cpu_count == 0 && s.index < s.writes@.len() {
                assert(s.sweep.pending_spec() is Some);
            }
        }
        s
    }

    /// Starts the batch on every logical CPU of the machine.
    pub fn apply(writes: Vec<PendingWrite>) -> (s: BatchSession)
        ensures
            s.wf(),
            s.writes@ == writes@,
            s.cpu_count > 0 ==> s.index == 0 && s.sweep == CpuSweep::new_spec(s.cpu_count),
    {
        BatchSession::apply_on(writes, logical_cpu_count())
    }

    /// The transfer that is due, if the batch is not done.
    pub fn next_write(&self) -> (r: Option<RegisterWrite>)
        requires
            self.wf(),
        ensures
            r == self.next_write_spec(),
    {
        if self.index < self.writes.len() {
            let w = self.writes[self.index];
            Some(RegisterWrite { cpu: self.sweep.next, msr: w.register, val: w.value })
        } else {
            None
        }
    }

    /// Takes in the outcome of the transfer that was due. A success moves
    /// on to the next CPU, or closes the write after the last one. A
    /// failure closes the write at once, its later CPUs untouched. Either
    /// way the batch goes on with the next write, from CPU 0.
    pub fn record(&mut self, outcome: Result<(), i32>)
        requires
            old(self).wf(),
        ensures
            final(self).wf(),
            final(self).writes@ == old(self).writes@,
            final(self).cpu_count == old(self).cpu_count,
            final(self).results@.take(old(self).index as int) == old(self).results@,
            old(self).index == old(self).writes@.len() ==> final(self).index == old(self).index,
            old(self).index < old(self).writes@.len() ==> {
                let after = old(self).sweep.advance_spec(outcome);
                if after.pending_spec() is Some {
                    final(self).index == old(self).index && final(self).sweep == after
                } else {
                    &&& final(self).index == old(self).index + 1
                    &&& final(self).results@[old(self).index as int] == after.result_spec().unwrap()
                    &&& final(self).sweep == CpuSweep::new_spec(old(self).cpu_count)
                }
            },
    {
        if self.index < self.writes.len() {
            self.sweep.advance(outcome);
            self.settle();
            proof {
                assert(old(self).cpu_count > 0);
            }
        } else {
            assert(self.results@.take(self.index as int) =~= self.results@);
        }
    }

    /// Whether every write of the batch is done.
    pub fn is_done(&self) -> (r: bool)
        requires
            self.wf(),
        ensures
            r == (self.next_write_spec() is None),
    {
        self.index >= self.writes.len()
    }
}

} // verus!

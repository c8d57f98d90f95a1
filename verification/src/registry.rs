//! The execution registry: the single owner of every execution record,
//! from insertion as `Pending` to its terminal state.  Records are held
//! in insertion order and identified by their position, so no two
//! executions ever share an id.
use vstd::prelude::*;
use crate::agent::{AgentExecution, AgentRequest, AgentResult, ExecutionStatus, ExecutionV};

verus! {

/// Why a registry update was refused: the id names no record, or the
/// record cannot make the requested transition.  Either signals a
/// coordinator bug and is reported, never swallowed.
#[derive(Clone, Copy, Debug, PartialEq, Eq, Structural)]
pub enum RegistryError {
    NotFound,
    InvalidTransition,
}

/// Concurrency-safe use is layered above: the registry itself is the
/// plain store, mutated by a single writer.
pub struct ExecutionRegistry {
    records: Vec<AgentExecution>,
}

impl View for ExecutionRegistry {
    type V = Seq<ExecutionV>;

    closed spec fn view(&self) -> Seq<ExecutionV> {
        self.records@.map_values(|r: AgentExecution| r@)
    }
}

impl ExecutionRegistry {
    /// Every record is well-formed and numbered by its position: ids
    /// are the insertion order, and therefore pairwise distinct.
    pub open spec fn wf(&self) -> bool {
        forall|i: int| 0 <= i < self@.len() ==> (#[trigger] self@[i]).wf() && self@[i].id == i
    }

    /// An empty registry.
    pub fn new() -> (r: ExecutionRegistry)
        ensures
            r@ == Seq::<ExecutionV>::empty(),
            r.wf(),
    {
        let r = ExecutionRegistry { records: Vec::new() };
        proof {
            assert(r@ =~= Seq::<ExecutionV>::empty());
        }
        r
    }

    /// Number of records ever inserted.
    pub fn len(&self) -> (n: usize)
        ensures
            n == self@.len(),
    {
        self.records.len()
    }

    /// Insert a fresh `Pending` record for an accepted request and hand
    /// back its id, which no earlier or later record shares.
    pub fn insert_pending(&mut self, request: AgentRequest, now: u64) -> (id: u64)
        requires
            old(self).wf(),
        ensures
            final(self).wf(),
            id == old(self)@.len(),
            final(self)@ == old(self)@.push(ExecutionV {
                id,
                request: request@,
                status: ExecutionStatus::Pending,
                result: None,
                error: None,
                started_at: now,
                completed_at: None,
            }),
    {
        let id: u64 = self.records.len() as u64;
        let rec = AgentExecution::new(request, id, now);
        self.records.push(rec);
        proof {
            assert(self@ =~= old(self)@.push(self.records@.last()@));
        }
        id
    }

    /// The record under an id, if any.
    pub fn get(&self, id: u64) -> (r: Option<&AgentExecution>)
        ensures
            id < self@.len() ==> (r matches Some(rec) && rec@ == self@[id as int]),
            id >= self@.len() ==> r is None,
    {
        if id < self.records.len() as u64 {
            Some(&self.records[id as usize])
        } else {
            None
        }
    }

    /// Move a `Pending` record to `Running`, stamping the start time.
    /// An unknown id or a record in any other state is refused and the
    /// registry left unchanged.
    pub fn mark_running(&mut self, id: u64, now: u64) -> (r: Result<(), RegistryError>)
        requires
            old(self).wf(),
        ensures
            final(self).wf(),
            id >= old(self)@.len() ==> r == Err::<(), RegistryError>(RegistryError::NotFound)
                && final(self)@ == old(self)@,
            id < old(self)@.len() && !(old(self)@[id as int].status is Pending) ==> r == Err::<(),
                RegistryError,
            >(RegistryError::InvalidTransition) && final(self)@ == old(self)@,
            id < old(self)@.len() && old(self)@[id as int].status is Pending ==> r == Ok::<(),
                RegistryError,
            >(()) && final(self)@ == old(self)@.update(
                id as int,
                ExecutionV {
                    status: ExecutionStatus::Running,
                    started_at: now,
                    ..old(self)@[id as int]
                },
            ),
    {
        if id >= self.records.len() as u64 {
            return Err(RegistryError::NotFound);
        }
        let i: usize = id as usize;
        let mut rec = self.records.remove(i);
        match rec.status {
            ExecutionStatus::Pending => {
                rec.start(now);
                self.records.insert(i, rec);
                proof {
                    assert(self@ =~= old(self)@.update(
                        id as int,
                        ExecutionV {
                            status: ExecutionStatus::Running,
                            started_at: now,
                            ..old(self)@[id as int]
                        },
                    ));
                }
                Ok(())
            },
            _ => {
                self.records.insert(i, rec);
                proof {
                    assert(self@ =~= old(self)@);
                }
                Err(RegistryError::InvalidTransition)
            },
        }
    }

    /// Move a `Running` record to `Completed` with its successful
    /// result; exactly one terminal update per record is possible.
    pub fn complete(&mut self, id: u64, result: AgentResult, now: u64) -> (r: Result<
        (),
        RegistryError,
    >)
        requires
            old(self).wf(),
            result@.wf(),
            result@.success,
        ensures
            final(self).wf(),
            id >= old(self)@.len() ==> r == Err::<(), RegistryError>(RegistryError::NotFound)
                && final(self)@ == old(self)@,
            id < old(self)@.len() && !(old(self)@[id as int].status is Running) ==> r == Err::<(),
                RegistryError,
            >(RegistryError::InvalidTransition) && final(self)@ == old(self)@,
            id < old(self)@.len() && old(self)@[id as int].status is Running ==> r == Ok::<(),
                RegistryError,
            >(()) && final(self)@ == old(self)@.update(
                id as int,
                ExecutionV {
                    status: ExecutionStatus::Completed,
                    result: Some(result@),
                    completed_at: Some(
                        if now >= old(self)@[id as int].started_at {
                            now
                        } else {
                            old(self)@[id as int].started_at
                        },
                    ),
                    ..old(self)@[id as int]
                },
            ),
    {
        if id >= self.records.len() as u64 {
            return Err(RegistryError::NotFound);
        }
        let i: usize = id as usize;
        let mut rec = self.records.remove(i);
        match rec.status {
            ExecutionStatus::Running => {
                rec.complete_success(result, now);
                self.records.insert(i, rec);
                proof {
                    assert(self@ =~= old(self)@.update(id as int, self.records@[id as int]@));
                }
                Ok(())
            },
            _ => {
                self.records.insert(i, rec);
                proof {
                    assert(self@ =~= old(self)@);
                }
                Err(RegistryError::InvalidTransition)
            },
        }
    }

    /// Move a `Running` record to `Failed` with its error description.
    pub fn fail(&mut self, id: u64, error: String, now: u64) -> (r: Result<(), RegistryError>)
        requires
            old(self).wf(),
        ensures
            final(self).wf(),
            id >= old(self)@.len() ==> r == Err::<(), RegistryError>(RegistryError::NotFound)
                && final(self)@ == old(self)@,
            id < old(self)@.len() && !(old(self)@[id as int].status is Running) ==> r == Err::<(),
                RegistryError,
            >(RegistryError::InvalidTransition) && final(self)@ == old(self)@,
            id < old(self)@.len() && old(self)@[id as int].status is Running ==> r == Ok::<(),
                RegistryError,
            >(()) && final(self)@ == old(self)@.update(
                id as int,
                ExecutionV {
                    status: ExecutionStatus::Failed,
                    error: Some(error@),
                    completed_at: Some(
                        if now >= old(self)@[id as int].started_at {
                            now
                        } else {
                            old(self)@[id as int].started_at
                        },
                    ),
                    ..old(self)@[id as int]
                },
            ),
    {
        if id >= self.records.len() as u64 {
            return Err(RegistryError::NotFound);
        }
        let i: usize = id as usize;
        let mut rec = self.records.remove(i);
        match rec.status {
            ExecutionStatus::Running => {
                rec.complete_error(error, now);
                self.records.insert(i, rec);
                proof {
                    assert(self@ =~= old(self)@.update(id as int, self.records@[id as int]@));
                }
                Ok(())
            },
            _ => {
                self.records.insert(i, rec);
                proof {
                    assert(self@ =~= old(self)@);
                }
                Err(RegistryError::InvalidTransition)
            },
        }
    }

    /// Record a best-effort cancellation: a non-terminal record moves
    /// to `Cancelled`; a terminal record is never touched again.
    pub fn cancel(&mut self, id: u64, now: u64) -> (r: Result<(), RegistryError>)
        requires
            old(self).wf(),
        ensures
            final(self).wf(),
            id >= old(self)@.len() ==> r == Err::<(), RegistryError>(RegistryError::NotFound)
                && final(self)@ == old(self)@,
            id < old(self)@.len() && old(self)@[id as int].status.spec_is_terminal() ==> r
                == Err::<(), RegistryError>(RegistryError::InvalidTransition) && final(self)@
                == old(self)@,
            id < old(self)@.len() && !old(self)@[id as int].status.spec_is_terminal() ==> r
                == Ok::<(), RegistryError>(()) && final(self)@ == old(self)@.update(
                id as int,
                ExecutionV {
                    status: ExecutionStatus::Cancelled,
                    completed_at: Some(
                        if now >= old(self)@[id as int].started_at {
                            now
                        } else {
                            old(self)@[id as int].started_at
                        },
                    ),
                    ..old(self)@[id as int]
                },
            ),
    {
        if id >= self.records.len() as u64 {
            return Err(RegistryError::NotFound);
        }
        let i: usize = id as usize;
        let mut rec = self.records.remove(i);
        if rec.status.is_terminal() {
            self.records.insert(i, rec);
            proof {
                assert(self@ =~= old(self)@);
            }
            Err(RegistryError::InvalidTransition)
        } else {
            rec.cancel(now);
            self.records.insert(i, rec);
            proof {
                assert(self@ =~= old(self)@.update(id as int, self.records@[id as int]@));
            }
            Ok(())
        }
    }

    /// Best-effort cancellation of everything still in flight: every
    /// non-terminal record moves to `Cancelled`; terminal records are
    /// never touched again.
    pub fn cancel_all(&mut self, now: u64)
        requires
            old(self).wf(),
        ensures
            final(self).wf(),
            final(self)@.len() == old(self)@.len(),
            forall|i: int|
                0 <= i < old(self)@.len() ==> final(self)@[i] == (
                if old(self)@[i].status.spec_is_terminal() {
                    old(self)@[i]
                } else {
                    ExecutionV {
                        status: ExecutionStatus::Cancelled,
                        completed_at: Some(
                            if now >= old(self)@[i].started_at {
                                now
                            } else {
                                old(self)@[i].started_at
                            },
                        ),
                        ..old(self)@[i]
                    }
                }),
    {
        let total: usize = self.records.len();
        let mut idx: usize = 0;
        while idx < total
            invariant
                self.wf(),
                total == old(self)@.len(),
                self@.len() == total,
                idx <= total,
                forall|i: int|
                    0 <= i < idx ==> self@[i] == (
                    if old(self)@[i].status.spec_is_terminal() {
                        old(self)@[i]
                    } else {
                        ExecutionV {
                            status: ExecutionStatus::Cancelled,
                            completed_at: Some(
                                if now >= old(self)@[i].started_at {
                                    now
                                } else {
                                    old(self)@[i].started_at
                                },
                            ),
                            ..old(self)@[i]
                        }
                    }),
                forall|i: int| idx <= i < total ==> self@[i] == old(self)@[i],
            decreases total - idx,
        {
            match self.cancel(idx as u64, now) {
                Ok(()) => {},
                Err(_) => {},
            }
            idx += 1;
        }
    }

    /// Snapshot view of all records, in insertion order.
    pub fn list(&self) -> (r: &Vec<AgentExecution>)
        ensures
            r@.len() == self@.len(),
            forall|i: int| 0 <= i < r@.len() ==> (#[trigger] r@[i])@ == self@[i],
    {
        &self.records
    }

    /// How many records are currently `Running`.
    pub fn count_running(&self) -> (n: usize)
        ensures
            n == spec_count_running(self@),
    {
        let mut n: usize = 0;
        let mut i: usize = 0;
        while i < self.records.len()
            invariant
                i <= self.records.len(),
                self@.len() == self.records.len(),
                n == spec_count_running(self@.take(i as int)),
                n <= i,
            decreases self.records.len() - i,
        {
            proof {
                assert(self@.take(i as int + 1).drop_last() =~= self@.take(i as int));
                assert(self@.take(i as int + 1).last() == self@[i as int]);
            }
            if self.records[i].is_running() {
                n = n + 1;
            }
            i = i + 1;
        }
        proof {
            assert(self@.take(self@.len() as int) =~= self@);
        }
        n
    }

    /// How many records have reached a terminal state.
    pub fn count_completed(&self) -> (n: usize)
        ensures
            n == spec_count_terminal(self@),
    {
        let mut n: usize = 0;
        let mut i: usize = 0;
        while i < self.records.len()
            invariant
                i <= self.records.len(),
                self@.len() == self.records.len(),
                n == spec_count_terminal(self@.take(i as int)),
                n <= i,
            decreases self.records.len() - i,
        {
            proof {
                assert(self@.take(i as int + 1).drop_last() =~= self@.take(i as int));
                assert(self@.take(i as int + 1).last() == self@[i as int]);
            }
            if self.records[i].is_completed() {
                n = n + 1;
            }
            i = i + 1;
        }
        proof {
            assert(self@.take(self@.len() as int) =~= self@);
        }
        n
    }
}

/// Records whose status is `Running`.
pub open spec fn spec_count_running(s: Seq<ExecutionV>) -> nat
    decreases s.len(),
{
    if s.len() == 0 {
        0
    } else {
        spec_count_running(s.drop_last()) + if s.last().status is Running {
            1nat
        } else {
            0nat
        }
    }
}

/// Records whose status is terminal.
pub open spec fn spec_count_terminal(s: Seq<ExecutionV>) -> nat
    decreases s.len(),
{
    if s.len() == 0 {
        0
    } else {
        spec_count_terminal(s.drop_last()) + if s.last().status.spec_is_terminal() {
            1nat
        } else {
            0nat
        }
    }
}

/// No two records of a well-formed registry share an id: each record
/// carries the position it was inserted at.
pub proof fn lemma_distinct_ids(reg: &ExecutionRegistry, i: int, j: int)
    requires
        reg.wf(),
        0 <= i < reg@.len(),
        0 <= j < reg@.len(),
        i != j,
    ensures
        reg@[i].id != reg@[j].id,
{
}

} // verus!

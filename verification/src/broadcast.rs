//! One fan-out of a message to the authenticated connections.
//!
//! A pass is taken over the authenticated list as it stood when the pass
//! began. The caller writes the payload to each target in turn and reports
//! whether the write succeeded; a target whose write failed is to be
//! closed and is marked, and when the pass is over the marked connections
//! leave the authenticated list.

use vstd::prelude::*;
use vstd::string::*;
use crate::registry::{without, lemma_without_members, ConnId, RegistryView};

verus! {

/// Why a broadcast could not begin.
#[derive(Clone, Copy, Debug, PartialEq, Eq, Structural)]
pub enum BroadcastError {
    /// The server is not running.
    NotRunning,
}

/// A pass as a value: the bytes to write, the targets in order, how many
/// of them have been written to, and the targets marked for removal.
pub struct PassView {
    pub payload: Seq<u8>,
    pub targets: Seq<ConnId>,
    pub done: nat,
    pub failed: Seq<ConnId>,
}

impl PassView {
    /// The pass before its first write.
    pub open spec fn begin(payload: Seq<u8>, targets: Seq<ConnId>) -> PassView {
        PassView { payload, targets, done: 0, failed: Seq::empty() }
    }

    pub open spec fn finished(self) -> bool {
        self.done >= self.targets.len()
    }

    /// The pass after the write to its next target has been reported. A
    /// finished pass stays as it is.
    pub open spec fn record(self, delivered: bool) -> PassView {
        if self.finished() {
            self
        } else if delivered {
            PassView { done: self.done + 1, ..self }
        } else {
            PassView {
                done: self.done + 1,
                failed: self.failed.push(self.targets[self.done as int]),
                ..self
            }
        }
    }

    /// The connection to close after that report: the target, if the write
    /// to it failed.
    pub open spec fn to_close(self, delivered: bool) -> Option<ConnId> {
        if !self.finished() && !delivered {
            Some(self.targets[self.done as int])
        } else {
            None
        }
    }

    /// The pass after the reports `delivered`, one after the other.
    pub open spec fn run(self, delivered: Seq<bool>) -> PassView
        decreases delivered.len(),
    {
        if delivered.len() == 0 {
            self
        } else {
            self.run(delivered.drop_last()).record(delivered.last())
        }
    }

    pub open spec fn wf(self) -> bool {
        self.done <= self.targets.len()
    }
}

/// The targets among the first `delivered.len()` whose write failed, in
/// order.
pub open spec fn failures(targets: Seq<ConnId>, delivered: Seq<bool>) -> Seq<ConnId>
    recommends
        delivered.len() <= targets.len(),
    decreases delivered.len(),
{
    if delivered.len() == 0 {
        Seq::empty()
    } else if delivered.last() {
        failures(targets, delivered.drop_last())
    } else {
        failures(targets, delivered.drop_last()).push(targets[delivered.len() - 1])
    }
}

/// One broadcast in progress.
#[derive(Debug)]
pub struct BroadcastPass {
    payload: Vec<u8>,
    targets: Vec<ConnId>,
    done: usize,
    failed: Vec<ConnId>,
}

impl View for BroadcastPass {
    type V = PassView;

    closed spec fn view(&self) -> PassView {
        PassView {
            payload: self.payload@,
            targets: self.targets@,
            done: self.done as nat,
            failed: self.failed@,
        }
    }
}

impl BroadcastPass {
    pub open spec fn wf(&self) -> bool {
        self@.wf()
    }

    /// A pass that writes the bytes of `message` to `targets`, in order.
    pub fn begin(message: &str, targets: Vec<ConnId>) -> (pass: Self)
        ensures
            pass@ == PassView::begin(message.spec_bytes(), targets@),
            pass.wf(),
    {
        BroadcastPass { payload: message.as_bytes_vec(), targets, done: 0, failed: Vec::new() }
    }

    /// The bytes to write to each target.
    pub fn payload(&self) -> (bytes: &Vec<u8>)
        ensures
            bytes@ == self@.payload,
    {
        &self.payload
    }

    /// The connection to write to next; `None` when the pass is over.
    pub fn next_target(&self) -> (target: Option<ConnId>)
        ensures
            target == if self@.finished() {
                None
            } else {
                Some(self@.targets[self@.done as int])
            },
    {
        if self.done < self.targets.len() {
            Some(self.targets[self.done])
        } else {
            None
        }
    }

    /// Reports whether the write to the next target succeeded. Returns the
    /// connection to close: the target, if the write failed.
    pub fn record(&mut self, delivered: bool) -> (close: Option<ConnId>)
        requires
            old(self).wf(),
        ensures
            final(self).wf(),
            final(self)@ == old(self)@.record(delivered),
            close == old(self)@.to_close(delivered),
    {
        if self.done >= self.targets.len() {
            return None;
        }
        let target = self.targets[self.done];
        self.done = self.done + 1;
        if delivered {
            None
        } else {
            self.failed.push(target);
            Some(target)
        }
    }

    /// Whether every target has been written to.
    pub fn is_finished(&self) -> (finished: bool)
        ensures
            finished == self@.finished(),
    {
        self.done >= self.targets.len()
    }

    /// The connections marked for removal so far.
    pub fn failed(&self) -> (ids: &Vec<ConnId>)
        ensures
            ids@ == self@.failed,
    {
        &self.failed
    }
}

/// A pass that has heard a report for each of its first `delivered.len()`
/// targets has marked exactly those of them whose write failed.
pub proof fn lemma_run_marks_failures(payload: Seq<u8>, targets: Seq<ConnId>, delivered: Seq<bool>)
    requires
        delivered.len() <= targets.len(),
    ensures
        PassView::begin(payload, targets).run(delivered) == (PassView {
            payload,
            targets,
            done: delivered.len(),
            failed: failures(targets, delivered),
        }),
    decreases delivered.len(),
{
    if delivered.len() > 0 {
        lemma_run_marks_failures(payload, targets, delivered.drop_last());
    }
}

/// A target is marked exactly if a write to it failed.
pub proof fn lemma_failures_members(targets: Seq<ConnId>, delivered: Seq<bool>, c: ConnId)
    requires
        delivered.len() <= targets.len(),
    ensures
        failures(targets, delivered).contains(c) <==> exists|i: int|
            0 <= i < delivered.len() && targets[i] == c && !#[trigger] delivered[i],
    decreases delivered.len(),
{
    if delivered.len() > 0 {
        let front = delivered.drop_last();
        let n = delivered.len() - 1;
        lemma_failures_members(targets, front, c);
        if !delivered.last() {
            vstd::seq_lib::lemma_seq_contains_after_push(failures(targets, front), targets[n], c);
        }
        if failures(targets, delivered).contains(c) {
            if failures(targets, front).contains(c) {
                let i = choose|i: int| 0 <= i < front.len() && targets[i] == c && !#[trigger] front[i];
                assert(!delivered[i]);
            } else {
                assert(!delivered[n]);
            }
        }
        if exists|i: int| 0 <= i < delivered.len() && targets[i] == c && !#[trigger] delivered[i] {
            let i = choose|i: int|
                0 <= i < delivered.len() && targets[i] == c && !#[trigger] delivered[i];
            if i < n {
                assert(!front[i]);
            }
        }
    }
}

/// A broadcast over the authenticated connections of `registry`, with one
/// report per target, removes from `authenticated` exactly the connections
/// whose write failed: those are gone, every other is still there, the
/// order of the rest is kept, and `all` is untouched.
pub proof fn law_broadcast_prunes_failed(
    registry: RegistryView,
    payload: Seq<u8>,
    delivered: Seq<bool>,
)
    requires
        registry.wf(),
        delivered.len() == registry.authenticated.len(),
    ensures
        ({
            let pass = PassView::begin(payload, registry.authenticated).run(delivered);
            let after = registry.demote(pass.failed);
            &&& pass.finished()
            &&& after.all == registry.all
            &&& after.authenticated == without(registry.authenticated, pass.failed)
            &&& forall|i: int|
                0 <= i < delivered.len() ==> (after.authenticated.contains(
                    #[trigger] registry.authenticated[i],
                ) <==> delivered[i])
            &&& forall|c: ConnId| #[trigger]
                after.authenticated.contains(c) ==> registry.authenticated.contains(c)
        }),
{
    let targets = registry.authenticated;
    lemma_run_marks_failures(payload, targets, delivered);
    let failed = failures(targets, delivered);
    lemma_without_members(targets, failed);
    let after = registry.demote(failed);
    assert forall|i: int| 0 <= i < delivered.len() implies (after.authenticated.contains(
        #[trigger] targets[i],
    ) <==> delivered[i]) by {
        lemma_failures_members(targets, delivered, targets[i]);
        assert(targets.contains(targets[i]));
        if failed.contains(targets[i]) {
            let j = choose|j: int|
                0 <= j < delivered.len() && targets[j] == targets[i] && !#[trigger] delivered[j];
            assert(j == i);
        }
    }
}

} // verus!

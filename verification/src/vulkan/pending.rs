//! Probes that run while the caller goes on, to be polled or waited for.

use vstd::prelude::*;

use crate::text::decimal;
#[allow(unused_imports)]
use crate::text::decimal_text;
use crate::vulkan::failure::subject_failed;
#[allow(unused_imports)]
use crate::vulkan::failure::subject_failed_text;
use crate::vulkan::retained::append_teardown;
#[allow(unused_imports)]
use crate::vulkan::retained::teardown_all;
use crate::vulkan::script::{
    reversed, Acquired, CommandRun, DeviceOp, Progress, SetupFailure, Slot, Step,
};
#[allow(unused_imports)]
use crate::vulkan::script::after_steps;
use crate::vulkan::serials::SubmitSerials;

verus! {

/// A probe that was submitted. `detail` is what its kind of probe keeps.
pub struct PendingProbe<P> {
    pub request_id: u64,
    pub queue_submit_serial: u64,
    pub resource_generation: u64,
    pub completed: bool,
    pub resources: Vec<Acquired>,
    pub detail: P,
}

/// What the submitter of a probe gets.
#[derive(Clone, Copy, PartialEq, Eq, Structural, Debug)]
pub struct ProbeTicket {
    pub request_id: u64,
    pub queue_submit_serial: u64,
    pub resource_generation: u64,
    pub pending_retire_count: usize,
    pub retained_resource_count: usize,
}

/// All probes of one kind that were submitted and not yet torn down.
pub struct PendingProbes<P> {
    pub probes: Vec<PendingProbe<P>>,
}

/// The first probe with the request id.
pub open spec fn find_request<P>(probes: Seq<PendingProbe<P>>, request_id: u64) -> Option<int>
    decreases probes.len(),
{
    if probes.len() == 0 {
        None
    } else {
        match find_request(probes.drop_last(), request_id) {
            Some(index) => Some(index),
            None => if probes.last().request_id == request_id {
                Some(probes.len() - 1)
            } else {
                None
            },
        }
    }
}

/// What is found has the request id, nothing before it has, and nothing is missed.
pub proof fn law_find_request<P>(probes: Seq<PendingProbe<P>>, request_id: u64)
    ensures
        match find_request(probes, request_id) {
            Some(index) => {
                &&& 0 <= index < probes.len()
                &&& probes[index].request_id == request_id
                &&& forall|i: int|
                    0 <= i < index ==> (#[trigger] probes[i]).request_id != request_id
            },
            None => forall|i: int|
                0 <= i < probes.len() ==> (#[trigger] probes[i]).request_id != request_id,
        },
    decreases probes.len(),
{
    if probes.len() > 0 {
        let before = probes.drop_last();
        law_find_request(before, request_id);
        match find_request(before, request_id) {
            Some(index) => {
                assert(probes[index] == before[index]);
                assert forall|i: int| 0 <= i < index implies (#[trigger] probes[i]).request_id
                    != request_id by {
                    assert(probes[i] == before[i]);
                }
            },
            None => {
                assert forall|i: int|
                    0 <= i < probes.len() - 1 implies (#[trigger] probes[i]).request_id
                    != request_id by {
                    assert(probes[i] == before[i]);
                }
            },
        }
    }
}

/// How many of the probes have not completed.
pub open spec fn unfinished<P>(probes: Seq<PendingProbe<P>>) -> nat
    decreases probes.len(),
{
    if probes.len() == 0 {
        0
    } else {
        unfinished(probes.drop_last()) + if probes.last().completed {
            0nat
        } else {
            1nat
        }
    }
}

/// The text "`subject` `id``end`".
pub open spec fn request_text(subject: Seq<char>, request_id: u64, end: Seq<char>) -> Seq<char> {
    subject + " "@ + decimal_text(request_id as nat) + end
}

fn request_message(subject: &str, request_id: u64, end: &str) -> (message: String)
    ensures
        message@ == request_text(subject@, request_id, end@),
{
    let mut message: String = subject.to_owned();
    message.append(" ");
    let id: String = decimal(request_id);
    message.append(id.as_str());
    message.append(end);
    message
}

/// The steps that wait for a submitted probe: its fence, then the queue.
pub open spec fn wait_steps(subject: &'static str) -> Seq<Step> {
    seq![
        Step { slot: Slot::Fence, op: DeviceOp::WaitFence { completes: false }, subject },
        Step { slot: Slot::Queue, op: DeviceOp::WaitIdle { completes: true }, subject },
        Step { slot: Slot::Queue, op: DeviceOp::CollectRetired, subject },
    ]
}

/// Starts to wait for a probe that was submitted with `serial`.
pub fn start_wait(serial: u64, subject: &'static str) -> (run: CommandRun)
    ensures
        run.wf(),
        run.steps@ == wait_steps(subject),
        run.done == 0,
        run.progress == (Progress { submit_serial: serial, fence_serial: 0, idle: false }),
{
    let steps: Vec<Step> = vec![
        Step { slot: Slot::Fence, op: DeviceOp::WaitFence { completes: false }, subject },
        Step { slot: Slot::Queue, op: DeviceOp::WaitIdle { completes: true }, subject },
        Step { slot: Slot::Queue, op: DeviceOp::CollectRetired, subject },
    ];
    let mut run: CommandRun = CommandRun::new(steps);
    run.progress.submit_serial = serial;
    run
}

/// Waiting to the end completes the probe's submission.
pub proof fn law_wait_completes(serials: SubmitSerials, serial: u64, subject: &'static str)
    ensures
        ({
            let start = Progress { submit_serial: serial, fence_serial: 0, idle: false };
            let end = after_steps(serials, start, wait_steps(subject));
            &&& end.0 == serials.completed_through(serial)
            &&& end.1.fence_serial == serial
            &&& end.1.idle
        }),
{
    let start = Progress { submit_serial: serial, fence_serial: 0, idle: false };
    let steps = wait_steps(subject);
    assert(steps.drop_last().drop_last().drop_last() =~= Seq::<Step>::empty());
    reveal_with_fuel(after_steps, 4);
}

/// The probe that is kept after `kept` others.
pub open spec fn new_probe<P>(
    serial: u64,
    kept: nat,
    resources: Vec<Acquired>,
    detail: P,
) -> PendingProbe<P> {
    PendingProbe {
        request_id: serial,
        queue_submit_serial: serial,
        resource_generation: (kept + 1) as u64,
        completed: false,
        resources,
        detail,
    }
}

/// What is told of the probe that is kept after `kept` others.
pub open spec fn new_ticket(serial: u64, kept: nat) -> ProbeTicket {
    ProbeTicket {
        request_id: serial,
        queue_submit_serial: serial,
        resource_generation: (kept + 1) as u64,
        pending_retire_count: (kept + 1) as usize,
        retained_resource_count: (kept + 1) as usize,
    }
}

impl<P> PendingProbes<P> {
    /// Starts with no probe.
    pub fn new() -> (pending: PendingProbes<P>)
        ensures
            pending.probes@.len() == 0,
    {
        PendingProbes { probes: Vec::new() }
    }

    /// Whether a probe has not completed.
    pub fn has_pending(&self) -> (pending: bool)
        ensures
            pending == exists|i: int|
                0 <= i < self.probes@.len() && !(#[trigger] self.probes@[i]).completed,
    {
        let mut i: usize = 0;
        while i < self.probes.len()
            invariant
                i <= self.probes@.len(),
                forall|j: int| 0 <= j < i ==> (#[trigger] self.probes@[j]).completed,
            decreases self.probes@.len() - i,
        {
            if !self.probes[i].completed {
                return true;
            }
            i = i + 1;
        }
        false
    }

    /// How many probes have not completed.
    pub fn count_unfinished(&self) -> (count: usize)
        ensures
            count == unfinished(self.probes@),
            count <= self.probes@.len(),
    {
        let mut count: usize = 0;
        let mut i: usize = 0;
        while i < self.probes.len()
            invariant
                i <= self.probes@.len(),
                count <= i,
                count == unfinished(self.probes@.take(i as int)),
            decreases self.probes@.len() - i,
        {
            proof {
                assert(self.probes@.take(i + 1).drop_last() =~= self.probes@.take(i as int));
                assert(self.probes@.take(i + 1).last() == self.probes@[i as int]);
            }
            if !self.probes[i].completed {
                count = count + 1;
            }
            i = i + 1;
        }
        assert(self.probes@.take(i as int) =~= self.probes@);
        count
    }

    /// Takes what came of the commands of a probe. It is kept where they succeeded; else
    /// all that it holds is given back, the latest first, and the message is handed on.
    pub fn commands_ended(
        &mut self,
        commands: Result<(), String>,
        serial: u64,
        resources: Vec<Acquired>,
        detail: P,
    ) -> (result: Result<ProbeTicket, SetupFailure>)
        requires
            old(self).probes@.len() < usize::MAX,
        ensures
            match commands {
                Ok(_) => {
                    &&& result == Ok::<ProbeTicket, SetupFailure>(
                        new_ticket(serial, old(self).probes@.len()),
                    )
                    &&& final(self).probes@ == old(self).probes@.push(
                        new_probe(serial, old(self).probes@.len(), resources, detail),
                    )
                },
                Err(message) => {
                    &&& result matches Err(left)
                    &&& left.releases@ == resources@.reverse()
                    &&& left.message@ == message@
                    &&& *final(self) == *old(self)
                },
            },
    {
        match commands {
            Ok(_) => Ok(self.submit(serial, resources, detail)),
            Err(message) => Err(SetupFailure { releases: reversed(&resources), message }),
        }
    }

    /// Keeps a probe that was submitted with `serial`, which is also its request
    /// id.
    pub fn submit(&mut self, serial: u64, resources: Vec<Acquired>, detail: P) -> (ticket:
        ProbeTicket)
        requires
            old(self).probes@.len() < usize::MAX,
        ensures
            final(self).probes@ == old(self).probes@.push(
                new_probe(serial, old(self).probes@.len(), resources, detail),
            ),
            ticket == new_ticket(serial, old(self).probes@.len()),
    {
        let resource_generation: u64 = self.probes.len() as u64 + 1;
        self.probes.push(
            PendingProbe {
                request_id: serial,
                queue_submit_serial: serial,
                resource_generation,
                completed: false,
                resources,
                detail,
            },
        );
        let count: usize = self.probes.len();
        ProbeTicket {
            request_id: serial,
            queue_submit_serial: serial,
            resource_generation,
            pending_retire_count: count,
            retained_resource_count: count,
        }
    }

    fn position(&self, request_id: u64) -> (index: Option<usize>)
        ensures
            match find_request(self.probes@, request_id) {
                Some(found) => index matches Some(i) && i == found && i < self.probes@.len(),
                None => index is None,
            },
    {
        let mut i: usize = 0;
        while i < self.probes.len()
            invariant
                i <= self.probes@.len(),
                find_request(self.probes@.take(i as int), request_id) is None,
            decreases self.probes@.len() - i,
        {
            proof {
                let next = self.probes@.take(i + 1);
                assert(next.drop_last() =~= self.probes@.take(i as int));
                assert(next.last() == self.probes@[i as int]);
            }
            if self.probes[i].request_id == request_id {
                proof {
                    lemma_find_prefix(self.probes@, request_id, i + 1);
                }
                return Some(i);
            }
            i = i + 1;
        }
        assert(self.probes@.take(i as int) =~= self.probes@);
        None
    }

    /// The probe whose fence is to be asked; nothing where no such request is
    /// known or it has completed.
    pub fn poll(&self, request_id: u64) -> (index: Option<usize>)
        ensures
            match find_request(self.probes@, request_id) {
                Some(found) => if self.probes@[found].completed {
                    index is None
                } else {
                    index matches Some(i) && i == found && i < self.probes@.len()
                },
                None => index is None,
            },
    {
        match self.position(request_id) {
            Some(index) => {
                if self.probes[index].completed {
                    None
                } else {
                    Some(index)
                }
            },
            None => None,
        }
    }

    /// Takes the fence's status of a polled probe: whether the probe can be
    /// completed now.
    pub fn fence_status(
        &self,
        index: usize,
        status: Result<bool, i32>,
        subject: &str,
        serials: &mut SubmitSerials,
    ) -> (ready: Result<bool, String>)
        requires
            index < self.probes@.len(),
        ensures
            match status {
                Ok(signaled) => {
                    &&& ready == Ok::<bool, String>(signaled)
                    &&& *final(serials) == (if signaled {
                        old(serials).completed_through(
                            self.probes@[index as int].queue_submit_serial,
                        )
                    } else {
                        *old(serials)
                    })
                },
                Err(code) => {
                    &&& ready matches Err(message)
                    &&& message@ == subject_failed_text(
                        "get_fence_status"@,
                        request_text(subject@, self.probes@[index as int].request_id, ""@),
                        code,
                    )
                    &&& *final(serials) == *old(serials)
                },
            },
    {
        match status {
            Ok(signaled) => {
                if signaled {
                    serials.record_completion(self.probes[index].queue_submit_serial);
                }
                Ok(signaled)
            },
            Err(code) => {
                let about: String = request_message(subject, self.probes[index].request_id, "");
                Err(subject_failed("get_fence_status", about.as_str(), code))
            },
        }
    }

    /// The probe to wait for.
    pub fn wait(&self, request_id: u64, subject: &str) -> (index: Result<usize, String>)
        ensures
            match find_request(self.probes@, request_id) {
                Some(found) => if self.probes@[found].completed {
                    index matches Err(message) && message@ == request_text(
                        subject@,
                        request_id,
                        " was already completed"@,
                    )
                } else {
                    index matches Ok(i) && i == found && i < self.probes@.len()
                },
                None => index matches Err(message) && message@ == request_text(
                    subject@,
                    request_id,
                    " was not found"@,
                ),
            },
    {
        match self.position(request_id) {
            Some(index) => {
                if self.probes[index].completed {
                    Err(request_message(subject, request_id, " was already completed"))
                } else {
                    Ok(index)
                }
            },
            None => Err(request_message(subject, request_id, " was not found")),
        }
    }

    /// Whether the probe at `index` can be completed.
    pub fn check_completable(&self, index: usize, subject: &str) -> (result: Result<(), String>)
        ensures
            if index >= self.probes@.len() {
                result matches Err(message) && message@ == subject@
                    + " resource index is stale"@
            } else if self.probes@[index as int].completed {
                result matches Err(message) && message@ == request_text(
                    subject@,
                    self.probes@[index as int].request_id,
                    " was already completed"@,
                )
            } else {
                result == Ok::<(), String>(())
            },
    {
        if index >= self.probes.len() {
            let mut message: String = subject.to_owned();
            message.append(" resource index is stale");
            Err(message)
        } else if self.probes[index].completed {
            Err(request_message(subject, self.probes[index].request_id, " was already completed"))
        } else {
            Ok(())
        }
    }

    /// Marks the probe at `index` completed and returns how many are not.
    pub fn complete(&mut self, index: usize) -> (pending: usize)
        requires
            index < old(self).probes@.len(),
        ensures
            final(self).probes@ == old(self).probes@.update(
                index as int,
                (PendingProbe { completed: true, ..old(self).probes@[index as int] }),
            ),
            pending == unfinished(final(self).probes@),
    {
        self.probes[index].completed = true;
        self.count_unfinished()
    }

    /// Gives everything back: returns what to release, in order, and keeps no
    /// probe.
    pub fn take_releases(&mut self, command_pool: u64) -> (releases: Vec<Acquired>)
        ensures
            final(self).probes@.len() == 0,
            releases@ == teardown_all(
                old(self).probes@.map_values(|probe: PendingProbe<P>| probe.resources@),
                command_pool,
            ),
    {
        let mut releases: Vec<Acquired> = Vec::new();
        let ghost all = self.probes@.map_values(|probe: PendingProbe<P>| probe.resources@);
        let mut i: usize = 0;
        while i < self.probes.len()
            invariant
                i <= self.probes@.len(),
                self.probes@ == old(self).probes@,
                all == self.probes@.map_values(|probe: PendingProbe<P>| probe.resources@),
                releases@ == teardown_all(all.take(i as int), command_pool),
            decreases self.probes@.len() - i,
        {
            append_teardown(&self.probes[i].resources, command_pool, &mut releases);
            proof {
                let next = all.take(i + 1);
                assert(next.drop_last() =~= all.take(i as int));
                assert(next.last() == self.probes@[i as int].resources@);
            }
            i = i + 1;
        }
        assert(all.take(i as int) =~= all);
        self.probes = Vec::new();
        releases
    }
}

proof fn lemma_find_prefix<P>(probes: Seq<PendingProbe<P>>, request_id: u64, n: int)
    requires
        0 <= n <= probes.len(),
        find_request(probes.take(n), request_id) is Some,
    ensures
        find_request(probes, request_id) == find_request(probes.take(n), request_id),
    decreases probes.len() - n,
{
    if n == probes.len() {
        assert(probes.take(n) =~= probes);
    } else {
        assert(probes.take(n + 1).drop_last() =~= probes.take(n));
        lemma_find_prefix(probes, request_id, n + 1);
    }
}

/// A probe just submitted under a fresh serial is the one that its ticket finds,
/// and it is pending.
pub proof fn law_submitted_probe_is_found<P>(
    probes: Seq<PendingProbe<P>>,
    probe: PendingProbe<P>,
)
    requires
        !probe.completed,
        forall|i: int|
            0 <= i < probes.len() ==> (#[trigger] probes[i]).request_id != probe.request_id,
    ensures
        find_request(probes.push(probe), probe.request_id) == Some(probes.len() as int),
        unfinished(probes.push(probe)) == unfinished(probes) + 1,
{
    let now = probes.push(probe);
    assert(now.drop_last() =~= probes);
    law_find_request(probes, probe.request_id);
}

/// A completed probe is never asked again: neither a poll nor a wait gives it, and
/// completing one probe leaves one fewer pending.
pub proof fn law_completes_once<P>(probes: Seq<PendingProbe<P>>, index: int)
    requires
        0 <= index < probes.len(),
        !probes[index].completed,
    ensures
        ({
            let after = probes.update(
                index,
                (PendingProbe { completed: true, ..probes[index] }),
            );
            &&& unfinished(after) + 1 == unfinished(probes)
            &&& forall|request_id: u64| #[trigger]
                find_request(after, request_id) == find_request(probes, request_id)
            &&& find_request(probes, probes[index].request_id) == Some(index)
                ==> after[index].completed
        }),
{
    let done = PendingProbe { completed: true, ..probes[index] };
    lemma_unfinished_update(probes, index, done);
    assert forall|request_id: u64| #[trigger]
        find_request(probes.update(index, done), request_id) == find_request(
        probes,
        request_id,
    ) by {
        lemma_find_update(probes, index, done, request_id);
    }
}

proof fn lemma_unfinished_update<P>(
    probes: Seq<PendingProbe<P>>,
    index: int,
    done: PendingProbe<P>,
)
    requires
        0 <= index < probes.len(),
        !probes[index].completed,
        done.completed,
    ensures
        unfinished(probes.update(index, done)) + 1 == unfinished(probes),
    decreases probes.len(),
{
    let after = probes.update(index, done);
    if index == probes.len() - 1 {
        assert(after.drop_last() =~= probes.drop_last());
    } else {
        lemma_unfinished_update(probes.drop_last(), index, done);
        assert(after.drop_last() =~= probes.drop_last().update(index, done));
    }
}

proof fn lemma_find_update<P>(
    probes: Seq<PendingProbe<P>>,
    index: int,
    done: PendingProbe<P>,
    request_id: u64,
)
    requires
        0 <= index < probes.len(),
        done.request_id == probes[index].request_id,
    ensures
        find_request(probes.update(index, done), request_id) == find_request(probes, request_id),
    decreases probes.len(),
{
    let after = probes.update(index, done);
    if index == probes.len() - 1 {
        assert(after.drop_last() =~= probes.drop_last());
    } else {
        lemma_find_update(probes.drop_last(), index, done, request_id);
        assert(after.drop_last() =~= probes.drop_last().update(index, done));
    }
}

/// A probe that is kept is found under its request, waits to be completed, and adds one to
/// those that do.
pub proof fn law_new_probe_waits<P>(
    probes: Seq<PendingProbe<P>>,
    serial: u64,
    resources: Vec<Acquired>,
    detail: P,
)
    requires
        probes.len() < usize::MAX,
    ensures
        ({
            let probe = new_probe(serial, probes.len(), resources, detail);
            let after = probes.push(probe);
            &&& unfinished(after) == unfinished(probes) + 1
            &&& !probe.completed
            &&& probe.resources == resources
            &&& probe.detail == detail
            &&& find_request(after, serial) is Some
            &&& after[find_request(after, serial)->0].request_id == serial
            &&& new_ticket(serial, probes.len()).request_id == probe.request_id
            &&& new_ticket(serial, probes.len()).queue_submit_serial == serial
            &&& new_ticket(serial, probes.len()).retained_resource_count == after.len()
            &&& new_ticket(serial, probes.len()).resource_generation == after.len()
        }),
{
    let probe = new_probe(serial, probes.len(), resources, detail);
    let after = probes.push(probe);
    assert(after.drop_last() =~= probes);
    lemma_found_request(after, serial);
}

proof fn lemma_found_request<P>(probes: Seq<PendingProbe<P>>, request_id: u64)
    ensures
        find_request(probes, request_id) matches Some(found) ==> 0 <= found < probes.len()
            && probes[found].request_id == request_id,
    decreases probes.len(),
{
    if probes.len() > 0 {
        lemma_found_request(probes.drop_last(), request_id);
    }
}

/// As many probes wait as are not completed: none exactly where all are.
pub proof fn law_unfinished_are_not_completed<P>(probes: Seq<PendingProbe<P>>)
    ensures
        unfinished(probes) <= probes.len(),
        unfinished(probes) == 0 <==> forall|i: int|
            0 <= i < probes.len() ==> (#[trigger] probes[i]).completed,
        unfinished(probes) == probes.len() <==> forall|i: int|
            0 <= i < probes.len() ==> !(#[trigger] probes[i]).completed,
    decreases probes.len(),
{
    if probes.len() > 0 {
        let before = probes.drop_last();
        law_unfinished_are_not_completed(before);
        let n = probes.len() - 1;
        assert(forall|i: int| 0 <= i < n ==> before[i] == probes[i]);
        assert(probes[n] == probes.last());
        if unfinished(before) != 0 {
            let i = choose|i: int| 0 <= i < n && !(#[trigger] before[i]).completed;
            assert(!probes[i].completed);
        }
        if unfinished(before) != n {
            let i = choose|i: int| 0 <= i < n && (#[trigger] before[i]).completed;
            assert(probes[i].completed);
        }
    }
}

/// A message about a request has the request's number behind its subject.
pub proof fn law_requests_are_named_by_number(subject: Seq<char>, request_id: u64, end: Seq<char>)
    ensures
        ({
            let text = request_text(subject, request_id, end);
            let number = decimal_text(request_id as nat);
            &&& text.len() == subject.len() + 1 + number.len() + end.len()
            &&& text.take(subject.len() as int) == subject
            &&& text[subject.len() as int] == ' '
            &&& text.skip((subject.len() + 1) as int) == number + end
        }),
{
    reveal_strlit(" ");
    let text = request_text(subject, request_id, end);
    let number = decimal_text(request_id as nat);
    assert(text.take(subject.len() as int) =~= subject);
    assert(text.skip((subject.len() + 1) as int) =~= number + end);
}

/// A probe that is kept is asked for by the serial of its submission, and is counted with
/// those that were kept before.
pub proof fn law_tickets_count_what_is_kept(serial: u64, kept: nat)
    requires
        kept < usize::MAX,
    ensures
        ({
            let ticket = new_ticket(serial, kept);
            &&& ticket.request_id == serial && ticket.queue_submit_serial == serial
            &&& ticket.resource_generation == kept + 1
            &&& ticket.pending_retire_count == kept + 1
            &&& ticket.retained_resource_count == kept + 1
        }),
{
}

} // verus!

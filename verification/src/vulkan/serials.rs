//! Serial numbers of queue submissions.

use vstd::prelude::*;

verus! {

/// The serial of the latest submission and that of the latest one known to have
/// completed.
#[derive(Clone, Copy, PartialEq, Eq, Structural, Debug)]
pub struct SubmitSerials {
    pub submitted: u64,
    pub completed: u64,
}

impl SubmitSerials {
    /// Nothing has completed that was not submitted.
    pub open spec fn wf(self) -> bool {
        self.completed <= self.submitted
    }

    /// The serials after one more submission. The largest serial is kept once it
    /// has been reached.
    pub open spec fn submitted_one(self) -> SubmitSerials {
        SubmitSerials {
            submitted: if self.submitted < u64::MAX {
                (self.submitted + 1) as u64
            } else {
                u64::MAX
            },
            ..self
        }
    }

    /// The serials once `serial` has completed. Completion never goes back.
    pub open spec fn completed_through(self, serial: u64) -> SubmitSerials {
        SubmitSerials {
            completed: if serial > self.completed {
                serial
            } else {
                self.completed
            },
            ..self
        }
    }

    /// Counts one more submission and returns its serial.
    pub fn record_submit(&mut self) -> (serial: u64)
        ensures
            *final(self) == old(self).submitted_one(),
            serial == final(self).submitted,
    {
        self.submitted = self.submitted.saturating_add(1);
        self.submitted
    }

    /// Notes that the submission `serial` has completed.
    pub fn record_completion(&mut self, serial: u64)
        ensures
            *final(self) == old(self).completed_through(serial),
    {
        if serial > self.completed {
            self.completed = serial;
        }
    }
}

/// Submitting and completing keep the order of the two serials, and neither
/// serial ever goes back.
pub proof fn law_serials_advance(serials: SubmitSerials, serial: u64)
    requires
        serials.wf(),
        serial <= serials.submitted,
    ensures
        serials.submitted_one().wf(),
        serials.submitted_one().submitted >= serials.submitted,
        serials.submitted_one().completed == serials.completed,
        serials.completed_through(serial).wf(),
        serials.completed_through(serial).completed >= serials.completed,
        serials.completed_through(serial).completed >= serial,
        serials.completed_through(serial).submitted == serials.submitted,
{
}

/// A submission gets the serial after the one before it, and what has completed is the
/// later of what was noted before and now.
pub proof fn law_serials_count_submissions(serials: SubmitSerials, serial: u64)
    ensures
        serials.submitted < u64::MAX ==> serials.submitted_one().submitted == serials.submitted + 1,
        serials.completed_through(serial).completed == serial || serials.completed_through(
            serial,
        ).completed == serials.completed,
        serials.completed_through(serial).completed >= serial,
        serials.completed_through(serial).completed >= serials.completed,
{
}

} // verus!

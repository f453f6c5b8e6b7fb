use vstd::prelude::*;

use crate::state::{record_after, reported, ErrorCode, Market};

verus! {

/// The resume instruction: the market record it acts on and the time at
/// which the host runs it, in seconds since the epoch.
#[derive(Clone, Copy, Debug, PartialEq, Eq, Structural)]
pub struct ResumeMarket {
    pub market: Market,
    pub now: u64,
}

impl ResumeMarket {
    /// Resumes the market at the instruction's time.
    pub fn process(&mut self) -> (r: Result<(), ErrorCode>)
        ensures
            r == reported(old(self).market.resume_outcome(old(self).now)),
            final(self).market == record_after(
                old(self).market,
                old(self).market.resume_outcome(old(self).now),
            ),
            final(self).now == old(self).now,
    {
        let now = self.now;
        self.market.resume(now)
    }
}

} // verus!

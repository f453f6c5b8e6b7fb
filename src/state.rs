use vstd::prelude::*;

verus! {

/// Lifecycle state stored in a market record.
#[derive(Clone, Copy, Debug, PartialEq, Eq, Structural)]
pub enum MarketState {
    Created,
    Active,
    Suspended,
    Ended,
}

/// The part of a market record that the lifecycle rules read and write.
#[derive(Clone, Copy, Debug, PartialEq, Eq, Structural)]
pub struct Market {
    pub state: MarketState,
    /// Seconds since the epoch after which the market counts as ended.
    pub end_date: Option<u64>,
}

/// Why a lifecycle transition was rejected.
#[derive(Clone, Copy, Debug, PartialEq, Eq, Structural)]
pub enum ErrorCode {
    /// The market is closed for good: its state is `Ended` or its end date has passed.
    MarketIsEnded,
    /// The transition does not apply to the market's stored state.
    MarketInInvalidState,
}

/// What a caller observes of a transition whose outcome is `outcome`.
pub open spec fn reported(outcome: Result<Market, ErrorCode>) -> Result<(), ErrorCode> {
    match outcome {
        Ok(_) => Ok(()),
        Err(e) => Err(e),
    }
}

/// The record left behind by a transition from `before`: the new record on
/// success, `before` itself on failure.
pub open spec fn record_after(before: Market, outcome: Result<Market, ErrorCode>) -> Market {
    match outcome {
        Ok(next) => next,
        Err(_) => before,
    }
}

impl Market {
    /// The market is ended: explicitly, or because `now` is past its end date.
    pub open spec fn ended_at(self, now: u64) -> bool {
        ||| self.state == MarketState::Ended
        ||| (self.end_date matches Some(d) && now > d)
    }

    /// Whether the market counts as ended at time `now`.
    pub fn is_ended(&self, now: u64) -> (r: bool)
        ensures
            r == self.ended_at(now),
    {
        if self.state == MarketState::Ended {
            return true;
        }
        match self.end_date {
            Some(d) => now > d,
            None => false,
        }
    }

    /// The market with its stored state replaced by `state`.
    pub open spec fn with_state(self, state: MarketState) -> Market {
        Market { state, ..self }
    }

    /// Resume, `Suspended` to `Active`.
    pub open spec fn resume_outcome(self, now: u64) -> Result<Market, ErrorCode> {
        if self.ended_at(now) {
            Err(ErrorCode::MarketIsEnded)
        } else if self.state != MarketState::Suspended {
            Err(ErrorCode::MarketInInvalidState)
        } else {
            Ok(self.with_state(MarketState::Active))
        }
    }

    /// Suspend, `Active` to `Suspended`.
    pub open spec fn suspend_outcome(self, now: u64) -> Result<Market, ErrorCode> {
        if self.ended_at(now) {
            Err(ErrorCode::MarketIsEnded)
        } else if self.state != MarketState::Active {
            Err(ErrorCode::MarketInInvalidState)
        } else {
            Ok(self.with_state(MarketState::Suspended))
        }
    }

    /// End, from any state that is not ended to `Ended`.
    pub open spec fn end_outcome(self, now: u64) -> Result<Market, ErrorCode> {
        if self.ended_at(now) {
            Err(ErrorCode::MarketIsEnded)
        } else {
            Ok(self.with_state(MarketState::Ended))
        }
    }

    /// Moves a suspended market back to `Active`, unless it is ended at `now`.
    pub fn resume(&mut self, now: u64) -> (r: Result<(), ErrorCode>)
        ensures
            r == reported(old(self).resume_outcome(now)),
            *final(self) == record_after(*old(self), old(self).resume_outcome(now)),
    {
        if self.is_ended(now) {
            return Err(ErrorCode::MarketIsEnded);
        }
        if self.state != MarketState::Suspended {
            return Err(ErrorCode::MarketInInvalidState);
        }
        self.state = MarketState::Active;
        Ok(())
    }

    /// Moves an active market to `Suspended`, unless it is ended at `now`.
    pub fn suspend(&mut self, now: u64) -> (r: Result<(), ErrorCode>)
        ensures
            r == reported(old(self).suspend_outcome(now)),
            *final(self) == record_after(*old(self), old(self).suspend_outcome(now)),
    {
        if self.is_ended(now) {
            return Err(ErrorCode::MarketIsEnded);
        }
        if self.state != MarketState::Active {
            return Err(ErrorCode::MarketInInvalidState);
        }
        self.state = MarketState::Suspended;
        Ok(())
    }

    /// Moves a market that is not ended at `now` to `Ended`.
    pub fn end(&mut self, now: u64) -> (r: Result<(), ErrorCode>)
        ensures
            r == reported(old(self).end_outcome(now)),
            *final(self) == record_after(*old(self), old(self).end_outcome(now)),
    {
        if self.is_ended(now) {
            return Err(ErrorCode::MarketIsEnded);
        }
        self.state = MarketState::Ended;
        Ok(())
    }
}

} // verus!

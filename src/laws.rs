use vstd::prelude::*;

use crate::state::{record_after, ErrorCode, Market, MarketState};

verus! {

/// A market whose stored state is `Ended` rejects resume, suspend and end
/// with `MarketIsEnded`, and so keeps its record, at any time.
pub proof fn ended_state_is_terminal(m: Market, now: u64)
    requires
        m.state == MarketState::Ended,
    ensures
        m.resume_outcome(now) == Err::<Market, ErrorCode>(ErrorCode::MarketIsEnded),
        m.suspend_outcome(now) == Err::<Market, ErrorCode>(ErrorCode::MarketIsEnded),
        m.end_outcome(now) == Err::<Market, ErrorCode>(ErrorCode::MarketIsEnded),
        record_after(m, m.resume_outcome(now)) == m,
        record_after(m, m.suspend_outcome(now)) == m,
        record_after(m, m.end_outcome(now)) == m,
{
}

/// A market whose end date lies before `now` rejects resume, suspend and end
/// with `MarketIsEnded`, whatever its stored state, and keeps its record.
pub proof fn expired_market_rejects_all(m: Market, now: u64)
    requires
        m.end_date matches Some(d) && d < now,
    ensures
        m.resume_outcome(now) == Err::<Market, ErrorCode>(ErrorCode::MarketIsEnded),
        m.suspend_outcome(now) == Err::<Market, ErrorCode>(ErrorCode::MarketIsEnded),
        m.end_outcome(now) == Err::<Market, ErrorCode>(ErrorCode::MarketIsEnded),
        record_after(m, m.resume_outcome(now)) == m,
        record_after(m, m.suspend_outcome(now)) == m,
        record_after(m, m.end_outcome(now)) == m,
{
}

/// Resume succeeds exactly when the stored state is `Suspended` and the end
/// date is absent or not before `now`; it then sets the state to `Active` and
/// keeps the end date.
pub proof fn resume_succeeds_iff(m: Market, now: u64)
    ensures
        m.resume_outcome(now) is Ok <==> (m.state == MarketState::Suspended && (
        m.end_date is None || now <= m.end_date->0)),
        m.resume_outcome(now) is Ok ==> record_after(m, m.resume_outcome(now)) == (Market {
            state: MarketState::Active,
            end_date: m.end_date,
        }),
{
}

/// Resuming an active market that is not expired fails with
/// `MarketInInvalidState` and keeps the record.
pub proof fn resume_of_active_is_invalid(m: Market, now: u64)
    requires
        m.state == MarketState::Active,
        m.end_date is None || now <= m.end_date->0,
    ensures
        m.resume_outcome(now) == Err::<Market, ErrorCode>(ErrorCode::MarketInInvalidState),
        record_after(m, m.resume_outcome(now)) == m,
{
}

/// A rejected transition leaves the record as it was, so repeating it at the
/// same time is rejected again with the same error, and again changes nothing.
pub proof fn rejection_repeats(m: Market, now: u64)
    ensures
        m.resume_outcome(now) is Err ==> {
            let after = record_after(m, m.resume_outcome(now));
            &&& after == m
            &&& after.resume_outcome(now) == m.resume_outcome(now)
            &&& record_after(after, after.resume_outcome(now)) == m
        },
        m.suspend_outcome(now) is Err ==> {
            let after = record_after(m, m.suspend_outcome(now));
            &&& after == m
            &&& after.suspend_outcome(now) == m.suspend_outcome(now)
            &&& record_after(after, after.suspend_outcome(now)) == m
        },
        m.end_outcome(now) is Err ==> {
            let after = record_after(m, m.end_outcome(now));
            &&& after == m
            &&& after.end_outcome(now) == m.end_outcome(now)
            &&& record_after(after, after.end_outcome(now)) == m
        },
{
}

/// The end date itself still belongs to the sale: at time `d` a market with
/// end date `d` is not ended unless its state says so, and one second later
/// it is ended and every transition fails with `MarketIsEnded`.
pub proof fn end_date_is_inclusive(m: Market, d: u64)
    requires
        m.end_date == Some(d),
        m.state != MarketState::Ended,
    ensures
        !m.ended_at(d),
        m.state == MarketState::Suspended ==> m.resume_outcome(d) is Ok,
        m.state == MarketState::Active ==> m.suspend_outcome(d) is Ok,
        m.end_outcome(d) is Ok,
        d < u64::MAX ==> {
            &&& m.ended_at((d + 1) as u64)
            &&& m.resume_outcome((d + 1) as u64) == Err::<Market, ErrorCode>(
                ErrorCode::MarketIsEnded,
            )
            &&& m.suspend_outcome((d + 1) as u64) == Err::<Market, ErrorCode>(
                ErrorCode::MarketIsEnded,
            )
            &&& m.end_outcome((d + 1) as u64) == Err::<Market, ErrorCode>(
                ErrorCode::MarketIsEnded,
            )
        },
{
}

} // verus!

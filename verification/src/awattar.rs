//! A stand-in for the price chart service that answers with a preset cheapest period.
use vstd::prelude::*;
use crate::hooks::ChargingPeriod;

verus! {

/// Answers every price chart update with the period it was given.
pub struct AwattarApiMock {
    period: Option<ChargingPeriod>,
}

impl View for AwattarApiMock {
    type V = Option<ChargingPeriod>;

    closed spec fn view(&self) -> Option<ChargingPeriod> {
        self.period
    }
}

impl AwattarApiMock {
    /// A mock with no period set.
    pub fn default() -> (r: Self)
        ensures
            r@ is None,
    {
        AwattarApiMock { period: None }
    }

    /// Sets the period that updates answer with.
    pub fn set_response(&mut self, period_response: ChargingPeriod)
        ensures
            final(self)@ == Some(period_response),
    {
        self.period = Some(period_response);
    }

    /// The cheapest period, if one was set.
    pub fn update_price_chart(&self) -> (r: Option<ChargingPeriod>)
        ensures
            r == self@,
    {
        self.period
    }
}

} // verus!

use vstd::prelude::*;
use crate::money::{lemma_combined_is_sum, EnergyBillEntry};
use crate::reading::{ReadTimestamp, SmartMeterData, SmartMeterDataType};
use crate::tariff::{
    discounted, PricePlan, BG_DAY_RATE, BG_DISCOUNT_PERCENT, BG_NIGHT_RATE, BG_PEAK_RATE,
    MAX_AMOUNT, MAX_RATE, NIGHT_END, NIGHT_START, PEAK_END, PEAK_START, SSE_DISCOUNT_PERCENT,
    SSE_NIGHT_RATE, SSE_PEAK_RATE, SSE_STANDARD_RATE,
};

verus! {

/// The price of one reading is a debit for an import and a credit for an export, of at most
/// `MAX_AMOUNT`.
pub proof fn lemma_price_bound(plan: PricePlan, d: SmartMeterData)
    ensures
        0 <= plan.price(d).magnitude() <= MAX_AMOUNT,
        d.read_type == SmartMeterDataType::ActiveImport ==> plan.price(d) is Debit,
        d.read_type == SmartMeterDataType::ActiveExport ==> plan.price(d) is Credit,
{
    let r = if d.read_type == SmartMeterDataType::ActiveImport {
        plan.import_rate(d.read_date_and_end_time)
    } else {
        plan.export_rate()
    };
    assert(0 <= r <= MAX_RATE);
    let v = d.read_value as int;
    assert(0 <= r * v <= MAX_RATE * u32::MAX) by (nonlinear_arith)
        requires
            0 <= r <= MAX_RATE,
            0 <= v <= u32::MAX,
    ;
}

/// The running total of `n` readings is at most `n` times `MAX_AMOUNT` either way, so each
/// step of the fold stays in range.
pub proof fn lemma_total_bound(plan: PricePlan, readings: Seq<SmartMeterData>)
    requires
        readings.len() <= usize::MAX,
    ensures
        -(readings.len() * MAX_AMOUNT) <= plan.total(readings).signed() <= readings.len()
            * MAX_AMOUNT,
        readings.len() > 0 ==> plan.total(readings.drop_last()).combine_fits(
            plan.price(readings.last()),
        ),
    decreases readings.len(),
{
    if readings.len() > 0 {
        let rest = readings.drop_last();
        let n = rest.len() as int;
        assert(usize::MAX <= u64::MAX);
        lemma_total_bound(plan, rest);
        lemma_price_bound(plan, readings.last());
        assert((n + 1) * MAX_AMOUNT <= u128::MAX) by (nonlinear_arith)
            requires
                0 <= n < u64::MAX,
        ;
        assert((n + 1) * MAX_AMOUNT == n * MAX_AMOUNT + MAX_AMOUNT) by (nonlinear_arith);
    }
}

/// Every reading carries a well-formed timestamp.
pub open spec fn all_well_formed(readings: Seq<SmartMeterData>) -> bool {
    forall|i: int| 0 <= i < readings.len() ==> (#[trigger] readings[i]).read_date_and_end_time.wf()
}

impl PricePlan {
    /// Nets the prices of all readings, in the order given, starting from `Debit(0)`.
    pub fn compute_total_bill_for_period(&self, datapoints: &Vec<SmartMeterData>) -> (r:
        EnergyBillEntry)
        requires
            all_well_formed(datapoints@),
        ensures
            r == self.total(datapoints@),
    {
        let mut acc = EnergyBillEntry::Debit(0);
        let mut i: usize = 0;
        while i < datapoints.len()
            invariant
                i <= datapoints.len(),
                all_well_formed(datapoints@),
                acc == self.total(datapoints@.take(i as int)),
            decreases datapoints.len() - i,
        {
            let ghost next = datapoints@.take(i + 1);
            proof {
                assert(next.drop_last() =~= datapoints@.take(i as int));
                lemma_total_bound(*self, next);
            }
            let p = self.price_for_single_period(&datapoints[i]);
            acc = acc.combine(p);
            i += 1;
        }
        assert(datapoints@.take(datapoints.len() as int) =~= datapoints@);
        acc
    }

    /// The bill for a period of `days` days: the net of the readings, netted with the
    /// standing charge for those days.
    pub fn bill_for_period(&self, datapoints: &Vec<SmartMeterData>, days: u32) -> (r:
        EnergyBillEntry)
        requires
            all_well_formed(datapoints@),
        ensures
            r == self.total(datapoints@).combined(
                EnergyBillEntry::Debit((self.daily_charge() * days) as u128),
            ),
    {
        let total = self.compute_total_bill_for_period(datapoints);
        let standing = self.standing_charge_per_number_of_days(days);
        let n: usize = datapoints.len();
        proof {
            lemma_total_bound(*self, datapoints@);
            assert(usize::MAX <= u64::MAX);
            assert(datapoints@.len() * MAX_AMOUNT <= u64::MAX * MAX_AMOUNT) by (nonlinear_arith)
                requires
                    datapoints@.len() <= u64::MAX,
            ;
            let c = self.daily_charge();
            assert(0 <= c <= 1_000_000_000);
            assert(c * days <= 1_000_000_000 * u32::MAX) by (nonlinear_arith)
                requires
                    0 <= c <= 1_000_000_000,
            ;
        }
        total.combine(standing)
    }
}

/// Net amount of a sequence of readings: the sum of their signed prices.
pub open spec fn net_of(plan: PricePlan, readings: Seq<SmartMeterData>) -> int
    decreases readings.len(),
{
    if readings.len() == 0 {
        0
    } else {
        net_of(plan, readings.drop_last()) + plan.price(readings.last()).signed()
    }
}

/// The fold nets exactly: the total stands for the sum of the signed prices, whatever order
/// the pairwise netting took.
pub proof fn lemma_total_is_net(plan: PricePlan, readings: Seq<SmartMeterData>)
    requires
        readings.len() <= usize::MAX,
    ensures
        plan.total(readings).signed() == net_of(plan, readings),
    decreases readings.len(),
{
    if readings.len() > 0 {
        lemma_total_is_net(plan, readings.drop_last());
        lemma_total_bound(plan, readings);
        lemma_combined_is_sum(plan.total(readings.drop_last()), plan.price(readings.last()));
    }
}

/// With no readings the total is `Debit(0)`, for every plan.
pub proof fn lemma_total_of_no_readings(plan: PricePlan)
    ensures
        plan.total(Seq::empty()) == EnergyBillEntry::Debit(0),
{
}

/// The total depends on the plan and the readings alone: the same readings give the same
/// result each time.
pub proof fn lemma_total_deterministic(plan: PricePlan, a: Seq<SmartMeterData>, b: Seq<SmartMeterData>)
    requires
        a == b,
    ensures
        plan.total(a) == plan.total(b),
{
}

/// An export reading of `v` watt-hours is credited at the plan's flat export rate: exactly
/// `Credit(rate * v)`, with rates 210 000, 240 000 and 185 000 nano-euro per watt-hour.
pub proof fn lemma_export_price(plan: PricePlan, d: SmartMeterData)
    requires
        d.read_type == SmartMeterDataType::ActiveExport,
    ensures
        plan.price(d) == EnergyBillEntry::Credit((plan.export_rate() * d.read_value) as u128),
        plan == PricePlan::ElectricIrelandHomeElectric14 ==> plan.export_rate() == 210_000,
        plan == PricePlan::SSEAirtricity20 ==> plan.export_rate() == 240_000,
        plan == PricePlan::BordGaisEnergy25WeekendFree ==> plan.export_rate() == 185_000,
{
}

/// Bands exclude their start and include their end: a reading that ends exactly at 17:00 is
/// charged at the rate before the peak band, one that ends exactly at 19:00 at the peak rate.
pub proof fn lemma_peak_band_boundaries(ts: ReadTimestamp)
    ensures
        ts.seconds_of_day() == PEAK_START ==> PricePlan::SSEAirtricity20.import_rate(ts)
            == discounted(SSE_STANDARD_RATE as int, SSE_DISCOUNT_PERCENT as int),
        ts.seconds_of_day() == PEAK_END ==> PricePlan::SSEAirtricity20.import_rate(ts)
            == discounted(SSE_PEAK_RATE as int, SSE_DISCOUNT_PERCENT as int),
        ts.weekday.spec_is_working_day() && ts.seconds_of_day() == PEAK_START
            ==> PricePlan::BordGaisEnergy25WeekendFree.import_rate(ts) == discounted(
            BG_DAY_RATE as int,
            BG_DISCOUNT_PERCENT as int,
        ),
        ts.weekday.spec_is_working_day() && ts.seconds_of_day() == PEAK_END
            ==> PricePlan::BordGaisEnergy25WeekendFree.import_rate(ts) == discounted(
            BG_PEAK_RATE as int,
            BG_DISCOUNT_PERCENT as int,
        ),
{
}

/// The night band runs past midnight and excludes its start: a reading that ends exactly at
/// 23:00 is charged at the standard rate, one that ends at 08:00 or any time after midnight
/// up to it at the night rate.
pub proof fn lemma_night_band_boundaries(ts: ReadTimestamp)
    ensures
        ts.seconds_of_day() == NIGHT_START ==> PricePlan::SSEAirtricity20.import_rate(ts)
            == discounted(SSE_STANDARD_RATE as int, SSE_DISCOUNT_PERCENT as int),
        ts.seconds_of_day() <= NIGHT_END ==> PricePlan::SSEAirtricity20.import_rate(ts)
            == discounted(SSE_NIGHT_RATE as int, SSE_DISCOUNT_PERCENT as int),
        ts.seconds_of_day() > NIGHT_START ==> PricePlan::SSEAirtricity20.import_rate(ts)
            == discounted(SSE_NIGHT_RATE as int, SSE_DISCOUNT_PERCENT as int),
        ts.seconds_of_day() == NIGHT_START
            ==> PricePlan::BordGaisEnergy25WeekendFree.import_rate(ts) == discounted(
            BG_DAY_RATE as int,
            BG_DISCOUNT_PERCENT as int,
        ),
        ts.seconds_of_day() <= NIGHT_END
            ==> PricePlan::BordGaisEnergy25WeekendFree.import_rate(ts) == discounted(
            BG_NIGHT_RATE as int,
            BG_DISCOUNT_PERCENT as int,
        ),
{
}

} // verus!

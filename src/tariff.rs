use vstd::prelude::*;
use crate::money::EnergyBillEntry;
use crate::reading::{ReadTimestamp, SmartMeterData, SmartMeterDataType, Weekday};

verus! {

// Rates are in nano-euro per watt-hour (0.3895 per kWh is 389 500),
// before the plan's discount; times of day are seconds since midnight.
pub const HOUR: u64 = 3600;

/// Home Electric+ 14: one import rate at any time.
pub const EI_IMPORT_RATE: u64 = 389_500;

pub const EI_DISCOUNT_PERCENT: u64 = 14;

pub const EI_EXPORT_RATE: u64 = 210_000;

pub const EI_ANNUAL_STANDING_CHARGE: u128 = 272_610_000_000;

/// Airtricity 20: peak, night and standard rates.
pub const SSE_PEAK_RATE: u64 = 488_200;

pub const SSE_NIGHT_RATE: u64 = 250_600;

pub const SSE_STANDARD_RATE: u64 = 386_500;

pub const SSE_DISCOUNT_PERCENT: u64 = 20;

pub const SSE_EXPORT_RATE: u64 = 240_000;

pub const SSE_DAILY_STANDING_CHARGE: u128 = 660_200_000;

/// Bord Gáis 25 weekend-free: free on Sunday daytime, peak on working days, night and day
/// rates otherwise.
pub const BG_PEAK_RATE: u64 = 525_800;

pub const BG_NIGHT_RATE: u64 = 316_300;

pub const BG_DAY_RATE: u64 = 430_400;

pub const BG_DISCOUNT_PERCENT: u64 = 25;

pub const BG_EXPORT_RATE: u64 = 185_000;

pub const BG_ANNUAL_STANDING_CHARGE: u128 = 237_560_000_000;

pub const DAYS_PER_YEAR: u128 = 365;

/// Peak band (17:00, 19:00].
pub const PEAK_START: u64 = 17 * HOUR;

pub const PEAK_END: u64 = 19 * HOUR;

/// Night band (23:00, 08:00], which runs past midnight.
pub const NIGHT_START: u64 = 23 * HOUR;

pub const NIGHT_END: u64 = 8 * HOUR;

/// Sunday free band (09:00, 18:00].
pub const FREE_START: u64 = 9 * HOUR;

pub const FREE_END: u64 = 18 * HOUR;

/// Upper bound of every rate, discounted or not, in nano-euro per watt-hour.
pub const MAX_RATE: u64 = 1_000_000;

/// Upper bound of the price of one reading, in nano-euro.
pub const MAX_AMOUNT: u128 = 1_000_000 * 0xffff_ffff;

proof fn lemma_amount_bound(rate: int, value: int)
    requires
        0 <= rate <= MAX_RATE,
        0 <= value <= u32::MAX,
    ensures
        0 <= rate * value <= MAX_AMOUNT,
{
    assert(0 <= rate * value <= MAX_RATE * u32::MAX) by (nonlinear_arith)
        requires
            0 <= rate <= MAX_RATE,
            0 <= value <= u32::MAX,
    ;
}

/// A time of day lies in the band `(start, end]`: after its start, up to and including its end.
pub open spec fn in_band(t: int, start: int, end: int) -> bool {
    start < t && t <= end
}

/// A time of day lies in a band `(start, end]` that runs past midnight: after its start, or
/// up to and including its end.
pub open spec fn in_overnight_band(t: int, start: int, end: int) -> bool {
    start < t || t <= end
}

/// A rate less a discount in percent.
pub open spec fn discounted(rate: int, percent: int) -> int {
    rate * (100 - percent) / 100
}

/// The tariff plans on offer.
#[derive(Debug, Clone, Copy, PartialEq, Eq, Structural)]
pub enum PricePlan {
    ElectricIrelandHomeElectric14,
    SSEAirtricity20,
    BordGaisEnergy25WeekendFree,
}

impl PricePlan {
    /// Import rate per watt-hour, discount applied, for a reading that ended at `ts`.
    /// Bands are tried in order: Sunday free band, peak, night, then the standard rate.
    pub open spec fn import_rate(self, ts: ReadTimestamp) -> int {
        let t = ts.seconds_of_day();
        match self {
            PricePlan::ElectricIrelandHomeElectric14 => discounted(
                EI_IMPORT_RATE as int,
                EI_DISCOUNT_PERCENT as int,
            ),
            PricePlan::SSEAirtricity20 => if in_band(t, PEAK_START as int, PEAK_END as int) {
                discounted(SSE_PEAK_RATE as int, SSE_DISCOUNT_PERCENT as int)
            } else if in_overnight_band(t, NIGHT_START as int, NIGHT_END as int) {
                discounted(SSE_NIGHT_RATE as int, SSE_DISCOUNT_PERCENT as int)
            } else {
                discounted(SSE_STANDARD_RATE as int, SSE_DISCOUNT_PERCENT as int)
            },
            PricePlan::BordGaisEnergy25WeekendFree => if ts.weekday == Weekday::Sunday && in_band(
                t,
                FREE_START as int,
                FREE_END as int,
            ) {
                0
            } else if ts.weekday.spec_is_working_day() && in_band(
                t,
                PEAK_START as int,
                PEAK_END as int,
            ) {
                discounted(BG_PEAK_RATE as int, BG_DISCOUNT_PERCENT as int)
            } else if in_overnight_band(t, NIGHT_START as int, NIGHT_END as int) {
                discounted(BG_NIGHT_RATE as int, BG_DISCOUNT_PERCENT as int)
            } else {
                discounted(BG_DAY_RATE as int, BG_DISCOUNT_PERCENT as int)
            },
        }
    }

    /// Flat export rate per watt-hour.
    pub open spec fn export_rate(self) -> int {
        match self {
            PricePlan::ElectricIrelandHomeElectric14 => EI_EXPORT_RATE as int,
            PricePlan::SSEAirtricity20 => SSE_EXPORT_RATE as int,
            PricePlan::BordGaisEnergy25WeekendFree => BG_EXPORT_RATE as int,
        }
    }

    /// An import is a debit and an export a credit, at the rate times the energy.
    pub open spec fn price(self, d: SmartMeterData) -> EnergyBillEntry {
        match d.read_type {
            SmartMeterDataType::ActiveImport => EnergyBillEntry::Debit(
                (self.import_rate(d.read_date_and_end_time) * d.read_value) as u128,
            ),
            SmartMeterDataType::ActiveExport => EnergyBillEntry::Credit(
                (self.export_rate() * d.read_value) as u128,
            ),
        }
    }

    /// Standing charge per day, in nano-euro.
    pub open spec fn daily_charge(self) -> int {
        match self {
            PricePlan::ElectricIrelandHomeElectric14 => EI_ANNUAL_STANDING_CHARGE as int / DAYS_PER_YEAR as int,
            PricePlan::SSEAirtricity20 => SSE_DAILY_STANDING_CHARGE as int,
            PricePlan::BordGaisEnergy25WeekendFree => BG_ANNUAL_STANDING_CHARGE as int / DAYS_PER_YEAR as int,
        }
    }

    /// Left fold of the readings' prices, from `Debit(0)`, in the order given.
    pub open spec fn total(self, readings: Seq<SmartMeterData>) -> EnergyBillEntry
        decreases readings.len(),
    {
        if readings.len() == 0 {
            EnergyBillEntry::Debit(0)
        } else {
            self.total(readings.drop_last()).combined(self.price(readings.last()))
        }
    }

    /// The price of one reading.
    pub fn price_for_single_period(&self, datapoint: &SmartMeterData) -> (r: EnergyBillEntry)
        requires
            datapoint.read_date_and_end_time.wf(),
        ensures
            r == self.price(*datapoint),
    {
        let v = datapoint.read_value as u128;
        match datapoint.read_type {
            SmartMeterDataType::ActiveImport => {
                let rate = self.import_rate_at(&datapoint.read_date_and_end_time);
                proof {
                    lemma_amount_bound(rate as int, v as int);
                }
                EnergyBillEntry::Debit(rate as u128 * v)
            },
            SmartMeterDataType::ActiveExport => {
                let rate = self.export_rate_per_wh();
                proof {
                    lemma_amount_bound(rate as int, v as int);
                }
                EnergyBillEntry::Credit(rate as u128 * v)
            },
        }
    }

    /// Import rate per watt-hour, discount applied, for a reading that ended at `ts`.
    pub fn import_rate_at(&self, ts: &ReadTimestamp) -> (r: u64)
        requires
            ts.wf(),
        ensures
            r as int == self.import_rate(*ts),
            r <= MAX_RATE,
    {
        let t = ts.seconds_since_midnight();
        match self {
            PricePlan::ElectricIrelandHomeElectric14 => EI_IMPORT_RATE * (100
                - EI_DISCOUNT_PERCENT) / 100,
            PricePlan::SSEAirtricity20 => {
                if t > PEAK_START && t <= PEAK_END {
                    SSE_PEAK_RATE * (100 - SSE_DISCOUNT_PERCENT) / 100
                } else if t > NIGHT_START || t <= NIGHT_END {
                    SSE_NIGHT_RATE * (100 - SSE_DISCOUNT_PERCENT) / 100
                } else {
                    SSE_STANDARD_RATE * (100 - SSE_DISCOUNT_PERCENT) / 100
                }
            },
            PricePlan::BordGaisEnergy25WeekendFree => {
                if ts.weekday == Weekday::Sunday && t > FREE_START && t <= FREE_END {
                    0
                } else if ts.weekday.is_working_day() && t > PEAK_START && t <= PEAK_END {
                    BG_PEAK_RATE * (100 - BG_DISCOUNT_PERCENT) / 100
                } else if t > NIGHT_START || t <= NIGHT_END {
                    BG_NIGHT_RATE * (100 - BG_DISCOUNT_PERCENT) / 100
                } else {
                    BG_DAY_RATE * (100 - BG_DISCOUNT_PERCENT) / 100
                }
            },
        }
    }

    /// Flat export rate per watt-hour.
    pub fn export_rate_per_wh(&self) -> (r: u64)
        ensures
            r as int == self.export_rate(),
            r <= MAX_RATE,
    {
        match self {
            PricePlan::ElectricIrelandHomeElectric14 => EI_EXPORT_RATE,
            PricePlan::SSEAirtricity20 => SSE_EXPORT_RATE,
            PricePlan::BordGaisEnergy25WeekendFree => BG_EXPORT_RATE,
        }
    }

    /// The standing charge for one day: always a debit.
    pub fn standing_charge_per_day(&self) -> (r: EnergyBillEntry)
        ensures
            r == EnergyBillEntry::Debit(self.daily_charge() as u128),
    {
        match self {
            PricePlan::ElectricIrelandHomeElectric14 => EnergyBillEntry::Debit(
                EI_ANNUAL_STANDING_CHARGE / DAYS_PER_YEAR,
            ),
            PricePlan::SSEAirtricity20 => EnergyBillEntry::Debit(SSE_DAILY_STANDING_CHARGE),
            PricePlan::BordGaisEnergy25WeekendFree => EnergyBillEntry::Debit(
                BG_ANNUAL_STANDING_CHARGE / DAYS_PER_YEAR,
            ),
        }
    }

    /// The standing charge for `days` days: the daily charge times `days`, as a debit.
    pub fn standing_charge_per_number_of_days(&self, days: u32) -> (r: EnergyBillEntry)
        ensures
            r == EnergyBillEntry::Debit((self.daily_charge() * days) as u128),
    {
        match self.standing_charge_per_day() {
            EnergyBillEntry::Credit(_) => {
                proof {
                    assert(false);
                }
                EnergyBillEntry::Debit(0)
            },
            EnergyBillEntry::Debit(day_value) => {
                assert(day_value <= 1_000_000_000);
                assert(day_value * days <= 1_000_000_000 * u32::MAX) by (nonlinear_arith)
                    requires
                        day_value <= 1_000_000_000,
                ;
                EnergyBillEntry::Debit(day_value * days as u128)
            },
        }
    }
}

} // verus!

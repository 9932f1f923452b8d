//! The input records the engine consumes: a demand forecast and a price
//! schedule, both fully materialized before a run starts. The I/O layer that
//! loads them hands over plain values; timestamps stay the strings they came
//! as and are only ever read for their hour of day.

use vstd::prelude::*;

verus! {

/// Mathematical model of an [`EnergyConsumption`] record.
#[verifier::ext_equal]
pub ghost struct DemandRecordModel {
    pub start: Seq<char>,
    pub end: Seq<char>,
    pub power_w: u64,
}

/// One demand-forecast record: the average power demand over one interval.
#[derive(Clone, Debug, PartialEq)]
pub struct EnergyConsumption {
    /// Interval start, an RFC 3339 timestamp.
    pub start: String,
    /// Interval end, an RFC 3339 timestamp.
    pub end: String,
    /// Average power demand over the interval, in watts.
    pub consumption_average_power_interval: u64,
}

impl View for EnergyConsumption {
    type V = DemandRecordModel;

    open spec fn view(&self) -> DemandRecordModel {
        DemandRecordModel {
            start: self.start@,
            end: self.end@,
            power_w: self.consumption_average_power_interval,
        }
    }
}

/// The whole demand forecast for the horizon, in source order.
#[derive(Clone, Debug, PartialEq)]
pub struct EnergyConsumptionForecast {
    pub forecasts: Vec<EnergyConsumption>,
}

impl View for EnergyConsumptionForecast {
    type V = Seq<DemandRecordModel>;

    open spec fn view(&self) -> Seq<DemandRecordModel> {
        self.forecasts@.map_values(|r: EnergyConsumption| r@)
    }
}

/// Mathematical model of an [`ElectricityPricePerHour`] record.
#[verifier::ext_equal]
pub ghost struct PriceRecordModel {
    pub start: Seq<char>,
    pub end: Seq<char>,
    pub currency: Seq<char>,
    pub price_micro: u64,
}

/// One price record: the market price over one hour.
#[derive(Clone, Debug, PartialEq)]
pub struct ElectricityPricePerHour {
    /// Hour start, an RFC 3339 timestamp.
    pub start: String,
    /// Hour end, an RFC 3339 timestamp.
    pub end: String,
    /// Currency of the price.
    pub market_price_currency: String,
    /// Price per kilowatt-hour, in millionths of the currency unit.
    pub market_price_per_kwh: u64,
}

impl View for ElectricityPricePerHour {
    type V = PriceRecordModel;

    open spec fn view(&self) -> PriceRecordModel {
        PriceRecordModel {
            start: self.start@,
            end: self.end@,
            currency: self.market_price_currency@,
            price_micro: self.market_price_per_kwh,
        }
    }
}

/// The whole price schedule for the horizon, in source order.
#[derive(Clone, Debug, PartialEq)]
pub struct ElectricityPrices {
    /// The bidding zone the prices were quoted for.
    pub bidding_zone: String,
    pub prices: Vec<ElectricityPricePerHour>,
}

impl View for ElectricityPrices {
    type V = Seq<PriceRecordModel>;

    open spec fn view(&self) -> Seq<PriceRecordModel> {
        self.prices@.map_values(|r: ElectricityPricePerHour| r@)
    }
}

} // verus!

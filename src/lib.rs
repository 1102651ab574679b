//! Electricity bills from smart-meter interval readings under competing tariff plans.

pub mod money;
pub mod reading;
pub mod tariff;
pub mod billing;

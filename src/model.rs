//! The enumerations that requests carry, with their wire names.

use vstd::prelude::*;

verus! {

#[derive(Debug, Clone, Copy, PartialEq, Eq, Structural)]
pub enum OrderSide {
    Buy,
    Sell,
}

impl OrderSide {
    pub open spec fn wire_spec(self) -> Seq<char> {
        match self {
            OrderSide::Buy => "buy"@,
            OrderSide::Sell => "sell"@,
        }
    }

    pub fn wire_name(&self) -> (r: &'static str)
        ensures
            r@ == self.wire_spec(),
    {
        match self {
            OrderSide::Buy => "buy",
            OrderSide::Sell => "sell",
        }
    }
}

#[derive(Debug, Clone, Copy, PartialEq, Eq, Structural)]
pub enum OrderType {
    Limit,
    Market,
}

impl OrderType {
    pub open spec fn wire_spec(self) -> Seq<char> {
        match self {
            OrderType::Limit => "limit"@,
            OrderType::Market => "market"@,
        }
    }

    pub fn wire_name(&self) -> (r: &'static str)
        ensures
            r@ == self.wire_spec(),
    {
        match self {
            OrderType::Limit => "limit",
            OrderType::Market => "market",
        }
    }
}

#[derive(Debug, Clone, Copy, PartialEq, Eq, Structural)]
pub enum TriggerOrderType {
    Stop,
    TrailingStop,
    TakeProfit,
}

impl TriggerOrderType {
    pub open spec fn wire_spec(self) -> Seq<char> {
        match self {
            TriggerOrderType::Stop => "stop"@,
            TriggerOrderType::TrailingStop => "trailing_stop"@,
            TriggerOrderType::TakeProfit => "take_profit"@,
        }
    }

    pub fn wire_name(&self) -> (r: &'static str)
        ensures
            r@ == self.wire_spec(),
    {
        match self {
            TriggerOrderType::Stop => "stop",
            TriggerOrderType::TrailingStop => "trailing_stop",
            TriggerOrderType::TakeProfit => "take_profit",
        }
    }
}

/// Candle widths; the wire name is the width in seconds.
#[derive(Debug, Clone, Copy, PartialEq, Eq, Structural)]
pub enum TimeResolution {
    T15s,
    T1m,
    T5m,
    T15m,
    T1h,
    T4h,
    T1d,
}

impl TimeResolution {
    pub open spec fn wire_spec(self) -> Seq<char> {
        match self {
            TimeResolution::T15s => "15"@,
            TimeResolution::T1m => "60"@,
            TimeResolution::T5m => "300"@,
            TimeResolution::T15m => "900"@,
            TimeResolution::T1h => "3600"@,
            TimeResolution::T4h => "14400"@,
            TimeResolution::T1d => "86400"@,
        }
    }

    pub fn wire_name(&self) -> (r: &'static str)
        ensures
            r@ == self.wire_spec(),
    {
        match self {
            TimeResolution::T15s => "15",
            TimeResolution::T1m => "60",
            TimeResolution::T5m => "300",
            TimeResolution::T15m => "900",
            TimeResolution::T1h => "3600",
            TimeResolution::T4h => "14400",
            TimeResolution::T1d => "86400",
        }
    }
}

} // verus!

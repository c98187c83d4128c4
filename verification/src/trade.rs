//! The sides of a trade leg and the shapes of decay, as the decision
//! messages name them.

use vstd::prelude::*;

verus! {

/// Which way one leg of a trade goes.
#[derive(Debug, Clone, PartialEq, Eq)]
pub enum LegSide {
    Buy,
    Sell,
}

impl LegSide {
    /// The snake_case name this side is serialized under.
    pub fn label(&self) -> (r: String)
        ensures
            self is Buy ==> r@ == "buy"@,
            self is Sell ==> r@ == "sell"@,
    {
        match self {
            LegSide::Buy => String::from_str("buy"),
            LegSide::Sell => String::from_str("sell"),
        }
    }
}

/// How a projected confidence or price target decays per day.
#[derive(Debug, Clone, PartialEq, Eq)]
pub enum DecayModel {
    /// Simple percentage reduction per period.
    Linear,
    /// Multiplied by one minus the rate each day.
    Exponential,
}

impl DecayModel {
    /// The snake_case name this model is serialized under.
    pub fn label(&self) -> (r: String)
        ensures
            self is Linear ==> r@ == "linear"@,
            self is Exponential ==> r@ == "exponential"@,
    {
        match self {
            DecayModel::Linear => String::from_str("linear"),
            DecayModel::Exponential => String::from_str("exponential"),
        }
    }
}

} // verus!

//! Characters, and what their traits cost.
//!
//! - [`data`]: the character as the rules read it;
//! - [`curves`]: what a rating costs as it rises;
//! - [`analysis`]: the cost of one item;
//! - [`duplicates`]: purchases of which only the highest step counts, and
//!   [`duplicate_laws`]: what holds of that rule;
//! - [`breakdown`]: every priced line of a character;
//! - [`totals`]: the rated traits, the characteristics and the energy pools;
//! - [`rows`]: the same, row by row;
//! - [`ledger`]: the total, and the totals by category.

pub mod analysis;
pub mod breakdown;
pub mod curves;
pub mod data;
pub mod duplicate_laws;
pub mod duplicates;
pub mod ledger;
pub mod rows;
pub mod totals;

pub use analysis::{ApCalculator, ApItem, ApValueParseResult};
pub use curves::CostCurve;
pub use data::{
    AstralEnergyValue, Attribute, AttributeValue, Character, CharacterSystem, CharacteristicValue,
    Characteristics, Details, Experience, Item, ItemSystem, KarmaEnergyValue, StatusValues,
    WoundValue,
};

//! The runtime's own pallets, each a state machine over its storage.

pub mod reserve_fund;
pub mod reward_engine;
pub mod pow;
pub mod marketplace;
pub mod bridge;
pub mod biosphere;
pub mod stability_guard;
pub mod growth_model;
pub mod liquidity_flow;
pub mod predictive_guard;
pub mod identity;
pub mod interop;
pub mod iot_bridge;
pub mod standards;
pub mod legal_and_compliance;
pub mod risk_management;
pub mod aura;
pub mod reputation;

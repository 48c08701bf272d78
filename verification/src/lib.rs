//! Verified core of a Solana index-basket strategy engine: fee configuration,
//! account checks, algorithm registries, execution schedules and risk gates.

pub mod account_models;
pub mod account_util;
pub mod basket;
pub mod bytes;
pub mod constants;
pub mod decimal;
pub mod errors;
pub mod fee_config;
pub mod genetic;
pub mod impact_history;
pub mod infinix_program;
pub mod market_impact;
pub mod market_state;
pub mod metrics;
pub mod text;
pub mod twap;
pub mod vwap_schedule;
pub mod name_table;
pub mod optimizer_rules;
pub mod registry;
pub mod risk_rules;
pub mod routing_rules;
pub mod schedules;
pub mod strategies;

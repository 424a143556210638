pub mod bytes;
pub mod consts;
pub mod fair_price;
pub mod market;
pub mod oracle;
pub mod policy;
pub mod quote;
pub mod reconcile;
pub mod repeated_update;
pub mod return_data;
pub mod state;
pub mod strategy;

pub use consts::StrategyError;
pub use market::PhoenixV1;
pub use policy::PriceImprovementBehavior;
pub use state::OrderParams;
pub use state::PhoenixStrategyState;
pub use state::StrategyParams;
pub use strategy::initialize;
pub use strategy::update_quotes;

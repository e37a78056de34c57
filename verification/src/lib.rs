//! Accounting and pricing core of a two-asset liquidity pool.
//!
//! The pool holds the reserves of two assets. Deposits must keep the ratio of
//! the reserves, and swaps are priced by the constant-product rule with floor
//! division. Every arithmetic step is checked, and an operation that fails
//! leaves the pool as it was.

pub mod arith;
pub mod contract;
pub mod error;
pub mod laws;
pub mod liquidity;
pub mod msg;
pub mod pool;
pub mod swap;
pub mod wide;

pub use contract::execute;
pub use contract::instantiate;
pub use error::ContractError;
pub use liquidity::provide_liquidity;
pub use msg::Attribute;
pub use msg::ExecuteMsg;
pub use msg::InstantiateMsg;
pub use msg::Instruction;
pub use msg::Response;
pub use pool::Denom;
pub use pool::Pool;
pub use pool::Token;
pub use pool::TokenSelection;
pub use swap::calculate_output_amount;
pub use swap::swap;

//! An on-ledger securities exchange: order lifecycle, matching, escrowed
//! settlement and a per-user position ledger.
//!
//! Every operation is a total function from the records it is given, the
//! caller's identity, the balances it needs to look at and the current time
//! to either an error, with every record left as it was, or the new contents
//! of each record together with the token movements the caller has to carry
//! out. Moving tokens, reading the clock and storing records are the host's
//! business.
//!
//! - [`state`] holds the records and their invariants.
//! - [`math`] holds the checked money arithmetic every trade path shares.
//! - [`settlement`] says what a fill does to an order and what settles a
//!   trade.
//! - [`instructions`] holds the operations: orders and matching, escrow,
//!   holdings and portfolios, and the administration around them.
//! - [`errors`] holds the one error type of them all.
//!
//! Beside each operation stand the `spec fn`s its contract is written in,
//! named after it, and the laws that hold across operations, proved as
//! `lemma_` functions.

pub mod errors;
pub mod instructions;
pub mod math;
pub mod settlement;
pub mod state;

pub use errors::DefiTradingError;
pub use instructions::{
    admin_create_company, calculate_market_depth, cancel_escrow, cancel_order, create_buy_order, create_escrow,
    create_limit_order, create_market_order, create_or_update_holding, create_portfolio,
    create_sell_order, create_token_offering, distribute_tokens, execute_trade,
    initialize_platform, match_orders, participate_in_offering, pause_platform, register_company,
    release_escrow, resolve_execution_price, roll_up_portfolio, stored_trade_id, trade_reference, transfer_to_recipient, unpause_platform,
    update_holding_after_trade, update_platform_fee, update_portfolio, verify_company,
    CompanyListing, MatchOutcome, TradeOutcome,
};
pub use math::{signed_difference, trade_amounts, TradeAmounts, BASIS_POINTS};
pub use settlement::{FundsSource, OrderPlacement, TradeExecution};
pub use state::{
    Address, Company, Escrow, EscrowStatus, Holding, MarketDepth, MarketOrderType,
    OfferingParticipation, OfferingStatus, Order, OrderStatus, OrderType, Orderbook, Platform,
    Portfolio, PriceLevel, TokenDistribution, TokenOffering, Trade,
};

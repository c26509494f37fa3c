//! The operations of the exchange, grouped by the ledger they act on.

pub mod company;
pub mod enhanced_trading;
pub mod escrow;
pub mod platform;
pub mod portfolio;
pub mod token_offering;
pub mod trading;

pub use company::{
    admin_create_company, distribute_tokens, register_company, transfer_to_recipient,
    CompanyListing,
};
pub use enhanced_trading::{
    calculate_market_depth, create_limit_order, create_market_order, match_orders, resolve_execution_price, MatchOutcome,
};
pub use escrow::{
    cancel_escrow, create_escrow, release_escrow, stored_trade_id, trade_reference,
};
pub use platform::{
    initialize_platform, pause_platform, unpause_platform, update_platform_fee, verify_company,
};
pub use portfolio::{
    create_or_update_holding, create_portfolio, roll_up_portfolio, update_holding_after_trade,
    update_portfolio,
};
pub use token_offering::{create_token_offering, participate_in_offering};
pub use trading::{cancel_order, create_buy_order, create_sell_order, execute_trade, TradeOutcome};

//! The error taxonomy of the exchange.
//!
//! Every refusal carries one specific kind. Validation and precondition
//! failures are detected before any record is touched, so an operation that
//! returns an error has changed nothing.

use vstd::prelude::*;

verus! {

/// Every way an operation of the exchange can be refused.
#[derive(Clone, Copy, Debug, PartialEq, Eq, Hash, Structural)]
pub enum DefiTradingError {
    PlatformPaused,
    Unauthorized,
    InvalidCompanyData,
    CompanyNotFound,
    CompanyAlreadyExists,
    InvalidOfferingParams,
    OfferingNotActive,
    OfferingEnded,
    OfferingNotStarted,
    InsufficientTokens,
    InsufficientFunds,
    InvalidOrderParams,
    OrderNotFound,
    OrderAlreadyFilled,
    OrderAlreadyCancelled,
    SelfTrade,
    PriceMismatch,
    InvalidTradeAmount,
    PortfolioNotFound,
    HoldingNotFound,
    EscrowNotFound,
    EscrowAlreadyReleased,
    InvalidEscrowStatus,
    ArithmeticOverflow,
    ArithmeticUnderflow,
    DivisionByZero,
    InvalidTimestamp,
    PlatformFeeTooHigh,
    TokenAccountMismatch,
    MintAuthorityMismatch,
    InvalidTokenMint,
    TokenTransferFailed,
    AlreadyParticipated,
    MinimumInvestmentNotMet,
    MaximumInvestmentExceeded,
    NoLiquidity,
    InvalidTokenDistribution,
    TooManyRecipients,
}

impl DefiTradingError {
    /// The human-readable text of each kind.
    pub open spec fn message_text(self) -> Seq<char> {
        match self {
            DefiTradingError::PlatformPaused => "Platform is currently paused"@,
            DefiTradingError::Unauthorized => "Unauthorized access"@,
            DefiTradingError::InvalidCompanyData => "Invalid company data"@,
            DefiTradingError::CompanyNotFound => "Company not found"@,
            DefiTradingError::CompanyAlreadyExists => "Company already exists"@,
            DefiTradingError::InvalidOfferingParams => "Invalid token offering parameters"@,
            DefiTradingError::OfferingNotActive => "Token offering not active"@,
            DefiTradingError::OfferingEnded => "Token offering already ended"@,
            DefiTradingError::OfferingNotStarted => "Token offering not started yet"@,
            DefiTradingError::InsufficientTokens => "Insufficient tokens available"@,
            DefiTradingError::InsufficientFunds => "Insufficient funds"@,
            DefiTradingError::InvalidOrderParams => "Invalid order parameters"@,
            DefiTradingError::OrderNotFound => "Order not found"@,
            DefiTradingError::OrderAlreadyFilled => "Order already filled"@,
            DefiTradingError::OrderAlreadyCancelled => "Order already cancelled"@,
            DefiTradingError::SelfTrade => "Cannot trade with yourself"@,
            DefiTradingError::PriceMismatch => "Price mismatch"@,
            DefiTradingError::InvalidTradeAmount => "Invalid trade amount"@,
            DefiTradingError::PortfolioNotFound => "Portfolio not found"@,
            DefiTradingError::HoldingNotFound => "Holding not found"@,
            DefiTradingError::EscrowNotFound => "Escrow not found"@,
            DefiTradingError::EscrowAlreadyReleased => "Escrow already released"@,
            DefiTradingError::InvalidEscrowStatus => "Invalid escrow status"@,
            DefiTradingError::ArithmeticOverflow => "Arithmetic overflow"@,
            DefiTradingError::ArithmeticUnderflow => "Arithmetic underflow"@,
            DefiTradingError::DivisionByZero => "Division by zero"@,
            DefiTradingError::InvalidTimestamp => "Invalid timestamp"@,
            DefiTradingError::PlatformFeeTooHigh => "Platform fee too high"@,
            DefiTradingError::TokenAccountMismatch => "Token account mismatch"@,
            DefiTradingError::MintAuthorityMismatch => "Mint authority mismatch"@,
            DefiTradingError::InvalidTokenMint => "Invalid token mint"@,
            DefiTradingError::TokenTransferFailed => "Token transfer failed"@,
            DefiTradingError::AlreadyParticipated => "Already participated in offering"@,
            DefiTradingError::MinimumInvestmentNotMet => "Minimum investment not met"@,
            DefiTradingError::MaximumInvestmentExceeded => "Maximum investment exceeded"@,
            DefiTradingError::NoLiquidity => "No liquidity available"@,
            DefiTradingError::InvalidTokenDistribution => "Invalid token distribution"@,
            DefiTradingError::TooManyRecipients => "Too many recipients"@,
        }
    }

    /// Returns the human-readable text of this kind.
    pub fn message(&self) -> (text: &'static str)
        ensures
            text@ == self.message_text(),
    {
        match self {
            DefiTradingError::PlatformPaused => "Platform is currently paused",
            DefiTradingError::Unauthorized => "Unauthorized access",
            DefiTradingError::InvalidCompanyData => "Invalid company data",
            DefiTradingError::CompanyNotFound => "Company not found",
            DefiTradingError::CompanyAlreadyExists => "Company already exists",
            DefiTradingError::InvalidOfferingParams => "Invalid token offering parameters",
            DefiTradingError::OfferingNotActive => "Token offering not active",
            DefiTradingError::OfferingEnded => "Token offering already ended",
            DefiTradingError::OfferingNotStarted => "Token offering not started yet",
            DefiTradingError::InsufficientTokens => "Insufficient tokens available",
            DefiTradingError::InsufficientFunds => "Insufficient funds",
            DefiTradingError::InvalidOrderParams => "Invalid order parameters",
            DefiTradingError::OrderNotFound => "Order not found",
            DefiTradingError::OrderAlreadyFilled => "Order already filled",
            DefiTradingError::OrderAlreadyCancelled => "Order already cancelled",
            DefiTradingError::SelfTrade => "Cannot trade with yourself",
            DefiTradingError::PriceMismatch => "Price mismatch",
            DefiTradingError::InvalidTradeAmount => "Invalid trade amount",
            DefiTradingError::PortfolioNotFound => "Portfolio not found",
            DefiTradingError::HoldingNotFound => "Holding not found",
            DefiTradingError::EscrowNotFound => "Escrow not found",
            DefiTradingError::EscrowAlreadyReleased => "Escrow already released",
            DefiTradingError::InvalidEscrowStatus => "Invalid escrow status",
            DefiTradingError::ArithmeticOverflow => "Arithmetic overflow",
            DefiTradingError::ArithmeticUnderflow => "Arithmetic underflow",
            DefiTradingError::DivisionByZero => "Division by zero",
            DefiTradingError::InvalidTimestamp => "Invalid timestamp",
            DefiTradingError::PlatformFeeTooHigh => "Platform fee too high",
            DefiTradingError::TokenAccountMismatch => "Token account mismatch",
            DefiTradingError::MintAuthorityMismatch => "Mint authority mismatch",
            DefiTradingError::InvalidTokenMint => "Invalid token mint",
            DefiTradingError::TokenTransferFailed => "Token transfer failed",
            DefiTradingError::AlreadyParticipated => "Already participated in offering",
            DefiTradingError::MinimumInvestmentNotMet => "Minimum investment not met",
            DefiTradingError::MaximumInvestmentExceeded => "Maximum investment exceeded",
            DefiTradingError::NoLiquidity => "No liquidity available",
            DefiTradingError::InvalidTokenDistribution => "Invalid token distribution",
            DefiTradingError::TooManyRecipients => "Too many recipients",
        }
    }
}

} // verus!

//! Registration of companies, their listing with an initial supply, and the
//! equal distribution of an instrument to several users.

use crate::errors::DefiTradingError;
use crate::state::{Address, Company, Orderbook, Platform, TokenDistribution};
use vstd::prelude::*;
use vstd::string::StringSliceAdditionalSpecFns;

verus! {

/// The longest company name, in bytes.
pub const MAX_NAME_LEN: usize = 64;

/// The longest ticker symbol, in bytes.
pub const MAX_SYMBOL_LEN: usize = 16;

/// The longest company description, in bytes.
pub const MAX_DESCRIPTION_LEN: usize = 256;

/// The most recipients one distribution may name.
pub const MAX_RECIPIENTS: usize = 10;

/// The length of a text in bytes, as it is stored.
pub open spec fn byte_length(text: Seq<char>) -> nat {
    vstd::utf8::encode_utf8(text).len()
}

/// Name and symbol are present and every text is within its length.
pub open spec fn company_texts_valid(
    name: Seq<char>,
    symbol: Seq<char>,
    description: Seq<char>,
) -> bool {
    &&& 0 < byte_length(name) <= MAX_NAME_LEN
    &&& 0 < byte_length(symbol) <= MAX_SYMBOL_LEN
    &&& byte_length(description) <= MAX_DESCRIPTION_LEN
}

/// Checks the texts of a company.
fn check_company_texts(name: &String, symbol: &String, description: &String) -> (valid: bool)
    ensures
        valid == company_texts_valid(name@, symbol@, description@),
{
    let name_len: usize = name.as_str().as_bytes().len();
    let symbol_len: usize = symbol.as_str().as_bytes().len();
    let description_len: usize = description.as_str().as_bytes().len();
    0 < name_len && name_len <= MAX_NAME_LEN && 0 < symbol_len && symbol_len <= MAX_SYMBOL_LEN
        && description_len <= MAX_DESCRIPTION_LEN
}

/// Why a registration is refused, if it is. The checks come in this order: a
/// text is missing or too long; the platform is halted; the platform has no
/// company id left.
pub open spec fn register_company_error(
    platform: Platform,
    name: Seq<char>,
    symbol: Seq<char>,
    description: Seq<char>,
) -> Option<DefiTradingError> {
    if !company_texts_valid(name, symbol, description) {
        Some(DefiTradingError::InvalidCompanyData)
    } else if platform.is_paused {
        Some(DefiTradingError::PlatformPaused)
    } else if platform.total_companies + 1 > u64::MAX {
        Some(DefiTradingError::ArithmeticOverflow)
    } else {
        None
    }
}

/// Registers a company under `authority` with the instrument `token_mint`.
///
/// On success the company is numbered one past the platform's company count,
/// unverified and without supply, and the platform counts it. On failure the
/// platform is unchanged.
pub fn register_company(
    platform: &mut Platform,
    authority: Address,
    token_mint: Address,
    name: String,
    symbol: String,
    description: String,
    now: i64,
) -> (res: Result<Company, DefiTradingError>)
    ensures
        match register_company_error(*old(platform), name@, symbol@, description@) {
            Some(e) => {
                &&& res == Err::<Company, DefiTradingError>(e)
                &&& *final(platform) == *old(platform)
            },
            None => {
                &&& res == Ok::<Company, DefiTradingError>(
                    Company {
                        id: (old(platform).total_companies + 1) as u64,
                        authority,
                        name,
                        symbol,
                        description,
                        verified: false,
                        token_mint,
                        total_supply: 0,
                        circulating_supply: 0,
                        market_cap: 0,
                        created_at: now,
                    },
                )
                &&& *final(platform) == (Platform {
                    total_companies: (old(platform).total_companies + 1) as u64,
                    ..*old(platform)
                })
            },
        },
{
    if !check_company_texts(&name, &symbol, &description) {
        return Err(DefiTradingError::InvalidCompanyData);
    }
    if platform.is_paused {
        return Err(DefiTradingError::PlatformPaused);
    }
    let company_id: u64 = match platform.total_companies.checked_add(1) {
        Some(id) => id,
        None => {
            return Err(DefiTradingError::ArithmeticOverflow);
        },
    };
    platform.total_companies = company_id;
    Ok(
        Company {
            id: company_id,
            authority,
            name,
            symbol,
            description,
            verified: false,
            token_mint,
            total_supply: 0,
            circulating_supply: 0,
            market_cap: 0,
            created_at: now,
        },
    )
}

/// A company listed by the platform's authority, with its order book and the
/// supply to mint.
#[derive(Clone, Debug, PartialEq, Eq)]
pub struct CompanyListing {
    pub company: Company,
    pub orderbook: Orderbook,
    /// What has to be minted to the authority's own account.
    pub minted: u64,
}

/// Why a listing is refused, if it is. The checks come in this order: the
/// caller is not the authority; the platform is halted; a text is missing or
/// too long, or supply or price is zero; the platform has no company id left.
pub open spec fn admin_create_company_error(
    platform: Platform,
    admin: Address,
    name: Seq<char>,
    symbol: Seq<char>,
    description: Seq<char>,
    initial_supply: u64,
    initial_price: u64,
) -> Option<DefiTradingError> {
    if admin != platform.authority {
        Some(DefiTradingError::Unauthorized)
    } else if platform.is_paused {
        Some(DefiTradingError::PlatformPaused)
    } else if !company_texts_valid(name, symbol, description) || initial_supply == 0
        || initial_price == 0 {
        Some(DefiTradingError::InvalidCompanyData)
    } else if platform.total_companies + 1 > u64::MAX {
        Some(DefiTradingError::ArithmeticOverflow)
    } else {
        None
    }
}

/// The market capitalisation of `supply` units at `price`, or zero when it
/// does not fit in 64 bits.
pub open spec fn market_cap_of(supply: u64, price: u64) -> u64 {
    if supply * price > u64::MAX {
        0
    } else {
        (supply * price) as u64
    }
}

/// The empty order book of a newly listed instrument, with `initial_price`
/// standing in for the last trade.
pub open spec fn opened_orderbook(
    company_id: u64,
    token_mint: Address,
    initial_price: u64,
    now: i64,
) -> Orderbook {
    Orderbook {
        company_id,
        token_mint,
        total_buy_orders: 0,
        total_sell_orders: 0,
        best_bid: 0,
        best_ask: 0,
        last_trade_price: initial_price,
        total_volume: 0,
        created_at: now,
        last_updated: now,
    }
}

/// Lists a company on behalf of the platform's authority, with an initial
/// supply and an order book.
///
/// On success the company is verified from the start, the whole supply has
/// to be minted to the authority, and the book opens with `initial_price` as
/// its last trade price. On failure the platform is unchanged.
pub fn admin_create_company(
    platform: &mut Platform,
    admin: Address,
    token_mint: Address,
    name: String,
    symbol: String,
    description: String,
    initial_supply: u64,
    initial_price: u64,
    now: i64,
) -> (res: Result<CompanyListing, DefiTradingError>)
    ensures
        match admin_create_company_error(
            *old(platform),
            admin,
            name@,
            symbol@,
            description@,
            initial_supply,
            initial_price,
        ) {
            Some(e) => {
                &&& res == Err::<CompanyListing, DefiTradingError>(e)
                &&& *final(platform) == *old(platform)
            },
            None => {
                &&& res == Ok::<CompanyListing, DefiTradingError>(
                    CompanyListing {
                        company: Company {
                            id: (old(platform).total_companies + 1) as u64,
                            authority: admin,
                            name,
                            symbol,
                            description,
                            verified: true,
                            token_mint,
                            total_supply: initial_supply,
                            circulating_supply: 0,
                            market_cap: market_cap_of(initial_supply, initial_price),
                            created_at: now,
                        },
                        orderbook: opened_orderbook(
                            (old(platform).total_companies + 1) as u64,
                            token_mint,
                            initial_price,
                            now,
                        ),
                        minted: initial_supply,
                    },
                )
                &&& *final(platform) == (Platform {
                    total_companies: (old(platform).total_companies + 1) as u64,
                    ..*old(platform)
                })
            },
        },
{
    if admin != platform.authority {
        return Err(DefiTradingError::Unauthorized);
    }
    if platform.is_paused {
        return Err(DefiTradingError::PlatformPaused);
    }
    if !check_company_texts(&name, &symbol, &description) || initial_supply == 0 || initial_price
        == 0 {
        return Err(DefiTradingError::InvalidCompanyData);
    }
    let company_id: u64 = match platform.total_companies.checked_add(1) {
        Some(id) => id,
        None => {
            return Err(DefiTradingError::ArithmeticOverflow);
        },
    };
    let market_cap: u64 = match initial_supply.checked_mul(initial_price) {
        Some(v) => v,
        None => 0,
    };
    platform.total_companies = company_id;
    let company = Company {
        id: company_id,
        authority: admin,
        name,
        symbol,
        description,
        verified: true,
        token_mint,
        total_supply: initial_supply,
        circulating_supply: 0,
        market_cap,
        created_at: now,
    };
    let orderbook = Orderbook {
        company_id,
        token_mint,
        total_buy_orders: 0,
        total_sell_orders: 0,
        best_bid: 0,
        best_ask: 0,
        last_trade_price: initial_price,
        total_volume: 0,
        created_at: now,
        last_updated: now,
    };
    Ok(CompanyListing { company, orderbook, minted: initial_supply })
}

/// Why a distribution is refused, if it is. The checks come in this order:
/// the caller is not the authority; the platform is halted; the company is
/// not the one named; no recipient is named; more recipients are named than
/// one distribution may have; the share is zero; the total does not fit in 64
/// bits; the authority holds less than the total.
pub open spec fn distribute_tokens_error(
    platform: Platform,
    listed_company_id: u64,
    admin: Address,
    company_id: u64,
    recipients: int,
    amount_per_recipient: u64,
    admin_token_balance: u64,
) -> Option<DefiTradingError> {
    if admin != platform.authority {
        Some(DefiTradingError::Unauthorized)
    } else if platform.is_paused {
        Some(DefiTradingError::PlatformPaused)
    } else if listed_company_id != company_id {
        Some(DefiTradingError::InvalidCompanyData)
    } else if recipients == 0 {
        Some(DefiTradingError::InvalidTokenDistribution)
    } else if recipients > MAX_RECIPIENTS {
        Some(DefiTradingError::TooManyRecipients)
    } else if amount_per_recipient == 0 {
        Some(DefiTradingError::InvalidTokenDistribution)
    } else if amount_per_recipient * recipients > u64::MAX {
        Some(DefiTradingError::ArithmeticOverflow)
    } else if admin_token_balance < amount_per_recipient * recipients {
        Some(DefiTradingError::InsufficientTokens)
    } else {
        None
    }
}

/// Records a distribution of `amount_per_recipient` units of the company's
/// instrument to each of `recipients`, on behalf of the platform's authority.
///
/// `listed_company_id` and `token_mint` are those of the company whose
/// instrument is handed out, and `admin_token_balance` is what the authority
/// holds of it. The record says what each recipient is due; the transfers
/// themselves follow one by one.
pub fn distribute_tokens(
    platform: &Platform,
    listed_company_id: u64,
    token_mint: Address,
    admin: Address,
    company_id: u64,
    recipients: &Vec<Address>,
    amount_per_recipient: u64,
    admin_token_balance: u64,
    now: i64,
) -> (res: Result<TokenDistribution, DefiTradingError>)
    ensures
        match distribute_tokens_error(
            *platform,
            listed_company_id,
            admin,
            company_id,
            recipients@.len() as int,
            amount_per_recipient,
            admin_token_balance,
        ) {
            Some(e) => res == Err::<TokenDistribution, DefiTradingError>(e),
            None => res == Ok::<TokenDistribution, DefiTradingError>(
                TokenDistribution {
                    company_id,
                    admin,
                    token_mint,
                    total_distributed: (amount_per_recipient * recipients@.len()) as u64,
                    recipients_count: recipients@.len() as u64,
                    amount_per_recipient,
                    distributed_at: now,
                },
            ),
        },
{
    if admin != platform.authority {
        return Err(DefiTradingError::Unauthorized);
    }
    if platform.is_paused {
        return Err(DefiTradingError::PlatformPaused);
    }
    if listed_company_id != company_id {
        return Err(DefiTradingError::InvalidCompanyData);
    }
    let count: usize = recipients.len();
    if count == 0 {
        return Err(DefiTradingError::InvalidTokenDistribution);
    }
    if count > MAX_RECIPIENTS {
        return Err(DefiTradingError::TooManyRecipients);
    }
    if amount_per_recipient == 0 {
        return Err(DefiTradingError::InvalidTokenDistribution);
    }
    let recipients_count: u64 = count as u64;
    let total_amount: u64 = match amount_per_recipient.checked_mul(recipients_count) {
        Some(v) => v,
        None => {
            return Err(DefiTradingError::ArithmeticOverflow);
        },
    };
    if admin_token_balance < total_amount {
        return Err(DefiTradingError::InsufficientTokens);
    }
    Ok(
        TokenDistribution {
            company_id,
            admin,
            token_mint,
            total_distributed: total_amount,
            recipients_count,
            amount_per_recipient,
            distributed_at: now,
        },
    )
}

/// Why a transfer to a recipient is refused, if it is: the amount is not the
/// share the distribution sets, or the caller is not the one who set it up.
pub open spec fn transfer_to_recipient_error(
    distribution: TokenDistribution,
    admin: Address,
    amount: u64,
) -> Option<DefiTradingError> {
    if amount != distribution.amount_per_recipient {
        Some(DefiTradingError::InvalidTokenDistribution)
    } else if admin != distribution.admin {
        Some(DefiTradingError::Unauthorized)
    } else {
        None
    }
}

/// Clears the transfer of one recipient's share of a distribution and
/// returns the amount to move from the authority to the recipient.
pub fn transfer_to_recipient(distribution: &TokenDistribution, admin: Address, amount: u64) -> (res:
    Result<u64, DefiTradingError>)
    ensures
        match transfer_to_recipient_error(*distribution, admin, amount) {
            Some(e) => res == Err::<u64, DefiTradingError>(e),
            None => res == Ok::<u64, DefiTradingError>(amount),
        },
{
    if amount != distribution.amount_per_recipient {
        return Err(DefiTradingError::InvalidTokenDistribution);
    }
    if admin != distribution.admin {
        return Err(DefiTradingError::Unauthorized);
    }
    Ok(amount)
}

} // verus!

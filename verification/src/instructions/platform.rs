//! Platform-wide controls: the halt switch, the fee rate and the
//! verification of companies, all reserved to the platform's authority.

use crate::errors::DefiTradingError;
use crate::math::{trade_amounts_error, trade_value};
use crate::state::{Address, Company, Platform};
use vstd::prelude::*;

verus! {

/// The fee rate a new platform starts with, in basis points: one percent.
pub const DEFAULT_PLATFORM_FEE: u16 = 100;

/// The highest fee rate the authority may set, in basis points: ten percent.
pub const MAX_PLATFORM_FEE: u16 = 1000;

impl Platform {
    /// A new platform under `authority`: nothing counted, the default fee,
    /// running.
    pub open spec fn opened(authority: Address) -> Platform {
        Platform {
            authority,
            total_companies: 0,
            total_offerings: 0,
            total_trades: 0,
            total_orders: 0,
            total_escrows: 0,
            platform_fee: DEFAULT_PLATFORM_FEE,
            is_paused: false,
        }
    }

    /// The fee rate is within its cap.
    pub open spec fn well_formed(self) -> bool {
        self.platform_fee <= MAX_PLATFORM_FEE
    }

    /// Why an act reserved to the authority is refused to `caller`, if it is.
    pub open spec fn authority_error(self, caller: Address) -> Option<DefiTradingError> {
        if caller != self.authority {
            Some(DefiTradingError::Unauthorized)
        } else {
            None
        }
    }
}

/// Creates the platform record under `authority`.
pub fn initialize_platform(authority: Address) -> (platform: Platform)
    ensures
        platform == Platform::opened(authority),
        platform.well_formed(),
{
    Platform {
        authority,
        total_companies: 0,
        total_offerings: 0,
        total_trades: 0,
        total_orders: 0,
        total_escrows: 0,
        platform_fee: DEFAULT_PLATFORM_FEE,
        is_paused: false,
    }
}

/// Halts the platform on behalf of `authority`.
pub fn pause_platform(platform: &mut Platform, authority: Address) -> (res: Result<
    (),
    DefiTradingError,
>)
    ensures
        match old(platform).authority_error(authority) {
            Some(e) => {
                &&& res == Err::<(), DefiTradingError>(e)
                &&& *final(platform) == *old(platform)
            },
            None => {
                &&& res == Ok::<(), DefiTradingError>(())
                &&& *final(platform) == (Platform { is_paused: true, ..*old(platform) })
            },
        },
{
    if authority != platform.authority {
        return Err(DefiTradingError::Unauthorized);
    }
    platform.is_paused = true;
    Ok(())
}

/// Lets the platform run again on behalf of `authority`.
pub fn unpause_platform(platform: &mut Platform, authority: Address) -> (res: Result<
    (),
    DefiTradingError,
>)
    ensures
        match old(platform).authority_error(authority) {
            Some(e) => {
                &&& res == Err::<(), DefiTradingError>(e)
                &&& *final(platform) == *old(platform)
            },
            None => {
                &&& res == Ok::<(), DefiTradingError>(())
                &&& *final(platform) == (Platform { is_paused: false, ..*old(platform) })
            },
        },
{
    if authority != platform.authority {
        return Err(DefiTradingError::Unauthorized);
    }
    platform.is_paused = false;
    Ok(())
}

/// Why a new fee rate is refused, if it is: the caller is not the authority,
/// or the rate is above the cap.
pub open spec fn update_platform_fee_error(
    platform: Platform,
    authority: Address,
    new_fee: u16,
) -> Option<DefiTradingError> {
    if authority != platform.authority {
        Some(DefiTradingError::Unauthorized)
    } else if new_fee > MAX_PLATFORM_FEE {
        Some(DefiTradingError::PlatformFeeTooHigh)
    } else {
        None
    }
}

/// Sets the fee rate on behalf of `authority` and returns the rate it
/// replaces.
pub fn update_platform_fee(platform: &mut Platform, authority: Address, new_fee: u16) -> (res:
    Result<u16, DefiTradingError>)
    ensures
        match update_platform_fee_error(*old(platform), authority, new_fee) {
            Some(e) => {
                &&& res == Err::<u16, DefiTradingError>(e)
                &&& *final(platform) == *old(platform)
            },
            None => {
                &&& res == Ok::<u16, DefiTradingError>(old(platform).platform_fee)
                &&& *final(platform) == (Platform { platform_fee: new_fee, ..*old(platform) })
                &&& final(platform).well_formed()
            },
        },
{
    if authority != platform.authority {
        return Err(DefiTradingError::Unauthorized);
    }
    if new_fee > MAX_PLATFORM_FEE {
        return Err(DefiTradingError::PlatformFeeTooHigh);
    }
    let old_fee: u16 = platform.platform_fee;
    platform.platform_fee = new_fee;
    Ok(old_fee)
}

/// Why a verification is refused, if it is: the caller is not the authority,
/// or the company is not the one named.
pub open spec fn verify_company_error(
    platform: Platform,
    company: Company,
    authority: Address,
    company_id: u64,
) -> Option<DefiTradingError> {
    if authority != platform.authority {
        Some(DefiTradingError::Unauthorized)
    } else if company.id != company_id {
        Some(DefiTradingError::CompanyNotFound)
    } else {
        None
    }
}

/// Marks the company numbered `company_id` as verified on behalf of
/// `authority`.
pub fn verify_company(
    platform: &Platform,
    company: &mut Company,
    authority: Address,
    company_id: u64,
) -> (res: Result<(), DefiTradingError>)
    ensures
        match verify_company_error(*platform, *old(company), authority, company_id) {
            Some(e) => {
                &&& res == Err::<(), DefiTradingError>(e)
                &&& *final(company) == *old(company)
            },
            None => {
                &&& res == Ok::<(), DefiTradingError>(())
                &&& *final(company) == (Company { verified: true, ..*old(company) })
            },
        },
{
    if authority != platform.authority {
        return Err(DefiTradingError::Unauthorized);
    }
    if company.id != company_id {
        return Err(DefiTradingError::CompanyNotFound);
    }
    company.verified = true;
    Ok(())
}

/// While the fee rate is within its cap, the fee of a trade never exceeds
/// its value: a trade whose value and scaled value fit cannot fail.
pub proof fn lemma_capped_fee_never_underflows(platform: Platform, amount: u64, price: u64)
    requires
        platform.well_formed(),
    ensures
        trade_amounts_error(amount, price, platform.platform_fee) != Some(
            DefiTradingError::ArithmeticUnderflow,
        ),
        trade_value(amount, price) * 1000 <= u64::MAX ==> trade_amounts_error(
            amount,
            price,
            platform.platform_fee,
        ) is None,
{
    let total = trade_value(amount, price);
    let fee_bps = platform.platform_fee as int;
    assert(0 <= total) by (nonlinear_arith)
        requires
            total == amount as int * price as int,
            0 <= amount,
            0 <= price,
    ;
    assert(total * fee_bps <= total * 1000 && total * fee_bps <= total * 10000
        && total * 1000 >= total) by (nonlinear_arith)
        requires
            0 <= total,
            0 <= fee_bps <= 1000,
    ;
}

} // verus!

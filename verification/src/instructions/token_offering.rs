//! Primary issuance: an offering of new units at a fixed price over a time
//! window, and participation in it.

use crate::errors::DefiTradingError;
use crate::state::{
    Address, Company, OfferingParticipation, OfferingStatus, Platform, TokenOffering,
};
use vstd::prelude::*;

verus! {

/// Why an offering cannot be created, if it cannot. The checks come in this
/// order: the platform is halted; supply or price is zero; the window does
/// not start in the future; it does not end after it starts; the caller is
/// not the company's authority; the platform has no offering id left; the
/// company's total supply does not fit in 64 bits.
pub open spec fn create_token_offering_error(
    platform: Platform,
    company: Company,
    authority: Address,
    total_supply: u64,
    price_per_token: u64,
    offering_start: i64,
    offering_end: i64,
    now: i64,
) -> Option<DefiTradingError> {
    if platform.is_paused {
        Some(DefiTradingError::PlatformPaused)
    } else if total_supply == 0 || price_per_token == 0 {
        Some(DefiTradingError::InvalidOfferingParams)
    } else if offering_start <= now || offering_end <= offering_start {
        Some(DefiTradingError::InvalidTimestamp)
    } else if authority != company.authority {
        Some(DefiTradingError::Unauthorized)
    } else if platform.total_offerings + 1 > u64::MAX || company.total_supply + total_supply
        > u64::MAX {
        Some(DefiTradingError::ArithmeticOverflow)
    } else {
        None
    }
}

/// Creates an offering of `total_supply` new units of the company's
/// instrument at `price_per_token`, open from `offering_start` to
/// `offering_end`.
///
/// On success the offering is pending, numbered one past the platform's
/// offering count, the company's total supply has grown by the offered
/// units, and those units have to be minted into the offering's custody. On
/// failure nothing has changed.
pub fn create_token_offering(
    platform: &mut Platform,
    company: &mut Company,
    authority: Address,
    total_supply: u64,
    price_per_token: u64,
    offering_start: i64,
    offering_end: i64,
    now: i64,
) -> (res: Result<TokenOffering, DefiTradingError>)
    ensures
        match create_token_offering_error(
            *old(platform),
            *old(company),
            authority,
            total_supply,
            price_per_token,
            offering_start,
            offering_end,
            now,
        ) {
            Some(e) => {
                &&& res == Err::<TokenOffering, DefiTradingError>(e)
                &&& *final(platform) == *old(platform)
                &&& *final(company) == *old(company)
            },
            None => {
                &&& res == Ok::<TokenOffering, DefiTradingError>(
                    TokenOffering {
                        id: (old(platform).total_offerings + 1) as u64,
                        company_id: old(company).id,
                        company_authority: old(company).authority,
                        token_mint: old(company).token_mint,
                        total_supply,
                        remaining_supply: total_supply,
                        price_per_token,
                        offering_start,
                        offering_end,
                        total_raised: 0,
                        participants_count: 0,
                        status: OfferingStatus::Pending,
                        created_at: now,
                    },
                )
                &&& *final(platform) == (Platform {
                    total_offerings: (old(platform).total_offerings + 1) as u64,
                    ..*old(platform)
                })
                &&& *final(company) == (Company {
                    total_supply: (old(company).total_supply + total_supply) as u64,
                    ..*old(company)
                })
            },
        },
{
    if platform.is_paused {
        return Err(DefiTradingError::PlatformPaused);
    }
    if total_supply == 0 || price_per_token == 0 {
        return Err(DefiTradingError::InvalidOfferingParams);
    }
    if offering_start <= now || offering_end <= offering_start {
        return Err(DefiTradingError::InvalidTimestamp);
    }
    if authority != company.authority {
        return Err(DefiTradingError::Unauthorized);
    }
    let offering_id: u64 = match platform.total_offerings.checked_add(1) {
        Some(id) => id,
        None => {
            return Err(DefiTradingError::ArithmeticOverflow);
        },
    };
    let company_supply: u64 = match company.total_supply.checked_add(total_supply) {
        Some(v) => v,
        None => {
            return Err(DefiTradingError::ArithmeticOverflow);
        },
    };
    let offering = TokenOffering {
        id: offering_id,
        company_id: company.id,
        company_authority: company.authority,
        token_mint: company.token_mint,
        total_supply,
        remaining_supply: total_supply,
        price_per_token,
        offering_start,
        offering_end,
        total_raised: 0,
        participants_count: 0,
        status: OfferingStatus::Pending,
        created_at: now,
    };
    company.total_supply = company_supply;
    platform.total_offerings = offering_id;
    Ok(offering)
}

impl TokenOffering {
    /// The units `amount` of the settlement asset buys at the offering's
    /// price, rounded down.
    pub open spec fn tokens_for(self, amount: u64) -> int {
        amount as int / self.price_per_token as int
    }

    /// The offering after a participation of `amount` that bought `tokens`
    /// units: a pending offering has become active, and an offering with
    /// nothing left is completed.
    pub open spec fn after_participation(self, amount: u64) -> TokenOffering {
        let tokens = self.tokens_for(amount);
        let remaining = self.remaining_supply - tokens;
        TokenOffering {
            remaining_supply: remaining as u64,
            total_raised: (self.total_raised + amount) as u64,
            participants_count: (self.participants_count + 1) as u64,
            status: if remaining == 0 {
                OfferingStatus::Completed
            } else if self.status is Pending {
                OfferingStatus::Active
            } else {
                self.status
            },
            ..self
        }
    }
}

/// Why a participation is refused, if it is. The checks come in this order:
/// the window has not opened; it has closed; the amount is zero; the
/// offering has no price; the amount buys more units than are left; the
/// amount raised or the count of participants does not fit in 64 bits.
pub open spec fn participate_in_offering_error(
    offering: TokenOffering,
    amount: u64,
    now: i64,
) -> Option<DefiTradingError> {
    if now < offering.offering_start {
        Some(DefiTradingError::OfferingNotStarted)
    } else if now > offering.offering_end {
        Some(DefiTradingError::OfferingEnded)
    } else if amount == 0 {
        Some(DefiTradingError::InvalidOfferingParams)
    } else if offering.price_per_token == 0 {
        Some(DefiTradingError::DivisionByZero)
    } else if offering.tokens_for(amount) > offering.remaining_supply {
        Some(DefiTradingError::InsufficientTokens)
    } else if offering.total_raised + amount > u64::MAX || offering.participants_count + 1
        > u64::MAX {
        Some(DefiTradingError::ArithmeticOverflow)
    } else {
        None
    }
}

/// Books the participation of `user` in an offering with `amount` of the
/// settlement asset.
///
/// On success the record says what the user pays and how many units they
/// receive out of the offering's custody, and the offering is updated. On
/// failure the offering is unchanged.
pub fn participate_in_offering(
    offering: &mut TokenOffering,
    user: Address,
    amount: u64,
    now: i64,
) -> (res: Result<OfferingParticipation, DefiTradingError>)
    ensures
        match participate_in_offering_error(*old(offering), amount, now) {
            Some(e) => {
                &&& res == Err::<OfferingParticipation, DefiTradingError>(e)
                &&& *final(offering) == *old(offering)
            },
            None => {
                &&& res == Ok::<OfferingParticipation, DefiTradingError>(
                    OfferingParticipation {
                        user,
                        offering_id: old(offering).id,
                        company_id: old(offering).company_id,
                        amount_invested: amount,
                        tokens_received: old(offering).tokens_for(amount) as u64,
                        participated_at: now,
                    },
                )
                &&& *final(offering) == old(offering).after_participation(amount)
            },
        },
{
    if now < offering.offering_start {
        return Err(DefiTradingError::OfferingNotStarted);
    }
    if now > offering.offering_end {
        return Err(DefiTradingError::OfferingEnded);
    }
    if amount == 0 {
        return Err(DefiTradingError::InvalidOfferingParams);
    }
    let tokens_to_receive: u64 = match amount.checked_div(offering.price_per_token) {
        Some(v) => v,
        None => {
            return Err(DefiTradingError::DivisionByZero);
        },
    };
    if tokens_to_receive > offering.remaining_supply {
        return Err(DefiTradingError::InsufficientTokens);
    }
    let total_raised: u64 = match offering.total_raised.checked_add(amount) {
        Some(v) => v,
        None => {
            return Err(DefiTradingError::ArithmeticOverflow);
        },
    };
    let participants_count: u64 = match offering.participants_count.checked_add(1) {
        Some(v) => v,
        None => {
            return Err(DefiTradingError::ArithmeticOverflow);
        },
    };
    if offering.status == OfferingStatus::Pending {
        offering.status = OfferingStatus::Active;
    }
    offering.remaining_supply = offering.remaining_supply - tokens_to_receive;
    offering.total_raised = total_raised;
    offering.participants_count = participants_count;
    if offering.remaining_supply == 0 {
        offering.status = OfferingStatus::Completed;
    }
    Ok(
        OfferingParticipation {
            user,
            offering_id: offering.id,
            company_id: offering.company_id,
            amount_invested: amount,
            tokens_received: tokens_to_receive,
            participated_at: now,
        },
    )
}

/// A participation never hands out more units than the offering has left,
/// and never more than the amount paid buys at the offering's price.
pub proof fn lemma_participation_within_supply(offering: TokenOffering, amount: u64, now: i64)
    requires
        participate_in_offering_error(offering, amount, now) is None,
    ensures
        offering.after_participation(amount).remaining_supply + offering.tokens_for(amount)
            == offering.remaining_supply,
        offering.tokens_for(amount) * offering.price_per_token <= amount,
        offering.after_participation(amount).total_raised == offering.total_raised + amount,
{
    let price = offering.price_per_token as int;
    let paid = amount as int;
    assert((paid / price) * price <= paid) by (nonlinear_arith)
        requires
            price > 0,
            paid >= 0,
    ;
}

} // verus!

//! Standalone custody holds between a payer and a recipient.
//!
//! A hold is created active and ends exactly once: released to the recipient
//! or cancelled back to the payer. Both endings are terminal; a second
//! attempt of either is refused, so the held amount can never be paid twice.

use crate::errors::DefiTradingError;
use crate::state::{Address, Escrow, EscrowStatus, Platform};
use vstd::prelude::*;

verus! {

/// Why a hold cannot be created, if it cannot. The checks come in this order:
/// the platform is halted; the amount is zero; the platform has no hold id
/// left.
pub open spec fn create_escrow_error(platform: Platform, amount: u64) -> Option<DefiTradingError> {
    if platform.is_paused {
        Some(DefiTradingError::PlatformPaused)
    } else if amount == 0 {
        Some(DefiTradingError::InvalidTradeAmount)
    } else if platform.total_escrows + 1 > u64::MAX {
        Some(DefiTradingError::ArithmeticOverflow)
    } else {
        None
    }
}

impl Escrow {
    /// A fresh, active hold.
    pub open spec fn opened(
        id: u64,
        trade_id: Option<u64>,
        payer: Address,
        recipient: Address,
        token_mint: Address,
        amount: u64,
        now: i64,
    ) -> Escrow {
        Escrow {
            id,
            trade_id,
            payer,
            recipient,
            token_mint,
            amount,
            status: EscrowStatus::Active,
            created_at: now,
            released_at: None,
        }
    }

    /// The hold closed with the given status at time `now`.
    pub open spec fn closed(self, status: EscrowStatus, now: i64) -> Escrow {
        Escrow { status, released_at: Some(now), ..self }
    }

    /// The lifecycle invariant of a hold: the closing time is stamped exactly
    /// on holds that are no longer active, and a hold is never empty.
    pub open spec fn well_formed(self) -> bool {
        &&& self.amount > 0
        &&& (self.released_at is Some <==> !(self.status is Active))
    }
}

/// Creates a hold of `amount` units of `token_mint` from `payer` for
/// `recipient`, numbered one past the platform's count of holds.
///
/// On success the platform counts the hold and the whole amount has to move
/// from the payer into the hold's custody. On failure the platform is
/// unchanged.
pub fn create_escrow(
    platform: &mut Platform,
    payer: Address,
    recipient: Address,
    token_mint: Address,
    amount: u64,
    trade_id: Option<u64>,
    now: i64,
) -> (res: Result<Escrow, DefiTradingError>)
    ensures
        match create_escrow_error(*old(platform), amount) {
            Some(e) => {
                &&& res == Err::<Escrow, DefiTradingError>(e)
                &&& *final(platform) == *old(platform)
            },
            None => {
                &&& res == Ok::<Escrow, DefiTradingError>(
                    Escrow::opened(
                        (old(platform).total_escrows + 1) as u64,
                        trade_id,
                        payer,
                        recipient,
                        token_mint,
                        amount,
                        now,
                    ),
                )
                &&& *final(platform) == (Platform {
                    total_escrows: (old(platform).total_escrows + 1) as u64,
                    ..*old(platform)
                })
            },
        },
        res matches Ok(escrow) ==> escrow.well_formed(),
{
    if platform.is_paused {
        return Err(DefiTradingError::PlatformPaused);
    }
    if amount == 0 {
        return Err(DefiTradingError::InvalidTradeAmount);
    }
    let escrow_id: u64 = match platform.total_escrows.checked_add(1) {
        Some(id) => id,
        None => {
            return Err(DefiTradingError::ArithmeticOverflow);
        },
    };
    platform.total_escrows = escrow_id;
    Ok(
        Escrow {
            id: escrow_id,
            trade_id,
            payer,
            recipient,
            token_mint,
            amount,
            status: EscrowStatus::Active,
            created_at: now,
            released_at: None,
        },
    )
}

/// The trade a stored number refers to. Trades are numbered from one, so a
/// stored zero stands for no trade.
pub open spec fn trade_reference_of(stored: u64) -> Option<u64> {
    if stored == 0 {
        None
    } else {
        Some(stored)
    }
}

/// The number a trade reference is stored as: the trade's number, or zero
/// for none.
pub open spec fn stored_trade_id_of(reference: Option<u64>) -> u64 {
    match reference {
        Some(trade_id) => trade_id,
        None => 0,
    }
}

/// Reads a stored trade number as a reference.
pub fn trade_reference(stored: u64) -> (reference: Option<u64>)
    ensures
        reference == trade_reference_of(stored),
{
    if stored == 0 {
        None
    } else {
        Some(stored)
    }
}

/// Gives the number a trade reference is stored as.
pub fn stored_trade_id(reference: Option<u64>) -> (stored: u64)
    ensures
        stored == stored_trade_id_of(reference),
{
    match reference {
        Some(trade_id) => trade_id,
        None => 0,
    }
}

/// Storing and reading back loses nothing: every stored number comes back as
/// itself, and every reference but one to a trade numbered zero, which no
/// trade is, comes back as itself.
pub proof fn lemma_trade_reference_round_trip(stored: u64, reference: Option<u64>)
    ensures
        stored_trade_id_of(trade_reference_of(stored)) == stored,
        reference != Some(0u64) ==> trade_reference_of(stored_trade_id_of(reference))
            == reference,
{
}

/// Why a release is refused, if it is: the hold is no longer active, or the
/// caller is neither its payer nor its recipient.
pub open spec fn release_escrow_error(escrow: Escrow, authority: Address) -> Option<
    DefiTradingError,
> {
    if !(escrow.status is Active) {
        Some(DefiTradingError::InvalidEscrowStatus)
    } else if authority != escrow.payer && authority != escrow.recipient {
        Some(DefiTradingError::Unauthorized)
    } else {
        None
    }
}

/// Releases an active hold on behalf of `authority` and returns what is paid
/// to the recipient: the full amount.
///
/// On failure the hold is unchanged and nothing is paid.
pub fn release_escrow(escrow: &mut Escrow, authority: Address, now: i64) -> (res: Result<
    u64,
    DefiTradingError,
>)
    ensures
        match release_escrow_error(*old(escrow), authority) {
            Some(e) => {
                &&& res == Err::<u64, DefiTradingError>(e)
                &&& *final(escrow) == *old(escrow)
            },
            None => {
                &&& res == Ok::<u64, DefiTradingError>(old(escrow).amount)
                &&& *final(escrow) == old(escrow).closed(EscrowStatus::Released, now)
            },
        },
        old(escrow).well_formed() ==> final(escrow).well_formed(),
{
    if escrow.status != EscrowStatus::Active {
        return Err(DefiTradingError::InvalidEscrowStatus);
    }
    if authority != escrow.payer && authority != escrow.recipient {
        return Err(DefiTradingError::Unauthorized);
    }
    escrow.status = EscrowStatus::Released;
    escrow.released_at = Some(now);
    Ok(escrow.amount)
}

/// Why a cancellation is refused, if it is: the hold is no longer active, or
/// the caller is not its payer.
pub open spec fn cancel_escrow_error(escrow: Escrow, authority: Address) -> Option<
    DefiTradingError,
> {
    if !(escrow.status is Active) {
        Some(DefiTradingError::InvalidEscrowStatus)
    } else if authority != escrow.payer {
        Some(DefiTradingError::Unauthorized)
    } else {
        None
    }
}

/// Cancels an active hold on behalf of `authority` and returns what is
/// refunded to the payer: the full amount.
///
/// On failure the hold is unchanged and nothing is refunded.
pub fn cancel_escrow(escrow: &mut Escrow, authority: Address, now: i64) -> (res: Result<
    u64,
    DefiTradingError,
>)
    ensures
        match cancel_escrow_error(*old(escrow), authority) {
            Some(e) => {
                &&& res == Err::<u64, DefiTradingError>(e)
                &&& *final(escrow) == *old(escrow)
            },
            None => {
                &&& res == Ok::<u64, DefiTradingError>(old(escrow).amount)
                &&& *final(escrow) == old(escrow).closed(EscrowStatus::Cancelled, now)
            },
        },
        old(escrow).well_formed() ==> final(escrow).well_formed(),
{
    if escrow.status != EscrowStatus::Active {
        return Err(DefiTradingError::InvalidEscrowStatus);
    }
    if authority != escrow.payer {
        return Err(DefiTradingError::Unauthorized);
    }
    escrow.status = EscrowStatus::Cancelled;
    escrow.released_at = Some(now);
    Ok(escrow.amount)
}

/// Once a hold has been cancelled, releasing it fails with an invalid-status
/// error, whoever asks; so does cancelling it again.
pub proof fn lemma_no_release_after_cancel(
    escrow: Escrow,
    payer: Address,
    cancelled_at: i64,
    authority: Address,
)
    requires
        cancel_escrow_error(escrow, payer) is None,
    ensures
        release_escrow_error(escrow.closed(EscrowStatus::Cancelled, cancelled_at), authority)
            == Some(DefiTradingError::InvalidEscrowStatus),
        cancel_escrow_error(escrow.closed(EscrowStatus::Cancelled, cancelled_at), authority)
            == Some(DefiTradingError::InvalidEscrowStatus),
{
}

/// Once a hold has been released, releasing it again or cancelling it fails
/// with an invalid-status error, whoever asks: the amount is paid once.
pub proof fn lemma_no_second_release(
    escrow: Escrow,
    first: Address,
    released_at: i64,
    authority: Address,
)
    requires
        release_escrow_error(escrow, first) is None,
    ensures
        release_escrow_error(escrow.closed(EscrowStatus::Released, released_at), authority)
            == Some(DefiTradingError::InvalidEscrowStatus),
        cancel_escrow_error(escrow.closed(EscrowStatus::Released, released_at), authority)
            == Some(DefiTradingError::InvalidEscrowStatus),
{
}

/// Releasing an active hold is open to its payer and its recipient and to
/// nobody else; cancelling it is open to its payer alone.
pub proof fn lemma_escrow_authority(escrow: Escrow, authority: Address)
    requires
        escrow.status is Active,
    ensures
        release_escrow_error(escrow, authority) is None <==> (authority == escrow.payer
            || authority == escrow.recipient),
        release_escrow_error(escrow, authority) is Some ==> release_escrow_error(escrow, authority)
            == Some(DefiTradingError::Unauthorized),
        cancel_escrow_error(escrow, authority) is None <==> authority == escrow.payer,
        cancel_escrow_error(escrow, authority) is Some ==> cancel_escrow_error(escrow, authority)
            == Some(DefiTradingError::Unauthorized),
{
}

/// Closing a well-formed active hold leaves it well formed, with its amount,
/// parties and instrument as they were.
pub proof fn lemma_escrow_lifecycle(escrow: Escrow, status: EscrowStatus, now: i64)
    requires
        escrow.well_formed(),
        escrow.status is Active,
        !(status is Active),
    ensures
        escrow.closed(status, now).well_formed(),
        escrow.closed(status, now).amount == escrow.amount,
        escrow.closed(status, now).payer == escrow.payer,
        escrow.closed(status, now).recipient == escrow.recipient,
        escrow.closed(status, now).token_mint == escrow.token_mint,
{
}

} // verus!

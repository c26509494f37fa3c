//! The records of the exchange and what it means for each to be well formed.

use vstd::prelude::*;

verus! {

/// The identity of a user, an instrument or any other addressable record:
/// thirty-two bytes, compared bytewise.
#[derive(Clone, Copy, Debug, Hash)]
pub struct Address {
    pub bytes: [u8; 32],
}

impl View for Address {
    type V = Seq<u8>;

    open spec fn view(&self) -> Seq<u8> {
        self.bytes@
    }
}

impl PartialEq for Address {
    fn eq(&self, other: &Address) -> (res: bool) {
        let mut i: usize = 0;
        while i < 32
            invariant
                i <= 32,
                forall|j: int| 0 <= j < i ==> self.bytes[j] == other.bytes[j],
            decreases 32 - i,
        {
            if self.bytes[i] != other.bytes[i] {
                return false;
            }
            i = i + 1;
        }
        assert(self.bytes =~= other.bytes);
        true
    }
}

impl vstd::std_specs::cmp::PartialEqSpecImpl for Address {
    open spec fn obeys_eq_spec() -> bool {
        true
    }

    open spec fn eq_spec(&self, other: &Address) -> bool {
        *self == *other
    }
}

impl Eq for Address {

}

impl Address {
    /// Builds an address from its thirty-two bytes.
    pub fn new(bytes: [u8; 32]) -> (address: Address)
        ensures
            address.bytes == bytes,
            address@ == bytes@,
    {
        Address { bytes }
    }

    /// Two addresses are the same exactly when they hold the same bytes.
    pub proof fn lemma_equal_iff_same_bytes(a: Address, b: Address)
        ensures
            (a == b) <==> (a@ == b@),
    {
        if a@ == b@ {
            assert(a.bytes =~= b.bytes);
        }
    }
}

/// The platform-wide record: one counter for each kind of record the platform
/// numbers, the fee rate and the halt switch.
#[derive(Clone, Copy, Debug, PartialEq, Eq)]
pub struct Platform {
    pub authority: Address,
    pub total_companies: u64,
    pub total_offerings: u64,
    pub total_trades: u64,
    /// Orders placed off any book so far; the next one gets this plus one.
    pub total_orders: u64,
    /// Custody holds created so far; the next one gets this plus one.
    pub total_escrows: u64,
    /// Fee rate in basis points (100 = 1%).
    pub platform_fee: u16,
    pub is_paused: bool,
}

/// An entity that has issued a tradable instrument.
#[derive(Clone, Debug, PartialEq, Eq)]
pub struct Company {
    pub id: u64,
    pub authority: Address,
    pub name: String,
    pub symbol: String,
    pub description: String,
    pub verified: bool,
    pub token_mint: Address,
    pub total_supply: u64,
    pub circulating_supply: u64,
    pub market_cap: u64,
    pub created_at: i64,
}

#[derive(Clone, Copy, Debug, PartialEq, Eq, Hash, Structural)]
pub enum OfferingStatus {
    Pending,
    Active,
    Completed,
    Cancelled,
}

/// A primary issuance of an instrument at a fixed price.
#[derive(Clone, Copy, Debug, PartialEq, Eq)]
pub struct TokenOffering {
    pub id: u64,
    pub company_id: u64,
    pub company_authority: Address,
    pub token_mint: Address,
    pub total_supply: u64,
    pub remaining_supply: u64,
    pub price_per_token: u64,
    pub offering_start: i64,
    pub offering_end: i64,
    pub total_raised: u64,
    pub participants_count: u64,
    pub status: OfferingStatus,
    pub created_at: i64,
}

/// One user's take in one offering.
#[derive(Clone, Copy, Debug, PartialEq, Eq)]
pub struct OfferingParticipation {
    pub user: Address,
    pub offering_id: u64,
    pub company_id: u64,
    pub amount_invested: u64,
    pub tokens_received: u64,
    pub participated_at: i64,
}

/// The side of an order.
#[derive(Clone, Copy, Debug, PartialEq, Eq, Hash, Structural)]
pub enum OrderType {
    Buy,
    Sell,
}

/// The kind of an order: resting at a price of its own, or taking the best
/// opposing price.
#[derive(Clone, Copy, Debug, PartialEq, Eq, Hash, Structural)]
pub enum MarketOrderType {
    Limit,
    Market,
}

#[derive(Clone, Copy, Debug, PartialEq, Eq, Hash, Structural)]
pub enum OrderStatus {
    Active,
    PartiallyFilled,
    Filled,
    Cancelled,
}

/// An order to buy or sell a quantity of one instrument.
#[derive(Clone, Copy, Debug, PartialEq, Eq)]
pub struct Order {
    pub id: u64,
    pub user: Address,
    pub company_id: u64,
    pub token_mint: Address,
    pub order_type: OrderType,
    pub market_order_type: MarketOrderType,
    /// The quantity the order was placed for.
    pub amount: u64,
    /// The quantity not yet filled.
    pub remaining_amount: u64,
    /// The limit price, or for a market order the best opposing price at the
    /// moment it was placed.
    pub price: u64,
    pub status: OrderStatus,
    pub created_at: i64,
    pub filled_at: Option<i64>,
}

/// The per-instrument aggregate of order flow.
#[derive(Clone, Copy, Debug, PartialEq, Eq)]
pub struct Orderbook {
    pub company_id: u64,
    pub token_mint: Address,
    pub total_buy_orders: u64,
    pub total_sell_orders: u64,
    /// Highest resting buy price seen, 0 while unset.
    pub best_bid: u64,
    /// Lowest resting sell price seen, 0 while unset.
    pub best_ask: u64,
    pub last_trade_price: u64,
    /// Cumulative filled quantity.
    pub total_volume: u64,
    pub created_at: i64,
    pub last_updated: i64,
}

/// One price level of a depth snapshot.
#[derive(Clone, Copy, Debug, PartialEq, Eq)]
pub struct PriceLevel {
    pub price: u64,
    pub buy_volume: u64,
    pub sell_volume: u64,
}

/// A depth snapshot of one order book.
#[derive(Clone, Debug, PartialEq, Eq)]
pub struct MarketDepth {
    pub orderbook: Address,
    pub price_levels: Vec<PriceLevel>,
    pub total_buy_volume: u64,
    pub total_sell_volume: u64,
    pub last_updated: i64,
}

/// The write-once record of one match.
#[derive(Clone, Copy, Debug, PartialEq, Eq)]
pub struct Trade {
    pub id: u64,
    pub buyer: Address,
    pub seller: Address,
    pub company_id: u64,
    pub token_mint: Address,
    pub amount: u64,
    pub price: u64,
    pub total_value: u64,
    pub platform_fee: u64,
    pub buy_order_id: u64,
    pub sell_order_id: u64,
    pub executed_at: i64,
}

/// A user's roll-up over holdings.
#[derive(Clone, Copy, Debug, PartialEq, Eq)]
pub struct Portfolio {
    pub user: Address,
    pub total_holdings: u64,
    pub total_value: u64,
    pub total_invested: u64,
    pub total_profit_loss: i64,
    pub holdings_count: u64,
    pub last_updated: i64,
}

/// A user's position in one instrument.
#[derive(Clone, Copy, Debug, PartialEq, Eq)]
pub struct Holding {
    pub user: Address,
    pub company_id: u64,
    pub token_mint: Address,
    pub amount: u64,
    /// Cost basis per unit.
    pub average_price: u64,
    pub total_invested: u64,
    pub current_value: u64,
    pub profit_loss: i64,
    pub last_updated: i64,
}

#[derive(Clone, Copy, Debug, PartialEq, Eq, Hash, Structural)]
pub enum EscrowStatus {
    Active,
    Released,
    Cancelled,
}

/// A custody hold of a quantity of one instrument between a payer and a
/// recipient.
#[derive(Clone, Copy, Debug, PartialEq, Eq)]
pub struct Escrow {
    pub id: u64,
    /// The trade this hold backs, if any.
    pub trade_id: Option<u64>,
    pub payer: Address,
    pub recipient: Address,
    pub token_mint: Address,
    pub amount: u64,
    pub status: EscrowStatus,
    pub created_at: i64,
    pub released_at: Option<i64>,
}

/// The record of one equal distribution of an instrument to several users.
#[derive(Clone, Copy, Debug, PartialEq, Eq)]
pub struct TokenDistribution {
    pub company_id: u64,
    pub admin: Address,
    pub token_mint: Address,
    pub total_distributed: u64,
    pub recipients_count: u64,
    pub amount_per_recipient: u64,
    pub distributed_at: i64,
}

impl OrderType {
    /// The name of the side as it appears in notifications.
    pub open spec fn label_text(self) -> Seq<char> {
        match self {
            OrderType::Buy => "Buy"@,
            OrderType::Sell => "Sell"@,
        }
    }

    /// Returns the name of the side as it appears in notifications.
    pub fn label(&self) -> (text: &'static str)
        ensures
            text@ == self.label_text(),
    {
        match self {
            OrderType::Buy => "Buy",
            OrderType::Sell => "Sell",
        }
    }
}

impl OrderStatus {
    /// An order can be filled or cancelled only while it is active or
    /// partially filled.
    pub open spec fn is_open(self) -> bool {
        self is Active || self is PartiallyFilled
    }

    /// A filled or cancelled order never changes again.
    pub open spec fn is_terminal(self) -> bool {
        self is Filled || self is Cancelled
    }

    /// The statuses that may follow `self`: an order moves from active to
    /// partially filled to filled, or from either open status to cancelled,
    /// and never back.
    pub open spec fn may_become(self, after: OrderStatus) -> bool {
        match self {
            OrderStatus::Active => true,
            OrderStatus::PartiallyFilled => !(after is Active),
            OrderStatus::Filled => after is Filled,
            OrderStatus::Cancelled => after is Cancelled,
        }
    }
}

impl Order {
    /// The lifecycle invariant of an order: what remains never exceeds the
    /// quantity the order was placed for; all of it remains while the order
    /// is active, some but not all while it is partially filled, none once
    /// it is filled, and some on a cancelled order; and the fill time is
    /// stamped exactly on filled orders.
    pub open spec fn well_formed(self) -> bool {
        &&& self.amount > 0
        &&& self.remaining_amount <= self.amount
        &&& match self.status {
            OrderStatus::Active => self.remaining_amount == self.amount,
            OrderStatus::PartiallyFilled => 0 < self.remaining_amount < self.amount,
            OrderStatus::Filled => self.remaining_amount == 0,
            OrderStatus::Cancelled => 0 < self.remaining_amount,
        }
        &&& (self.filled_at is Some <==> self.status is Filled)
    }

    /// What may become of an order over time: the fields that identify it
    /// stay, the remaining quantity does not grow, the status does not go
    /// back, and a filled or cancelled order does not change at all.
    pub open spec fn may_become(self, after: Order) -> bool {
        &&& after.id == self.id
        &&& after.user == self.user
        &&& after.company_id == self.company_id
        &&& after.token_mint == self.token_mint
        &&& after.order_type == self.order_type
        &&& after.market_order_type == self.market_order_type
        &&& after.amount == self.amount
        &&& after.price == self.price
        &&& after.created_at == self.created_at
        &&& after.remaining_amount <= self.remaining_amount
        &&& self.status.may_become(after.status)
        &&& (self.status.is_terminal() ==> after == self)
    }

    /// Whether the order can still be filled or cancelled.
    pub fn is_open(&self) -> (open: bool)
        ensures
            open == self.status.is_open(),
    {
        self.status == OrderStatus::Active || self.status == OrderStatus::PartiallyFilled
    }

    /// Evolution of an order composes: what holds from one state to the next
    /// holds over any sequence of operations.
    pub proof fn lemma_may_become_transitive(a: Order, b: Order, c: Order)
        requires
            a.may_become(b),
            b.may_become(c),
        ensures
            a.may_become(c),
    {
    }

    /// Every order may stay as it is.
    pub proof fn lemma_may_become_reflexive(a: Order)
        ensures
            a.may_become(a),
    {
    }
}

} // verus!

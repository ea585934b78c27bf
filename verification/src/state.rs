use vstd::prelude::*;

verus! {

/// Identity of an account, authority or mint: records and custody balances
/// are keyed by plain identifiers, derived off-line by the platform.
pub type AccountId = u64;

/// One full allocation in basis points: 10000 = 100%.
pub const TOTAL_BPS: u64 = 10000;

/// Persisted bytes of a sale record besides its schedule lines.
pub const SALE_BASE_SPACE: usize = 170;

/// Persisted bytes of one release schedule line.
pub const RELEASE_LINE_SPACE: usize = 16;

/// Persisted bytes of a vesting record besides its schedule lines.
pub const VESTING_BASE_SPACE: usize = 117;

/// Persisted bytes of one vesting schedule line.
pub const VESTING_LINE_SPACE: usize = 16;

/// One line of a sale's release schedule: at `release_time`, a slice of
/// `fraction` basis points of each purchase becomes claimable.
#[derive(Clone, Copy, Debug, PartialEq, Eq, Structural)]
pub struct ReleaseSchedule {
    /// Time at which this line matures.
    pub release_time: u64,
    /// Share of each purchase vested on this line, in basis points.
    pub fraction: u16,
}

/// One line of a buyer's vesting position: `amount` tokens claimable once
/// `release_time` has passed.
#[derive(Clone, Copy, Debug, PartialEq, Eq, Structural)]
pub struct VestingSchedule {
    /// Time at which this line matures.
    pub release_time: u64,
    /// Tokens still held on this line.
    pub amount: u64,
}

/// Sum of the fractions of a release schedule, in basis points.
pub open spec fn sum_fractions(s: Seq<ReleaseSchedule>) -> int
    decreases s.len(),
{
    if s.len() == 0 {
        0
    } else {
        sum_fractions(s.drop_last()) + s.last().fraction
    }
}

/// Sum of the amounts still held on a vesting schedule.
pub open spec fn sum_amounts(s: Seq<VestingSchedule>) -> int
    decreases s.len(),
{
    if s.len() == 0 {
        0
    } else {
        sum_amounts(s.drop_last()) + s.last().amount
    }
}

/// A configured sale: pricing, schedule and custody identities. Pricing and
/// the schedule are immutable after creation; only `authority` and
/// `is_active` change over the record's life.
#[derive(Clone, Debug, PartialEq, Eq)]
pub struct Sale {
    /// Identity permitted to mutate the record and withdraw escrow.
    pub authority: AccountId,
    /// Gate on purchases.
    pub is_active: bool,
    /// Price numerator: tokens granted = floor(payment * numerator / denominator).
    pub price_numerator: u64,
    /// Price denominator; never zero.
    pub price_denominator: u64,
    /// Smallest accepted payment.
    pub payment_min_amount: u64,
    /// Share of each purchase released immediately, in basis points.
    pub advance_fraction: u16,
    /// Ordered tranches; fractions plus `advance_fraction` sum to 10000.
    pub release_schedule: Vec<ReleaseSchedule>,
    /// Mint of the token being sold.
    pub sale_mint: AccountId,
    /// Escrow custody sub-account holding the sellable tokens.
    pub sale_token: AccountId,
    /// Destination of payment proceeds.
    pub payment: AccountId,
    /// Program-owned identity controlling `sale_token`.
    pub derived_authority: AccountId,
    /// When set, purchases skip payment entirely and the payment amount is
    /// vested directly: a deliberate "vesting only" mode, kept orthogonal to
    /// the zero-price validation at creation.
    pub no_sale_just_vesting: bool,
}

impl Sale {
    /// A sale as creation leaves it: a usable price and a fully allocated
    /// schedule. Every operation on a sale assumes this.
    pub open spec fn wf(self) -> bool {
        &&& self.price_numerator > 0
        &&& self.price_denominator > 0
        &&& sum_fractions(self.release_schedule@) + self.advance_fraction == TOTAL_BPS
    }

    /// Persisted size of a sale record with the given schedule: the fixed
    /// header plus one line per tranche.
    pub fn space(release_schedule: &Vec<ReleaseSchedule>) -> (r: usize)
        requires
            SALE_BASE_SPACE + release_schedule@.len() * RELEASE_LINE_SPACE <= usize::MAX,
        ensures
            r == SALE_BASE_SPACE + release_schedule@.len() * RELEASE_LINE_SPACE,
    {
        SALE_BASE_SPACE + release_schedule.len() * RELEASE_LINE_SPACE
    }
}

/// A buyer's running vesting position for one token mint, topped up by every
/// purchase whose sale has a matching release schedule.
#[derive(Clone, Debug, PartialEq, Eq)]
pub struct Vesting {
    /// The buyer.
    pub user: AccountId,
    /// Mint of the vested token.
    pub sale_mint: AccountId,
    /// The sale that first created this position.
    pub first_sale: AccountId,
    /// Lifetime vested total: raised by every purchase, never lowered by
    /// claims.
    pub total_amount: u64,
    /// Ordered tranches, positionally aligned with the originating sale's
    /// release schedule.
    pub schedule: Vec<VestingSchedule>,
    /// Custody sub-account holding the unclaimed vested tokens.
    pub vesting_token: AccountId,
    /// Program-owned identity controlling `vesting_token`.
    pub derived_authority: AccountId,
}

impl Vesting {
    /// The unclaimed amounts never exceed the lifetime total, so any sum over
    /// schedule lines fits in a balance. Creation establishes this with
    /// equality; claims only lower the left-hand side.
    pub open spec fn wf(self) -> bool {
        sum_amounts(self.schedule@) <= self.total_amount
    }

    /// A purchase may merge into this position only when it is the same
    /// buyer and mint and the sale's schedule has the same length and the
    /// same release time at every position. Fraction values are free to
    /// differ between sales.
    pub open spec fn compatible_with(self, sale: Sale, user: AccountId) -> bool {
        &&& self.user == user
        &&& self.sale_mint == sale.sale_mint
        &&& self.schedule@.len() == sale.release_schedule@.len()
        &&& forall|i: int|
            0 <= i < self.schedule@.len() ==> self.schedule@[i].release_time
                == #[trigger] sale.release_schedule@[i].release_time
    }

    /// Persisted size of a vesting record aligned with the given schedule:
    /// the fixed header plus one line per tranche.
    pub fn space(release_schedule: &Vec<ReleaseSchedule>) -> (r: usize)
        requires
            VESTING_BASE_SPACE + release_schedule@.len() * VESTING_LINE_SPACE <= usize::MAX,
        ensures
            r == VESTING_BASE_SPACE + release_schedule@.len() * VESTING_LINE_SPACE,
    {
        VESTING_BASE_SPACE + release_schedule.len() * VESTING_LINE_SPACE
    }
}

/// No single fraction exceeds the sum of its schedule's fractions.
pub proof fn lemma_fraction_le_sum(s: Seq<ReleaseSchedule>, i: int)
    requires
        0 <= i < s.len(),
    ensures
        s[i].fraction <= sum_fractions(s),
    decreases s.len(),
{
    lemma_sum_fractions_nonneg(s.drop_last());
    if i < s.len() - 1 {
        lemma_fraction_le_sum(s.drop_last(), i);
    }
}

/// A sum of fractions is never negative.
pub proof fn lemma_sum_fractions_nonneg(s: Seq<ReleaseSchedule>)
    ensures
        sum_fractions(s) >= 0,
    decreases s.len(),
{
    if s.len() > 0 {
        lemma_sum_fractions_nonneg(s.drop_last());
    }
}

/// No single unclaimed amount exceeds the sum over its schedule.
pub proof fn lemma_amount_le_sum(s: Seq<VestingSchedule>, i: int)
    requires
        0 <= i < s.len(),
    ensures
        s[i].amount <= sum_amounts(s),
    decreases s.len(),
{
    lemma_sum_amounts_nonneg(s.drop_last());
    if i < s.len() - 1 {
        lemma_amount_le_sum(s.drop_last(), i);
    }
}

/// A sum of unclaimed amounts is never negative.
pub proof fn lemma_sum_amounts_nonneg(s: Seq<VestingSchedule>)
    ensures
        sum_amounts(s) >= 0,
    decreases s.len(),
{
    if s.len() > 0 {
        lemma_sum_amounts_nonneg(s.drop_last());
    }
}

} // verus!

use vstd::prelude::*;
use crate::error::AuctionError;

verus! {

/// A bid: who made it and for how much.
#[derive(Debug, PartialEq, Eq)]
pub struct Bid {
    pub bidder: String,
    pub amount: u128,
}

/// The mathematical value of a [`Bid`].
pub ghost struct BidModel {
    pub bidder: Seq<char>,
    pub amount: u128,
}

impl View for Bid {
    type V = BidModel;

    open spec fn view(&self) -> BidModel {
        BidModel { bidder: self.bidder@, amount: self.amount }
    }
}

impl Bid {
    /// A copy of this bid.
    pub fn duplicate(&self) -> (r: Bid)
        ensures
            r@ == self@,
    {
        Bid { bidder: self.bidder.clone(), amount: self.amount }
    }
}

/// The optional bid `b` as a model.
pub open spec fn bid_model(b: Option<Bid>) -> Option<BidModel> {
    match b {
        Some(x) => Some(x@),
        None => None,
    }
}

/// The state of the escrow ledger: the end time, the standing bid, and
/// whether the lot has been settled.
pub ghost struct LedgerModel {
    pub end_time: u64,
    pub highest: Option<BidModel>,
    pub claimed: bool,
}

/// The amount that a new bid has to exceed: that of the standing bid, or
/// zero where none stands.
pub open spec fn amount_to_beat(m: LedgerModel) -> u128 {
    match m.highest {
        Some(b) => b.amount,
        None => 0,
    }
}

/// What `record_bid` answers in state `m`: the displaced bid, or why the bid
/// is refused.
pub open spec fn bid_outcome(m: LedgerModel, amount: u128, now: u64) -> Result<
    Option<BidModel>,
    AuctionError,
> {
    if m.claimed || now >= m.end_time {
        Err(AuctionError::NotOpen)
    } else if amount <= amount_to_beat(m) {
        Err(AuctionError::BidTooLow)
    } else {
        Ok(m.highest)
    }
}

/// The state after `record_bid` in state `m`.
pub open spec fn after_bid(m: LedgerModel, bidder: Seq<char>, amount: u128, now: u64) -> LedgerModel {
    if bid_outcome(m, amount, now) is Ok {
        LedgerModel { highest: Some(BidModel { bidder, amount }), ..m }
    } else {
        m
    }
}

/// What `settle` answers in state `m`: the winning bid, if any, or why
/// settlement is refused.
pub open spec fn settle_outcome(m: LedgerModel, now: u64) -> Result<Option<BidModel>, AuctionError> {
    if now < m.end_time {
        Err(AuctionError::NotEnded)
    } else if m.claimed {
        Err(AuctionError::AlreadyClaimed)
    } else {
        Ok(m.highest)
    }
}

/// The state after `settle` in state `m`.
pub open spec fn after_settle(m: LedgerModel, now: u64) -> LedgerModel {
    if settle_outcome(m, now) is Ok {
        LedgerModel { claimed: true, ..m }
    } else {
        m
    }
}

/// One attempt to bid: who, how much, and when.
pub ghost struct BidAttempt {
    pub bidder: Seq<char>,
    pub amount: u128,
    pub now: u64,
}

/// The state after the attempts `bids`, in order, starting from `m`.
pub open spec fn after_bids(m: LedgerModel, bids: Seq<BidAttempt>) -> LedgerModel
    decreases bids.len(),
{
    if bids.len() == 0 {
        m
    } else {
        let b = bids.last();
        after_bid(after_bids(m, bids.drop_last()), b.bidder, b.amount, b.now)
    }
}

/// Over any sequence of bid attempts the standing amount never goes down:
/// after a longer prefix it is at least what it was after a shorter one. The
/// end time never changes, and a settled ledger stays settled.
pub proof fn lemma_standing_amount_never_decreases(
    m: LedgerModel,
    bids: Seq<BidAttempt>,
    i: int,
    j: int,
)
    requires
        0 <= i <= j <= bids.len(),
    ensures
        amount_to_beat(after_bids(m, bids.take(i))) <= amount_to_beat(after_bids(m, bids.take(j))),
        after_bids(m, bids.take(j)).end_time == after_bids(m, bids.take(i)).end_time,
        after_bids(m, bids.take(i)).claimed ==> after_bids(m, bids.take(j)).claimed,
    decreases j - i,
{
    if i < j {
        lemma_standing_amount_never_decreases(m, bids, i, j - 1);
        assert(bids.take(j).drop_last() =~= bids.take(j - 1));
    }
}

/// A bid that does not exceed the standing amount is refused, whatever else
/// holds, and changes nothing.
pub proof fn lemma_low_bid_refused(m: LedgerModel, bidder: Seq<char>, amount: u128, now: u64)
    requires
        amount <= amount_to_beat(m),
    ensures
        bid_outcome(m, amount, now) is Err,
        after_bid(m, bidder, amount, now) == m,
{
}

/// Once settled, a ledger changes no more: bids and settlements leave it as
/// it is, and every later settlement (time never runs backwards) is refused
/// as already claimed.
pub proof fn lemma_settles_at_most_once(m: LedgerModel, first: u64, later: u64)
    requires
        settle_outcome(m, first) is Ok,
        first <= later,
    ensures
        !m.claimed,
        after_settle(m, first).claimed,
        settle_outcome(after_settle(m, first), later) == Err::<Option<BidModel>, AuctionError>(
            AuctionError::AlreadyClaimed,
        ),
        after_settle(after_settle(m, first), later) == after_settle(m, first),
        forall|bidder: Seq<char>, amount: u128, now: u64|
            #[trigger] after_bid(after_settle(m, first), bidder, amount, now) == after_settle(
                m,
                first,
            ),
{
}

/// From the end time on, every bid is refused as not open, whether or not
/// any bid was made before, and changes nothing.
pub proof fn lemma_no_bid_after_end(m: LedgerModel, bidder: Seq<char>, amount: u128, now: u64)
    requires
        now >= m.end_time,
    ensures
        bid_outcome(m, amount, now) == Err::<Option<BidModel>, AuctionError>(
            AuctionError::NotOpen,
        ),
        after_bid(m, bidder, amount, now) == m,
{
}

/// Before the end time, every settlement is refused as not ended and changes
/// nothing.
pub proof fn lemma_no_claim_before_end(m: LedgerModel, now: u64)
    requires
        now < m.end_time,
    ensures
        settle_outcome(m, now) == Err::<Option<BidModel>, AuctionError>(AuctionError::NotEnded),
        after_settle(m, now) == m,
{
}

/// The bid/settle state machine shared by both auction variants.
pub struct Ledger {
    end_time: u64,
    highest: Option<Bid>,
    claimed: bool,
}

impl View for Ledger {
    type V = LedgerModel;

    closed spec fn view(&self) -> LedgerModel {
        LedgerModel { end_time: self.end_time, highest: bid_model(self.highest), claimed: self.claimed }
    }
}

impl Ledger {
    /// An unsettled ledger that closes at `end_time`, with `opening` as the
    /// standing bid.
    pub fn new(end_time: u64, opening: Option<Bid>) -> (r: Ledger)
        ensures
            r@ == (LedgerModel { end_time, highest: bid_model(opening), claimed: false }),
    {
        Ledger { end_time, highest: opening, claimed: false }
    }

    pub fn end_time(&self) -> (r: u64)
        ensures
            r == self@.end_time,
    {
        self.end_time
    }

    pub fn claimed(&self) -> (r: bool)
        ensures
            r == self@.claimed,
    {
        self.claimed
    }

    /// A copy of the standing bid.
    pub fn highest_bid(&self) -> (r: Option<Bid>)
        ensures
            bid_model(r) == self@.highest,
    {
        match &self.highest {
            Some(b) => Some(b.duplicate()),
            None => None,
        }
    }

    /// Installs `bidder`'s bid of `amount` if the auction is open at `now`
    /// and the amount exceeds the standing bid; hands back the bid it
    /// displaced. A refused bid changes nothing.
    pub fn record_bid(&mut self, bidder: String, amount: u128, now: u64) -> (r: Result<
        Option<Bid>,
        AuctionError,
    >)
        ensures
            final(self)@ == after_bid(old(self)@, bidder@, amount, now),
            match (r, bid_outcome(old(self)@, amount, now)) {
                (Ok(d), Ok(dm)) => bid_model(d) == dm,
                (Err(e), Err(em)) => e == em,
                _ => false,
            },
    {
        if self.claimed || now >= self.end_time {
            return Err(AuctionError::NotOpen);
        }
        let beat: u128 = match &self.highest {
            Some(b) => b.amount,
            None => 0,
        };
        if amount <= beat {
            return Err(AuctionError::BidTooLow);
        }
        let displaced = self.highest.take();
        self.highest = Some(Bid { bidder, amount });
        Ok(displaced)
    }

    /// Settles the lot if the auction has ended at `now` and was not settled
    /// before; hands back the winning bid. The flag is set here, before any
    /// payout is issued, so a second settlement is always refused.
    pub fn settle(&mut self, now: u64) -> (r: Result<Option<Bid>, AuctionError>)
        ensures
            final(self)@ == after_settle(old(self)@, now),
            match (r, settle_outcome(old(self)@, now)) {
                (Ok(w), Ok(wm)) => bid_model(w) == wm,
                (Err(e), Err(em)) => e == em,
                _ => false,
            },
    {
        if now < self.end_time {
            return Err(AuctionError::NotEnded);
        }
        if self.claimed {
            return Err(AuctionError::AlreadyClaimed);
        }
        self.claimed = true;
        Ok(self.highest_bid())
    }
}

} // verus!

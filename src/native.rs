use vstd::prelude::*;
use crate::effects::{effect_models, Effect, EffectModel};
use crate::error::AuctionError;
use crate::ledger::{
    after_bid, after_settle, bid_model, bid_outcome, settle_outcome, Bid, BidModel, Ledger,
    LedgerModel,
};

verus! {

/// The refunds that installing a bid over `displaced` owes: the displaced
/// bidder gets their escrowed value back.
pub open spec fn native_refunds(displaced: Option<BidModel>) -> Seq<EffectModel> {
    match displaced {
        Some(d) => seq![EffectModel::NativeTransfer { receiver: d.bidder, amount: d.amount }],
        None => seq![],
    }
}

/// The payouts of a settlement won by `winner`: the escrowed value to the
/// auctioneer and the asset to the winner. Nothing moves where nobody bid.
pub open spec fn native_payouts(
    auctioneer: Seq<char>,
    asset_contract: Seq<char>,
    asset_id: Seq<char>,
    winner: Option<BidModel>,
) -> Seq<EffectModel> {
    match winner {
        Some(w) => seq![
            EffectModel::NativeTransfer { receiver: auctioneer, amount: w.amount },
            EffectModel::AssetTransfer { asset_contract, asset_id, receiver: w.bidder },
        ],
        None => seq![],
    }
}

/// Snapshot of a native-token auction.
#[derive(Debug)]
pub struct AuctionInfo {
    pub end_time: u64,
    pub auctioneer: String,
    pub asset_contract: String,
    pub asset_id: String,
    pub highest_bid: Option<Bid>,
    pub claimed: bool,
}

/// An auction settled in the chain's native token: bids arrive as attached
/// value, and the escrow of an outbid bidder is sent back.
pub struct NativeAuction {
    ledger: Ledger,
    auctioneer: String,
    asset_contract: String,
    asset_id: String,
}

impl NativeAuction {
    pub closed spec fn ledger_model(&self) -> LedgerModel {
        self.ledger@
    }

    pub closed spec fn auctioneer_model(&self) -> Seq<char> {
        self.auctioneer@
    }

    pub closed spec fn asset_contract_model(&self) -> Seq<char> {
        self.asset_contract@
    }

    pub closed spec fn asset_id_model(&self) -> Seq<char> {
        self.asset_id@
    }

    /// Whether the fixed parameters of `self` and `other` agree.
    pub open spec fn same_terms(&self, other: &NativeAuction) -> bool {
        &&& self.auctioneer_model() == other.auctioneer_model()
        &&& self.asset_contract_model() == other.asset_contract_model()
        &&& self.asset_id_model() == other.asset_id_model()
        &&& self.ledger_model().end_time == other.ledger_model().end_time
    }

    /// Opens an auction of `asset_id` at `asset_contract`, closing at
    /// `end_time`, with no bid. An end time that has already passed gives an
    /// auction that refuses every bid and can be settled at once.
    pub fn init(
        end_time: u64,
        auctioneer: String,
        asset_contract: String,
        asset_id: String,
    ) -> (r: NativeAuction)
        ensures
            r.ledger_model() == (LedgerModel { end_time, highest: None, claimed: false }),
            r.auctioneer_model() == auctioneer@,
            r.asset_contract_model() == asset_contract@,
            r.asset_id_model() == asset_id@,
    {
        NativeAuction { ledger: Ledger::new(end_time, None), auctioneer, asset_contract, asset_id }
    }

    /// `caller` bids the value `deposit` attached to the call, at time `now`.
    /// On success the outbid bidder's escrow is returned to them; on refusal
    /// nothing changes and the platform returns the deposit.
    pub fn bid(&mut self, caller: String, deposit: u128, now: u64) -> (r: Result<
        Vec<Effect>,
        AuctionError,
    >)
        ensures
            final(self).same_terms(old(self)),
            final(self).ledger_model() == after_bid(old(self).ledger_model(), caller@, deposit, now),
            match (r, bid_outcome(old(self).ledger_model(), deposit, now)) {
                (Ok(v), Ok(d)) => effect_models(v@) == native_refunds(d),
                (Err(e), Err(em)) => e == em,
                _ => false,
            },
    {
        match self.ledger.record_bid(caller, deposit, now) {
            Err(e) => Err(e),
            Ok(displaced) => {
                let mut effects: Vec<Effect> = Vec::new();
                match displaced {
                    Some(d) => {
                        effects.push(Effect::NativeTransfer { receiver: d.bidder, amount: d.amount });
                    },
                    None => {},
                }
                proof {
                    assert(effect_models(effects@) =~= native_refunds(bid_model(displaced)));
                }
                Ok(effects)
            },
        }
    }

    /// Settles the auction at time `now`: anyone may call it once the end time
    /// has passed. The lot is marked claimed before the payouts are issued,
    /// and their outcome does not undo it.
    pub fn claim(&mut self, now: u64) -> (r: Result<Vec<Effect>, AuctionError>)
        ensures
            final(self).same_terms(old(self)),
            final(self).ledger_model() == after_settle(old(self).ledger_model(), now),
            match (r, settle_outcome(old(self).ledger_model(), now)) {
                (Ok(v), Ok(w)) => effect_models(v@) == native_payouts(
                    old(self).auctioneer_model(),
                    old(self).asset_contract_model(),
                    old(self).asset_id_model(),
                    w,
                ),
                (Err(e), Err(em)) => e == em,
                _ => false,
            },
    {
        match self.ledger.settle(now) {
            Err(e) => Err(e),
            Ok(winner) => {
                let mut effects: Vec<Effect> = Vec::new();
                match winner {
                    Some(w) => {
                        effects.push(
                            Effect::NativeTransfer {
                                receiver: self.auctioneer.clone(),
                                amount: w.amount,
                            },
                        );
                        effects.push(
                            Effect::AssetTransfer {
                                asset_contract: self.asset_contract.clone(),
                                asset_id: self.asset_id.clone(),
                                receiver: w.bidder,
                            },
                        );
                    },
                    None => {},
                }
                proof {
                    assert(effect_models(effects@) =~= native_payouts(
                        self.auctioneer@,
                        self.asset_contract@,
                        self.asset_id@,
                        bid_model(winner),
                    ));
                }
                Ok(effects)
            },
        }
    }

    /// The standing bid, if any.
    pub fn highest_bid(&self) -> (r: Option<Bid>)
        ensures
            bid_model(r) == self.ledger_model().highest,
    {
        self.ledger.highest_bid()
    }

    /// Whether the lot has been settled.
    pub fn claimed(&self) -> (r: bool)
        ensures
            r == self.ledger_model().claimed,
    {
        self.ledger.claimed()
    }

    /// A snapshot of every field.
    pub fn auction_info(&self) -> (r: AuctionInfo)
        ensures
            r.end_time == self.ledger_model().end_time,
            r.auctioneer@ == self.auctioneer_model(),
            r.asset_contract@ == self.asset_contract_model(),
            r.asset_id@ == self.asset_id_model(),
            bid_model(r.highest_bid) == self.ledger_model().highest,
            r.claimed == self.ledger_model().claimed,
    {
        AuctionInfo {
            end_time: self.ledger.end_time(),
            auctioneer: self.auctioneer.clone(),
            asset_contract: self.asset_contract.clone(),
            asset_id: self.asset_id.clone(),
            highest_bid: self.ledger.highest_bid(),
            claimed: self.ledger.claimed(),
        }
    }
}

} // verus!

use vstd::prelude::*;
use crate::amount::{decimal_value, is_decimal, parse_amount};
use crate::effects::{effect_models, Effect, EffectModel};
use crate::error::AuctionError;
use crate::ledger::{
    after_bid, after_settle, bid_model, bid_outcome, settle_outcome, Bid, BidModel, Ledger,
    LedgerModel,
};

verus! {

/// Whether `s` is a decimal amount that fits in 128 bits.
pub open spec fn valid_amount(s: Seq<char>) -> bool {
    is_decimal(s) && decimal_value(s) <= u128::MAX
}

/// The refunds that installing a bid over `displaced` owes. Tokens are
/// returned only where the displaced bid was backed by tokens in custody,
/// not where it was the auctioneer's reserve.
pub open spec fn token_refunds(
    payment_contract: Seq<char>,
    displaced: Option<BidModel>,
    escrowed: bool,
) -> Seq<EffectModel> {
    match displaced {
        Some(d) => if escrowed {
            seq![
                EffectModel::TokenTransfer {
                    token_contract: payment_contract,
                    receiver: d.bidder,
                    amount: d.amount,
                },
            ]
        } else {
            seq![]
        },
        None => seq![],
    }
}

/// The payouts of a settlement won by `winner`: the escrowed tokens to the
/// auctioneer and the asset to the winner. Where only the reserve stands no
/// tokens are held, and the asset goes back to the reserve's holder.
pub open spec fn token_payouts(
    payment_contract: Seq<char>,
    auctioneer: Seq<char>,
    asset_contract: Seq<char>,
    asset_id: Seq<char>,
    winner: Option<BidModel>,
    escrowed: bool,
) -> Seq<EffectModel> {
    match winner {
        Some(w) => if escrowed {
            seq![
                EffectModel::TokenTransfer {
                    token_contract: payment_contract,
                    receiver: auctioneer,
                    amount: w.amount,
                },
                EffectModel::AssetTransfer { asset_contract, asset_id, receiver: w.bidder },
            ]
        } else {
            seq![EffectModel::AssetTransfer { asset_contract, asset_id, receiver: w.bidder }]
        },
        None => seq![],
    }
}

/// Snapshot of a fungible-token auction.
#[derive(Debug)]
pub struct FtAuctionInfo {
    pub end_time: u64,
    pub auctioneer: String,
    pub payment_contract: String,
    pub asset_contract: String,
    pub asset_id: String,
    pub highest_bid: Bid,
    pub claimed: bool,
}

/// An auction settled in a fungible token. Bids arrive as transfer
/// notifications from the one token contract it trusts; the auctioneer's
/// starting price stands as the first bid.
pub struct FtAuction {
    ledger: Ledger,
    auctioneer: String,
    payment_contract: String,
    asset_contract: String,
    asset_id: String,
    escrowed: bool,
}

impl FtAuction {
    pub closed spec fn ledger_model(&self) -> LedgerModel {
        self.ledger@
    }

    pub closed spec fn auctioneer_model(&self) -> Seq<char> {
        self.auctioneer@
    }

    pub closed spec fn payment_contract_model(&self) -> Seq<char> {
        self.payment_contract@
    }

    pub closed spec fn asset_contract_model(&self) -> Seq<char> {
        self.asset_contract@
    }

    pub closed spec fn asset_id_model(&self) -> Seq<char> {
        self.asset_id@
    }

    /// Whether the standing bid is backed by tokens in the contract's custody.
    pub closed spec fn escrowed_model(&self) -> bool {
        self.escrowed
    }

    /// A bid always stands: the reserve until the first real bid.
    pub closed spec fn well_formed(&self) -> bool {
        self.ledger@.highest is Some
    }

    /// Whether the fixed parameters of `self` and `other` agree.
    pub open spec fn same_terms(&self, other: &FtAuction) -> bool {
        &&& self.auctioneer_model() == other.auctioneer_model()
        &&& self.payment_contract_model() == other.payment_contract_model()
        &&& self.asset_contract_model() == other.asset_contract_model()
        &&& self.asset_id_model() == other.asset_id_model()
        &&& self.ledger_model().end_time == other.ledger_model().end_time
    }

    /// Whether `self` and `other` are in the same state.
    pub open spec fn same_state(&self, other: &FtAuction) -> bool {
        &&& self.same_terms(other)
        &&& self.ledger_model() == other.ledger_model()
        &&& self.escrowed_model() == other.escrowed_model()
    }

    /// Opens an auction of `asset_id` at `asset_contract`, paid in the token
    /// of `payment_contract`, closing at `end_time`. The decimal
    /// `starting_price` stands as the auctioneer's bid, so the first real bid
    /// must exceed it.
    pub fn init(
        end_time: u64,
        auctioneer: String,
        payment_contract: String,
        asset_contract: String,
        asset_id: String,
        starting_price: &str,
    ) -> (r: Result<FtAuction, AuctionError>)
        ensures
            r is Ok <==> valid_amount(starting_price@),
            r is Err ==> r->Err_0 == AuctionError::InvalidAmount,
            r is Ok ==> ({
                let a = r->Ok_0;
                &&& a.well_formed()
                &&& a.ledger_model() == (LedgerModel {
                    end_time,
                    highest: Some(
                        BidModel {
                            bidder: auctioneer@,
                            amount: decimal_value(starting_price@) as u128,
                        },
                    ),
                    claimed: false,
                })
                &&& !a.escrowed_model()
                &&& a.auctioneer_model() == auctioneer@
                &&& a.payment_contract_model() == payment_contract@
                &&& a.asset_contract_model() == asset_contract@
                &&& a.asset_id_model() == asset_id@
            }),
    {
        let price = match parse_amount(starting_price) {
            Some(p) => p,
            None => {
                return Err(AuctionError::InvalidAmount);
            },
        };
        let reserve = Bid { bidder: auctioneer.clone(), amount: price };
        Ok(
            FtAuction {
                ledger: Ledger::new(end_time, Some(reserve)),
                auctioneer,
                payment_contract,
                asset_contract,
                asset_id,
                escrowed: false,
            },
        )
    }

    /// Handles the notice from `caller` that `sender` moved the decimal
    /// `amount` of tokens into this contract, at time `now`; the message is
    /// not read. Only the configured payment contract is believed. On success
    /// the outbid bidder's tokens are sent back through that contract; on
    /// refusal nothing changes and none of the amount is accepted, so the
    /// token contract returns it to `sender`.
    pub fn on_incoming_transfer(
        &mut self,
        caller: &String,
        sender: String,
        amount: &str,
        message: &str,
        now: u64,
    ) -> (r: Result<Vec<Effect>, AuctionError>)
        requires
            old(self).well_formed(),
        ensures
            final(self).well_formed(),
            final(self).same_terms(old(self)),
            caller@ != old(self).payment_contract_model() ==> r == Err::<Vec<Effect>, AuctionError>(
                AuctionError::Unauthorized,
            ) && final(self).same_state(old(self)),
            caller@ == old(self).payment_contract_model() && !valid_amount(amount@) ==> r == Err::<
                Vec<Effect>,
                AuctionError,
            >(AuctionError::InvalidAmount) && final(self).same_state(old(self)),
            caller@ == old(self).payment_contract_model() && valid_amount(amount@) ==> ({
                let v = decimal_value(amount@) as u128;
                &&& final(self).ledger_model() == after_bid(
                    old(self).ledger_model(),
                    sender@,
                    v,
                    now,
                )
                &&& match (r, bid_outcome(old(self).ledger_model(), v, now)) {
                    (Ok(e), Ok(d)) => {
                        &&& effect_models(e@) == token_refunds(
                            old(self).payment_contract_model(),
                            d,
                            old(self).escrowed_model(),
                        )
                        &&& final(self).escrowed_model()
                    },
                    (Err(e), Err(em)) => e == em && final(self).same_state(old(self)),
                    _ => false,
                }
            }),
    {
        if *caller != self.payment_contract {
            return Err(AuctionError::Unauthorized);
        }
        let value = match parse_amount(amount) {
            Some(v) => v,
            None => {
                return Err(AuctionError::InvalidAmount);
            },
        };
        match self.ledger.record_bid(sender, value, now) {
            Err(e) => Err(e),
            Ok(displaced) => {
                let mut effects: Vec<Effect> = Vec::new();
                match displaced {
                    Some(d) => {
                        if self.escrowed {
                            effects.push(
                                Effect::TokenTransfer {
                                    token_contract: self.payment_contract.clone(),
                                    receiver: d.bidder,
                                    amount: d.amount,
                                },
                            );
                        }
                    },
                    None => {},
                }
                proof {
                    assert(effect_models(effects@) =~= token_refunds(
                        self.payment_contract@,
                        bid_model(displaced),
                        self.escrowed,
                    ));
                }
                self.escrowed = true;
                Ok(effects)
            },
        }
    }

    /// Settles the auction at time `now`: anyone may call it once the end time
    /// has passed. The lot is marked claimed before the payouts are issued,
    /// and their outcome does not undo it.
    pub fn claim(&mut self, now: u64) -> (r: Result<Vec<Effect>, AuctionError>)
        requires
            old(self).well_formed(),
        ensures
            final(self).well_formed(),
            final(self).same_terms(old(self)),
            final(self).escrowed_model() == old(self).escrowed_model(),
            final(self).ledger_model() == after_settle(old(self).ledger_model(), now),
            match (r, settle_outcome(old(self).ledger_model(), now)) {
                (Ok(v), Ok(w)) => effect_models(v@) == token_payouts(
                    old(self).payment_contract_model(),
                    old(self).auctioneer_model(),
                    old(self).asset_contract_model(),
                    old(self).asset_id_model(),
                    w,
                    old(self).escrowed_model(),
                ),
                (Err(e), Err(em)) => e == em,
                _ => false,
            },
    {
        match self.ledger.settle(now) {
            Err(e) => Err(e),
            Ok(winner) => {
                let mut effects: Vec<Effect> = Vec::new();
                match winner {
                    Some(w) => {
                        if self.escrowed {
                            effects.push(
                                Effect::TokenTransfer {
                                    token_contract: self.payment_contract.clone(),
                                    receiver: self.auctioneer.clone(),
                                    amount: w.amount,
                                },
                            );
                        }
                        effects.push(
                            Effect::AssetTransfer {
                                asset_contract: self.asset_contract.clone(),
                                asset_id: self.asset_id.clone(),
                                receiver: w.bidder,
                            },
                        );
                    },
                    None => {},
                }
                proof {
                    assert(effect_models(effects@) =~= token_payouts(
                        self.payment_contract@,
                        self.auctioneer@,
                        self.asset_contract@,
                        self.asset_id@,
                        bid_model(winner),
                        self.escrowed,
                    ));
                }
                Ok(effects)
            },
        }
    }

    /// The standing bid.
    pub fn highest_bid(&self) -> (r: Bid)
        requires
            self.well_formed(),
        ensures
            Some(r@) == self.ledger_model().highest,
    {
        match self.ledger.highest_bid() {
            Some(b) => b,
            None => Bid { bidder: self.auctioneer.clone(), amount: 0 },
        }
    }

    /// Whether the lot has been settled.
    pub fn claimed(&self) -> (r: bool)
        ensures
            r == self.ledger_model().claimed,
    {
        self.ledger.claimed()
    }

    /// A snapshot of every field.
    pub fn auction_info(&self) -> (r: FtAuctionInfo)
        requires
            self.well_formed(),
        ensures
            r.end_time == self.ledger_model().end_time,
            r.auctioneer@ == self.auctioneer_model(),
            r.payment_contract@ == self.payment_contract_model(),
            r.asset_contract@ == self.asset_contract_model(),
            r.asset_id@ == self.asset_id_model(),
            Some(r.highest_bid@) == self.ledger_model().highest,
            r.claimed == self.ledger_model().claimed,
    {
        FtAuctionInfo {
            end_time: self.ledger.end_time(),
            auctioneer: self.auctioneer.clone(),
            payment_contract: self.payment_contract.clone(),
            asset_contract: self.asset_contract.clone(),
            asset_id: self.asset_id.clone(),
            highest_bid: self.highest_bid(),
            claimed: self.ledger.claimed(),
        }
    }
}

} // verus!

use vstd::prelude::*;
use base64::Engine;
use crate::effects::{effect_models, Effect, EffectModel};
use crate::error::AuctionError;

verus! {

/// The longest name, in characters, that a new instance may be given.
pub const MAX_NAME_LEN: usize = 32;

/// The least deposit, in minimal units of the native token, that pays for
/// creating an instance, storing its code and running its `init`.
pub const MIN_DEPLOY_DEPOSIT: u128 = 1_500_000_000_000_000_000_000_000;

/// The bytes that the text `s` denotes in padded standard base64, or none
/// where `s` is not such text.
pub uninterp spec fn base64_standard_decoded(s: Seq<char>) -> Option<Seq<u8>>;

/// Relies on `base64::engine::general_purpose::STANDARD.decode`: it decodes
/// padded standard base64, fails on any other input, and depends on the
/// input alone.
#[verifier::external_body]
fn decode_base64(s: &str) -> (r: Option<Vec<u8>>)
    ensures
        match r {
            Some(v) => base64_standard_decoded(s@) == Some(v@),
            None => base64_standard_decoded(s@) is None,
        },
{
    base64::engine::general_purpose::STANDARD.decode(s).ok()
}

/// The arguments for the `init` of a newly deployed fungible-token auction.
#[derive(Debug)]
pub struct InitArgs {
    pub end_time: u64,
    pub auctioneer: String,
    pub payment_contract: String,
    pub asset_contract: String,
    pub asset_id: String,
    pub starting_price: String,
}

/// What the hosting layer must do to provision a new auction: create
/// `subaccount` funded with `deposit`, deploy `code` to it, and call its
/// `init` with `init_args`. `payer` attached the deposit.
#[derive(Debug)]
pub struct Deployment {
    pub subaccount: String,
    pub code: Vec<u8>,
    pub deposit: u128,
    pub payer: String,
    pub init_args: InitArgs,
}

/// The name of the instance called `name` under the account `parent`.
pub open spec fn subaccount_of(name: Seq<char>, parent: Seq<char>) -> Seq<char> {
    name + seq!['.'] + parent
}

/// What a deployment request answers, before anything is created.
pub open spec fn deploy_check(name: Seq<char>, deposit: u128) -> Result<(), AuctionError> {
    if name.len() > MAX_NAME_LEN {
        Err(AuctionError::InvalidName)
    } else if deposit < MIN_DEPLOY_DEPOSIT {
        Err(AuctionError::InsufficientDeposit)
    } else {
        Ok(())
    }
}

/// For a name within the limit, a deployment request is accepted exactly
/// when the deposit reaches the minimum; below it the request is refused and
/// nothing is created.
pub proof fn lemma_deposit_gates_deployment(name: Seq<char>, deposit: u128)
    requires
        name.len() <= MAX_NAME_LEN,
    ensures
        deploy_check(name, deposit) is Ok <==> deposit >= MIN_DEPLOY_DEPOSIT,
        deposit < MIN_DEPLOY_DEPOSIT ==> deploy_check(name, deposit) == Err::<(), AuctionError>(
            AuctionError::InsufficientDeposit,
        ),
{
}

/// Holds the auction template and provisions new auctions from it.
pub struct Factory {
    account_id: String,
    template_code: Vec<u8>,
}

impl Factory {
    /// The factory's own account.
    pub closed spec fn account_model(&self) -> Seq<char> {
        self.account_id@
    }

    /// The stored template.
    pub closed spec fn template_model(&self) -> Seq<u8> {
        self.template_code@
    }

    /// A factory living at `account_id` whose template is `default_template`.
    pub fn init(account_id: String, default_template: Vec<u8>) -> (r: Factory)
        ensures
            r.account_model() == account_id@,
            r.template_model() == default_template@,
    {
        Factory { account_id, template_code: default_template }
    }

    /// The length in bytes of the stored template.
    pub fn code_size(&self) -> (r: usize)
        ensures
            r == self.template_model().len(),
    {
        self.template_code.len()
    }

    /// Replaces the template with `code`. Only the factory's own account may
    /// do so; any other caller is refused and nothing changes.
    pub fn update_template(&mut self, caller: &String, code: Vec<u8>) -> (r: Result<
        (),
        AuctionError,
    >)
        ensures
            final(self).account_model() == old(self).account_model(),
            r is Ok <==> caller@ == old(self).account_model(),
            r is Ok ==> final(self).template_model() == code@,
            r is Err ==> r->Err_0 == AuctionError::Unauthorized && final(self).template_model()
                == old(self).template_model(),
    {
        if *caller != self.account_id {
            return Err(AuctionError::Unauthorized);
        }
        self.template_code = code;
        Ok(())
    }

    /// Replaces the template with the bytes that `encoded` holds in standard
    /// base64, the form in which binaries cross the contract boundary. The
    /// caller is checked first; undecodable text is refused. A refusal
    /// changes nothing.
    pub fn update_template_encoded(&mut self, caller: &String, encoded: &str) -> (r: Result<
        (),
        AuctionError,
    >)
        ensures
            final(self).account_model() == old(self).account_model(),
            caller@ != old(self).account_model() ==> r == Err::<(), AuctionError>(
                AuctionError::Unauthorized,
            ),
            caller@ == old(self).account_model() ==> match base64_standard_decoded(encoded@) {
                Some(b) => r is Ok && final(self).template_model() == b,
                None => r == Err::<(), AuctionError>(AuctionError::InvalidEncoding),
            },
            r is Err ==> final(self).template_model() == old(self).template_model(),
    {
        if *caller != self.account_id {
            return Err(AuctionError::Unauthorized);
        }
        match decode_base64(encoded) {
            Some(code) => self.update_template(caller, code),
            None => Err(AuctionError::InvalidEncoding),
        }
    }

    /// Plans a new auction named `name` under the factory's account, paid for
    /// by `caller` with the attached `deposit`. Refused where the name is
    /// longer than [`MAX_NAME_LEN`] or the deposit is below
    /// [`MIN_DEPLOY_DEPOSIT`]; the platform then returns the deposit.
    pub fn deploy_new_auction(
        &self,
        caller: String,
        deposit: u128,
        name: &str,
        end_time: u64,
        auctioneer: String,
        payment_contract: String,
        asset_contract: String,
        asset_id: String,
        starting_price: String,
    ) -> (r: Result<Deployment, AuctionError>)
        ensures
            match (r, deploy_check(name@, deposit)) {
                (Ok(d), Ok(_)) => {
                    &&& d.subaccount@ == subaccount_of(name@, self.account_model())
                    &&& d.code@ == self.template_model()
                    &&& d.deposit == deposit
                    &&& d.payer@ == caller@
                    &&& d.init_args.end_time == end_time
                    &&& d.init_args.auctioneer@ == auctioneer@
                    &&& d.init_args.payment_contract@ == payment_contract@
                    &&& d.init_args.asset_contract@ == asset_contract@
                    &&& d.init_args.asset_id@ == asset_id@
                    &&& d.init_args.starting_price@ == starting_price@
                },
                (Err(e), Err(em)) => e == em,
                _ => false,
            },
    {
        if name.unicode_len() > MAX_NAME_LEN {
            return Err(AuctionError::InvalidName);
        }
        if deposit < MIN_DEPLOY_DEPOSIT {
            return Err(AuctionError::InsufficientDeposit);
        }
        let mut subaccount = String::from_str(name);
        subaccount.append(".");
        subaccount.append(self.account_id.as_str());
        proof {
            reveal_strlit(".");
        }
        let code = self.template_code.clone();
        assert(code@ =~= self.template_code@);
        Ok(
            Deployment {
                subaccount,
                code,
                deposit,
                payer: caller,
                init_args: InitArgs {
                    end_time,
                    auctioneer,
                    payment_contract,
                    asset_contract,
                    asset_id,
                    starting_price,
                },
            },
        )
    }
}

/// What a deployment reports once the creation and the nested `init` have
/// run: the new account on success; otherwise `DeploymentFailed`, with the
/// whole deposit sent back to the payer.
pub fn finish_deployment(d: &Deployment, succeeded: bool) -> (r: (
    Result<String, AuctionError>,
    Vec<Effect>,
))
    ensures
        succeeded ==> r.0 is Ok && r.0->Ok_0@ == d.subaccount@ && r.1@.len() == 0,
        !succeeded ==> r.0 == Err::<String, AuctionError>(AuctionError::DeploymentFailed)
            && effect_models(r.1@) == seq![
            EffectModel::NativeTransfer { receiver: d.payer@, amount: d.deposit },
        ],
{
    if succeeded {
        (Ok(d.subaccount.clone()), Vec::new())
    } else {
        let mut refund: Vec<Effect> = Vec::new();
        refund.push(Effect::NativeTransfer { receiver: d.payer.clone(), amount: d.deposit });
        assert(effect_models(refund@) =~= seq![
            EffectModel::NativeTransfer { receiver: d.payer@, amount: d.deposit },
        ]);
        (Err(AuctionError::DeploymentFailed), refund)
    }
}

} // verus!

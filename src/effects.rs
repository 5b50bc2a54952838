use vstd::prelude::*;

verus! {

/// An outbound call that a contract schedules; the hosting layer dispatches
/// it, and its outcome never rolls back the call that scheduled it.
#[derive(Debug, PartialEq, Eq)]
pub enum Effect {
    /// Send `amount` of the native token to `receiver`.
    NativeTransfer { receiver: String, amount: u128 },
    /// Ask `token_contract` to move `amount` of its token to `receiver`.
    TokenTransfer { token_contract: String, receiver: String, amount: u128 },
    /// Ask `asset_contract` to hand the asset `asset_id` to `receiver`.
    AssetTransfer { asset_contract: String, asset_id: String, receiver: String },
}

/// The mathematical value of an [`Effect`].
pub ghost enum EffectModel {
    NativeTransfer { receiver: Seq<char>, amount: u128 },
    TokenTransfer { token_contract: Seq<char>, receiver: Seq<char>, amount: u128 },
    AssetTransfer { asset_contract: Seq<char>, asset_id: Seq<char>, receiver: Seq<char> },
}

impl View for Effect {
    type V = EffectModel;

    open spec fn view(&self) -> EffectModel {
        match self {
            Effect::NativeTransfer { receiver, amount } => EffectModel::NativeTransfer {
                receiver: receiver@,
                amount: *amount,
            },
            Effect::TokenTransfer { token_contract, receiver, amount } =>
                EffectModel::TokenTransfer {
                token_contract: token_contract@,
                receiver: receiver@,
                amount: *amount,
            },
            Effect::AssetTransfer { asset_contract, asset_id, receiver } =>
                EffectModel::AssetTransfer {
                asset_contract: asset_contract@,
                asset_id: asset_id@,
                receiver: receiver@,
            },
        }
    }
}

/// The models of a list of effects.
pub open spec fn effect_models(v: Seq<Effect>) -> Seq<EffectModel> {
    v.map_values(|e: Effect| e@)
}

} // verus!

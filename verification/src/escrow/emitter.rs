//! From effects to instructions addressed to the host.
//!
//! The engine says what must happen; the emitter says it in the host's
//! terms, filling in the marketplace's own address as the party that funds
//! and assets leave from. It keeps the order of the effects and neither
//! adds nor drops one.

use crate::escrow::coin::{coins_view, Coin, CoinView};
use crate::escrow::engine::{effects_view, Effect, EffectView};
use crate::escrow::msg::{MsgMintNFT, MsgMintNFTView, MsgTransferNFT, MsgTransferNFTView};
use vstd::prelude::*;

verus! {

/// What an [`Instruction`] stands for.
pub enum InstructionView {
    TransferFunds { from_address: Seq<char>, to_address: Seq<char>, amount: Seq<CoinView> },
    MintAsset(MsgMintNFTView),
    TransferAsset(MsgTransferNFTView),
}

/// One thing for the host to do, complete with sender and recipient.
#[derive(Debug, PartialEq, Eq)]
pub enum Instruction {
    /// A bank transfer.
    TransferFunds { from_address: String, to_address: String, amount: Vec<Coin> },
    /// A mint by the asset registry.
    MintAsset(MsgMintNFT),
    /// A change of owner in the asset registry.
    TransferAsset(MsgTransferNFT),
}

impl View for Instruction {
    type V = InstructionView;

    open spec fn view(&self) -> InstructionView {
        match *self {
            Instruction::TransferFunds {
                from_address,
                to_address,
                amount,
            } => InstructionView::TransferFunds {
                from_address: from_address@,
                to_address: to_address@,
                amount: coins_view(amount@),
            },
            Instruction::MintAsset(msg) => InstructionView::MintAsset(msg@),
            Instruction::TransferAsset(msg) => InstructionView::TransferAsset(msg@),
        }
    }
}

/// The views of a list of instructions, in order.
pub open spec fn instructions_view(instructions: Seq<Instruction>) -> Seq<InstructionView> {
    instructions.map_values(|i: Instruction| i@)
}

/// The instruction that carries out `effect` for a marketplace whose
/// custody address is `custody`. A minted asset is owned by the
/// marketplace; on a transfer the registry is told to leave the asset's
/// descriptive fields alone.
pub open spec fn translate(effect: EffectView, custody: Seq<char>) -> InstructionView {
    match effect {
        EffectView::MintAsset { order_no, asset } => InstructionView::MintAsset(
            MsgMintNFTView {
                id: asset.nft_id,
                denom_id: asset.denom,
                name: asset.name,
                uri: asset.uri,
                data: asset.data,
                sender: custody,
                recipient: custody,
            },
        ),
        EffectView::TransferFunds { to, amount } => InstructionView::TransferFunds {
            from_address: custody,
            to_address: to,
            amount: seq![amount],
        },
        EffectView::TransferAsset { denom, nft_id, to } => InstructionView::TransferAsset(
            MsgTransferNFTView {
                id: nft_id,
                denom_id: denom,
                name: "[do-not-modify]"@,
                data: "[do-not-modify]"@,
                uri: "[do-not-modify]"@,
                sender: custody,
                recipient: to,
            },
        ),
    }
}

/// [`translate`] applied to each effect in turn.
pub open spec fn translate_all(effects: Seq<EffectView>, custody: Seq<char>) -> Seq<
    InstructionView,
> {
    effects.map_values(|e: EffectView| translate(e, custody))
}

/// Translates one effect.
pub fn emit_one(effect: &Effect, custody: &String) -> (instruction: Instruction)
    ensures
        instruction@ == translate(effect@, custody@),
{
    match effect {
        Effect::MintAsset { order_no, asset } => Instruction::MintAsset(
            MsgMintNFT {
                id: asset.nft_id.clone(),
                denom_id: asset.denom.clone(),
                name: asset.name.clone(),
                uri: asset.uri.clone(),
                data: asset.data.clone(),
                sender: custody.clone(),
                recipient: custody.clone(),
            },
        ),
        Effect::TransferFunds { to, amount } => {
            let mut coins: Vec<Coin> = Vec::new();
            coins.push(amount.clone());
            assert(coins_view(coins@) =~= seq![amount@]);
            Instruction::TransferFunds {
                from_address: custody.clone(),
                to_address: to.clone(),
                amount: coins,
            }
        },
        Effect::TransferAsset { denom, nft_id, to } => Instruction::TransferAsset(
            MsgTransferNFT {
                id: nft_id.clone(),
                denom_id: denom.clone(),
                name: "[do-not-modify]".to_owned(),
                data: "[do-not-modify]".to_owned(),
                uri: "[do-not-modify]".to_owned(),
                sender: custody.clone(),
                recipient: to.clone(),
            },
        ),
    }
}

/// Translates a list of effects, one instruction per effect, in order.
pub fn emit(effects: &Vec<Effect>, custody: &String) -> (instructions: Vec<Instruction>)
    ensures
        instructions_view(instructions@) == translate_all(effects_view(effects@), custody@),
{
    let n: usize = effects.len();
    let mut instructions: Vec<Instruction> = Vec::new();
    let mut i: usize = 0;
    while i < n
        invariant
            n == effects.len(),
            i <= n,
            instructions.len() == i,
            forall|k: int|
                0 <= k < i ==> (#[trigger] instructions[k])@ == translate(effects[k]@, custody@),
        decreases n - i,
    {
        instructions.push(emit_one(&effects[i], custody));
        i = i + 1;
    }
    assert(instructions_view(instructions@) =~= translate_all(effects_view(effects@), custody@));
    instructions
}

} // verus!

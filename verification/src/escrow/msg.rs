//! Requests, responses and the messages addressed to the asset registry.

use crate::escrow::coin::{Coin, CoinView};
use crate::escrow::engine::AssetView;
use crate::escrow::state::Order;
use vstd::prelude::*;

verus! {

/// Sets the marketplace up. Carries nothing.
#[derive(Clone, Copy, Debug, PartialEq, Eq)]
pub struct InitMsg {}

/// What a [`HandleMsg`] stands for.
pub enum HandleMsgView {
    Create { asset: AssetView, price: CoinView },
    Delegated { denom: Seq<char>, nft_id: Seq<char>, price: CoinView },
    Pay { order_no: u64 },
    Cancel { order_no: u64 },
}

/// A request that may change the store. The caller's identity and the funds
/// attached travel beside it.
#[derive(Debug, PartialEq, Eq)]
pub enum HandleMsg {
    /// Offer an asset for sale; the caller is the seller.
    Create { denom: String, nft_id: String, name: String, uri: String, data: String, price: Coin },
    /// Reserved for sales of assets held elsewhere.
    Delegated { denom: String, nft_id: String, price: Coin },
    /// Settle an order with the funds attached; the caller is the buyer.
    Pay { order_no: u64 },
    /// Withdraw an order; the caller must be its seller.
    Cancel { order_no: u64 },
}

impl View for HandleMsg {
    type V = HandleMsgView;

    open spec fn view(&self) -> HandleMsgView {
        match *self {
            HandleMsg::Create { denom, nft_id, name, uri, data, price } => HandleMsgView::Create {
                asset: AssetView {
                    denom: denom@,
                    nft_id: nft_id@,
                    name: name@,
                    uri: uri@,
                    data: data@,
                },
                price: price@,
            },
            HandleMsg::Delegated { denom, nft_id, price } => HandleMsgView::Delegated {
                denom: denom@,
                nft_id: nft_id@,
                price: price@,
            },
            HandleMsg::Pay { order_no } => HandleMsgView::Pay { order_no },
            HandleMsg::Cancel { order_no } => HandleMsgView::Cancel { order_no },
        }
    }
}

/// A request that only reads the store.
#[derive(Clone, Copy, Debug, PartialEq, Eq)]
pub enum QueryMsg {
    /// All orders, oldest first.
    GetOrderList {},
}

/// The answer to [`QueryMsg::GetOrderList`].
#[derive(Debug, PartialEq, Eq)]
pub struct OrderListResponse {
    pub list: Vec<Order>,
}

/// What a [`MsgMintNFT`] stands for.
pub struct MsgMintNFTView {
    pub id: Seq<char>,
    pub denom_id: Seq<char>,
    pub name: Seq<char>,
    pub uri: Seq<char>,
    pub data: Seq<char>,
    pub sender: Seq<char>,
    pub recipient: Seq<char>,
}

/// Asks the asset registry to mint an asset.
#[derive(Debug, PartialEq, Eq)]
pub struct MsgMintNFT {
    pub id: String,
    pub denom_id: String,
    pub name: String,
    pub uri: String,
    pub data: String,
    pub sender: String,
    pub recipient: String,
}

impl View for MsgMintNFT {
    type V = MsgMintNFTView;

    open spec fn view(&self) -> MsgMintNFTView {
        MsgMintNFTView {
            id: self.id@,
            denom_id: self.denom_id@,
            name: self.name@,
            uri: self.uri@,
            data: self.data@,
            sender: self.sender@,
            recipient: self.recipient@,
        }
    }
}

/// What a [`MsgTransferNFT`] stands for.
pub struct MsgTransferNFTView {
    pub id: Seq<char>,
    pub denom_id: Seq<char>,
    pub name: Seq<char>,
    pub data: Seq<char>,
    pub uri: Seq<char>,
    pub sender: Seq<char>,
    pub recipient: Seq<char>,
}

/// Asks the asset registry to move an asset to another owner.
#[derive(Debug, PartialEq, Eq)]
pub struct MsgTransferNFT {
    pub id: String,
    pub denom_id: String,
    pub name: String,
    pub data: String,
    pub uri: String,
    pub sender: String,
    pub recipient: String,
}

impl View for MsgTransferNFT {
    type V = MsgTransferNFTView;

    open spec fn view(&self) -> MsgTransferNFTView {
        MsgTransferNFTView {
            id: self.id@,
            denom_id: self.denom_id@,
            name: self.name@,
            data: self.data@,
            uri: self.uri@,
            sender: self.sender@,
            recipient: self.recipient@,
        }
    }
}

/// The envelope in which a registry message travels to the host: the route
/// that names the message's kind, and the encoded message as base64 text.
#[derive(Debug, PartialEq, Eq)]
pub struct MsgWrapper {
    pub router: String,
    pub data: String,
}

/// The padded base64 text of `bytes` in the standard alphabet, as
/// `cosmwasm_std::Binary::to_base64` renders it.
pub uninterp spec fn base64_text(bytes: Seq<u8>) -> Seq<char>;

/// Calls `cosmwasm_std::Binary::to_base64` on a copy of `value`.
///
/// Not proved: that the text returned is the base64 encoding of the bytes.
/// The contract only gives that text its name, [`base64_text`], relying on
/// the encoding being a function of the bytes alone.
#[verifier::external_body]
fn to_base64(value: &Vec<u8>) -> (text: String)
    ensures
        text@ == base64_text(value@),
{
    cosmwasm_std::Binary::from(value.as_slice()).to_base64()
}

/// Puts an encoded registry message into its envelope.
pub fn create_wasm_custom_msg(typ: String, value: &Vec<u8>) -> (msg: MsgWrapper)
    ensures
        msg.router == typ,
        msg.data@ == base64_text(value@),
{
    MsgWrapper { router: typ, data: to_base64(value) }
}

impl MsgMintNFT {
    /// The envelope for this message, given its encoded form.
    pub fn wrap(&self, encoded: &Vec<u8>) -> (msg: MsgWrapper)
        ensures
            msg.router@ == "/irismod.nft.MsgMintNFT"@,
            msg.data@ == base64_text(encoded@),
    {
        create_wasm_custom_msg("/irismod.nft.MsgMintNFT".to_owned(), encoded)
    }
}

impl MsgTransferNFT {
    /// The envelope for this message, given its encoded form.
    pub fn wrap(&self, encoded: &Vec<u8>) -> (msg: MsgWrapper)
        ensures
            msg.router@ == "/irismod.nft.MsgTransferNFT"@,
            msg.data@ == base64_text(encoded@),
    {
        create_wasm_custom_msg("/irismod.nft.MsgTransferNFT".to_owned(), encoded)
    }
}

} // verus!

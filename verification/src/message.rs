use vstd::prelude::*;

verus! {

/// An amount of a native denom.
#[derive(Clone, Debug, PartialEq, Eq)]
pub struct Coin {
    pub denom: String,
    pub amount: u128,
}

/// A coin as contracts see it.
pub struct CoinView {
    pub denom: Seq<char>,
    pub amount: u128,
}

impl View for Coin {
    type V = CoinView;

    open spec fn view(&self) -> CoinView {
        CoinView { denom: self.denom@, amount: self.amount }
    }
}

/// The coins of a list, each by its view.
pub open spec fn coins_view(coins: Seq<Coin>) -> Seq<CoinView> {
    coins.map_values(|c: Coin| c@)
}

/// Who called, and the native funds attached to the call.
#[derive(Clone, Debug, PartialEq, Eq)]
pub struct MessageInfo {
    pub sender: String,
    pub funds: Vec<Coin>,
}

/// An instruction to the bank.
#[derive(Clone, Debug, PartialEq, Eq)]
pub enum BankMsg {
    /// Sends native coins to an address.
    Send { to_address: String, amount: Vec<Coin> },
}

/// An instruction to a contract.
#[derive(Clone, Debug, PartialEq, Eq)]
pub enum WasmMsg {
    /// Calls a contract with an encoded payload and attached funds.
    Execute { contract_addr: String, msg: Vec<u8>, funds: Vec<Coin> },
}

/// An instruction that moves value, for the chain to carry out.
#[derive(Clone, Debug, PartialEq, Eq)]
pub enum CosmosMsg {
    Bank(BankMsg),
    Wasm(WasmMsg),
}

/// An instruction as contracts see it.
pub enum CosmosMsgView {
    BankSend { to_address: Seq<char>, amount: Seq<CoinView> },
    WasmExecute { contract_addr: Seq<char>, msg: Seq<u8>, funds: Seq<CoinView> },
}

impl View for CosmosMsg {
    type V = CosmosMsgView;

    open spec fn view(&self) -> CosmosMsgView {
        match *self {
            CosmosMsg::Bank(BankMsg::Send { to_address, amount }) => CosmosMsgView::BankSend {
                to_address: to_address@,
                amount: coins_view(amount@),
            },
            CosmosMsg::Wasm(WasmMsg::Execute { contract_addr, msg, funds }) => {
                CosmosMsgView::WasmExecute {
                    contract_addr: contract_addr@,
                    msg: msg@,
                    funds: coins_view(funds@),
                }
            },
        }
    }
}

/// When the sender of a sub-message wants to hear of its outcome.
#[derive(Clone, Copy, Debug, PartialEq, Eq, Structural)]
pub enum ReplyOn {
    Always,
    Error,
    Success,
    Never,
}

/// An instruction with the terms of its dispatch.
#[derive(Clone, Debug, PartialEq, Eq)]
pub struct SubMsg {
    pub id: u64,
    pub msg: CosmosMsg,
    pub gas_limit: Option<u64>,
    pub reply_on: ReplyOn,
}

impl SubMsg {
    /// A fire-and-forget sub-message: id 0, no gas limit, no reply.
    pub fn new(msg: CosmosMsg) -> (r: SubMsg)
        ensures
            r.id == 0,
            r.msg == msg,
            r.gas_limit is None,
            r.reply_on == ReplyOn::Never,
    {
        SubMsg { id: 0, msg, gas_limit: None, reply_on: ReplyOn::Never }
    }
}

#[verifier::external_type_specification]
#[verifier::external_body]
pub struct ExStdError(cosmwasm_std::StdError);

/// The encoded payload of a token contract's transfer call for a recipient
/// and an amount, or `None` where the encoder refuses them.
pub uninterp spec fn cw20_transfer_payload(recipient: Seq<char>, amount: u128) -> Option<Seq<u8>>;

/// Builds `cw20::Cw20ExecuteMsg::Transfer` and encodes it with
/// `cosmwasm_std::to_json_binary`. The encoding depends on the recipient and
/// the amount alone: the bytes that come back, or the failure, are the named
/// result `cw20_transfer_payload` of the two.
#[verifier::external_body]
pub(crate) fn encode_cw20_transfer(recipient: &String, amount: u128) -> (r: Result<
    Vec<u8>,
    cosmwasm_std::StdError,
>)
    ensures
        r is Ok <==> cw20_transfer_payload(recipient@, amount) is Some,
        r matches Ok(bytes) ==> cw20_transfer_payload(recipient@, amount) == Some(bytes@),
{
    let msg = cw20::Cw20ExecuteMsg::Transfer {
        recipient: recipient.clone(),
        amount: cosmwasm_std::Uint128::new(amount),
    };
    match cosmwasm_std::to_json_binary(&msg) {
        Ok(binary) => Ok(binary.0),
        Err(e) => Err(e),
    }
}

} // verus!

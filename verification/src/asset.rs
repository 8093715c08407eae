use vstd::prelude::*;
use vstd::string::*;
use crate::collaborators::{AddressCodec, BalanceOracle, TokenInfo};
use crate::error::{view_ok, AssetError};
use crate::ibc::{get_ibc_token_label, ibc_label, is_ibc_denom, is_ibc_token};
use crate::message::{
    cw20_transfer_payload, encode_cw20_transfer, coins_view, BankMsg, Coin, CoinView, CosmosMsg,
    CosmosMsgView, MessageInfo, SubMsg, WasmMsg, ReplyOn,
};

verus! {

/// The kind of a value: a token by its contract's address, or a native coin
/// by its denom.
#[derive(Clone, Debug, PartialEq, Eq)]
pub enum AssetInfo {
    Token { contract_addr: String },
    NativeToken { denom: String },
}

/// An asset kind as contracts see it.
pub enum AssetInfoView {
    Token { contract_addr: Seq<char> },
    NativeToken { denom: Seq<char> },
}

impl View for AssetInfo {
    type V = AssetInfoView;

    open spec fn view(&self) -> AssetInfoView {
        match *self {
            AssetInfo::Token { contract_addr } => AssetInfoView::Token {
                contract_addr: contract_addr@,
            },
            AssetInfo::NativeToken { denom } => AssetInfoView::NativeToken { denom: denom@ },
        }
    }
}

/// An asset kind with a quantity.
#[derive(Clone, Debug, PartialEq, Eq)]
pub struct Asset {
    pub info: AssetInfo,
    pub amount: u128,
}

/// An asset as contracts see it.
pub struct AssetView {
    pub info: AssetInfoView,
    pub amount: u128,
}

impl View for Asset {
    type V = AssetView;

    open spec fn view(&self) -> AssetView {
        AssetView { info: self.info@, amount: self.amount }
    }
}

/// An asset kind in storage: a token by its canonical address.
#[derive(Clone, Debug, PartialEq, Eq)]
pub enum AssetInfoRaw {
    Token { contract_addr: Vec<u8> },
    NativeToken { denom: String },
}

/// A stored asset kind as contracts see it.
pub enum AssetInfoRawView {
    Token { contract_addr: Seq<u8> },
    NativeToken { denom: Seq<char> },
}

impl View for AssetInfoRaw {
    type V = AssetInfoRawView;

    open spec fn view(&self) -> AssetInfoRawView {
        match *self {
            AssetInfoRaw::Token { contract_addr } => AssetInfoRawView::Token {
                contract_addr: contract_addr@,
            },
            AssetInfoRaw::NativeToken { denom } => AssetInfoRawView::NativeToken {
                denom: denom@,
            },
        }
    }
}

/// An asset in storage.
#[derive(Clone, Debug, PartialEq, Eq)]
pub struct AssetRaw {
    pub info: AssetInfoRaw,
    pub amount: u128,
}

/// A stored asset as contracts see it.
pub struct AssetRawView {
    pub info: AssetInfoRawView,
    pub amount: u128,
}

impl View for AssetRaw {
    type V = AssetRawView;

    open spec fn view(&self) -> AssetRawView {
        AssetRawView { info: self.info@, amount: self.amount }
    }
}

/// The stored form of an asset kind, given what the codec made of its
/// address: a native kind keeps its denom and needs no codec.
pub open spec fn raw_of(info: AssetInfoView, canonical: Result<Seq<u8>, AssetError>) -> Result<
    AssetInfoRawView,
    AssetError,
> {
    match info {
        AssetInfoView::NativeToken { denom } => Ok(AssetInfoRawView::NativeToken { denom }),
        AssetInfoView::Token { .. } => match canonical {
            Ok(contract_addr) => Ok(AssetInfoRawView::Token { contract_addr }),
            Err(e) => Err(e),
        },
    }
}

/// The human-addressed form of a stored asset kind, given what the codec
/// made of its address.
pub open spec fn normal_of(info: AssetInfoRawView, human: Result<Seq<char>, AssetError>) -> Result<
    AssetInfoView,
    AssetError,
> {
    match info {
        AssetInfoRawView::NativeToken { denom } => Ok(AssetInfoView::NativeToken { denom }),
        AssetInfoRawView::Token { .. } => match human {
            Ok(contract_addr) => Ok(AssetInfoView::Token { contract_addr }),
            Err(e) => Err(e),
        },
    }
}

/// Two kinds are the same: the same tag and the same characters. A token
/// and a native kind are never the same, whatever their characters.
pub open spec fn same_kind(a: AssetInfoView, b: AssetInfoView) -> bool {
    match (a, b) {
        (
            AssetInfoView::Token { contract_addr: x },
            AssetInfoView::Token { contract_addr: y },
        ) => x == y,
        (AssetInfoView::NativeToken { denom: x }, AssetInfoView::NativeToken { denom: y }) => x
            == y,
        _ => false,
    }
}

/// Two stored kinds are the same: the same tag, and the same denom or the
/// same address bytes.
pub open spec fn same_raw_kind(a: AssetInfoRawView, b: AssetInfoRawView) -> bool {
    match (a, b) {
        (
            AssetInfoRawView::Token { contract_addr: x },
            AssetInfoRawView::Token { contract_addr: y },
        ) => x == y,
        (
            AssetInfoRawView::NativeToken { denom: x },
            AssetInfoRawView::NativeToken { denom: y },
        ) => x == y,
        _ => false,
    }
}

/// The ten decimal digits, in order.
pub open spec fn decimal_digits() -> Seq<char> {
    seq!['0', '1', '2', '3', '4', '5', '6', '7', '8', '9']
}

/// A number in decimal, without sign or leading zeros; zero is `0`.
pub open spec fn decimal_text(n: nat) -> Seq<char>
    decreases n,
{
    if n < 10 {
        seq![decimal_digits()[n as int]]
    } else {
        decimal_text(n / 10).push(decimal_digits()[(n % 10) as int])
    }
}

/// Formats an amount with `format!`, that is through `u128`'s `Display`,
/// which writes the number in decimal, without sign or leading zeros.
#[verifier::external_body]
fn amount_text(amount: u128) -> (r: String)
    ensures
        r@ == decimal_text(amount as nat),
{
    format!("{}", amount)
}

/// The identifier of an asset kind: the denom or the contract's address.
pub open spec fn id_of(info: AssetInfoView) -> Seq<char> {
    match info {
        AssetInfoView::Token { contract_addr } => contract_addr,
        AssetInfoView::NativeToken { denom } => denom,
    }
}

/// The label of a native denom: shortened where the denom is relayed, else
/// the denom itself.
pub open spec fn native_label(denom: Seq<char>) -> Seq<char> {
    if is_ibc_denom(denom) {
        ibc_label(denom)
    } else {
        denom
    }
}

impl AssetInfo {
    pub fn is_native_token(&self) -> (r: bool)
        ensures
            r == (self@ is NativeToken),
    {
        match self {
            AssetInfo::NativeToken { .. } => true,
            AssetInfo::Token { .. } => false,
        }
    }

    /// The kind as text: its denom or its contract's address.
    pub fn to_string(&self) -> (r: String)
        ensures
            r@ == id_of(self@),
    {
        match self {
            AssetInfo::NativeToken { denom } => denom.clone(),
            AssetInfo::Token { contract_addr } => contract_addr.clone(),
        }
    }

    /// Structural equality: the same tag and the same characters.
    pub fn equal(&self, asset: &AssetInfo) -> (r: bool)
        ensures
            r == same_kind(self@, asset@),
    {
        match self {
            AssetInfo::Token { contract_addr } => {
                let self_contract_addr = contract_addr;
                match asset {
                    AssetInfo::Token { contract_addr } => *self_contract_addr == *contract_addr,
                    AssetInfo::NativeToken { .. } => false,
                }
            },
            AssetInfo::NativeToken { denom } => {
                let self_denom = denom;
                match asset {
                    AssetInfo::Token { .. } => false,
                    AssetInfo::NativeToken { denom } => *self_denom == *denom,
                }
            },
        }
    }

    /// What `to_raw` may return with a given codec: for a native kind the
    /// same denom; for a token whatever the codec's `canonicalize` made of
    /// the contract's address, its error included.
    pub open spec fn to_raw_outcome<C, H, V>(
        &self,
        codec: &AddressCodec<C, H, V>,
        r: Result<AssetInfoRaw, AssetError>,
    ) -> bool where
        C: Fn(&String) -> Result<Vec<u8>, AssetError>,
        H: Fn(&Vec<u8>) -> Result<String, AssetError>,
        V: Fn(&String) -> Result<String, AssetError>,
     {
        match *self {
            AssetInfo::NativeToken { denom } => view_ok(r) == Ok::<AssetInfoRawView, AssetError>(
                AssetInfoRawView::NativeToken { denom: denom@ },
            ),
            AssetInfo::Token { contract_addr } => exists|reply: Result<Vec<u8>, AssetError>|
                call_ensures(codec.canonicalize, (&contract_addr,), reply) && view_ok(r) == raw_of(
                    self@,
                    view_ok(reply),
                ),
        }
    }

    /// The stored form of this kind. Only a token's address goes to the
    /// codec.
    pub fn to_raw<C, H, V>(&self, codec: &AddressCodec<C, H, V>) -> (r: Result<
        AssetInfoRaw,
        AssetError,
    >) where
        C: Fn(&String) -> Result<Vec<u8>, AssetError>,
        H: Fn(&Vec<u8>) -> Result<String, AssetError>,
        V: Fn(&String) -> Result<String, AssetError>,

        requires
            codec.callable(),
        ensures
            self.to_raw_outcome(codec, r),
    {
        match self {
            AssetInfo::NativeToken { denom } => {
                Ok(AssetInfoRaw::NativeToken { denom: denom.clone() })
            },
            AssetInfo::Token { contract_addr } => {
                let reply = (codec.canonicalize)(contract_addr);
                let r = match reply {
                    Ok(canonical) => Ok(AssetInfoRaw::Token { contract_addr: canonical }),
                    Err(e) => Err(e),
                };
                assert(view_ok(r) == raw_of(self@, view_ok(reply)));
                r
            },
        }
    }

    /// What `query_pool` may return: for a native kind whatever the oracle's
    /// `native_balance` gives for the pool and the denom; for a token the
    /// codec's refusal of the contract's address, or whatever the oracle's
    /// `token_balance` gives for the validated address and the pool.
    pub open spec fn query_pool_outcome<NB, TB, ND, TM, C, H, V>(
        &self,
        oracle: &BalanceOracle<NB, TB, ND, TM>,
        codec: &AddressCodec<C, H, V>,
        pool_addr: &String,
        r: Result<u128, AssetError>,
    ) -> bool where
        C: Fn(&String) -> Result<Vec<u8>, AssetError>,
        H: Fn(&Vec<u8>) -> Result<String, AssetError>,
        V: Fn(&String) -> Result<String, AssetError>,
        NB: Fn(&String, &String) -> Result<u128, AssetError>,
        TB: Fn(&String, &String) -> Result<u128, AssetError>,
        ND: Fn(&String, &String) -> Result<u8, AssetError>,
        TM: Fn(&String) -> Result<TokenInfo, AssetError>,
     {
        match *self {
            AssetInfo::NativeToken { denom } => call_ensures(
                oracle.native_balance,
                (pool_addr, &denom),
                r,
            ),
            AssetInfo::Token { contract_addr } => exists|v: Result<String, AssetError>|
                call_ensures(codec.validate, (&contract_addr,), v) && match v {
                    Ok(token) => call_ensures(oracle.token_balance, (&token, pool_addr), r),
                    Err(e) => r == Err::<u128, AssetError>(e),
                },
        }
    }

    /// The quantity of this kind that a pool holds.
    pub fn query_pool<NB, TB, ND, TM, C, H, V>(
        &self,
        oracle: &BalanceOracle<NB, TB, ND, TM>,
        codec: &AddressCodec<C, H, V>,
        pool_addr: &String,
    ) -> (r: Result<u128, AssetError>) where
        C: Fn(&String) -> Result<Vec<u8>, AssetError>,
        H: Fn(&Vec<u8>) -> Result<String, AssetError>,
        V: Fn(&String) -> Result<String, AssetError>,
        NB: Fn(&String, &String) -> Result<u128, AssetError>,
        TB: Fn(&String, &String) -> Result<u128, AssetError>,
        ND: Fn(&String, &String) -> Result<u8, AssetError>,
        TM: Fn(&String) -> Result<TokenInfo, AssetError>,
    
        requires
            oracle.callable(),
            codec.callable(),
        ensures
            self.query_pool_outcome(oracle, codec, pool_addr, r),
    {
        match self {
            AssetInfo::Token { contract_addr } => {
                let v = (codec.validate)(contract_addr);
                match v {
                    Ok(token) => {
                        let r = (oracle.token_balance)(&token, pool_addr);
                        assert(call_ensures(codec.validate, (contract_addr,), Ok::<String, AssetError>(token)));
                        r
                    },
                    Err(e) => {
                        assert(call_ensures(codec.validate, (contract_addr,), Err::<String, AssetError>(e)));
                        Err(e)
                    },
                }
            },
            AssetInfo::NativeToken { denom } => (oracle.native_balance)(pool_addr, denom),
        }
    }

    /// What `query_decimals` may return: for a native kind whatever the
    /// oracle's `native_decimals` gives for the account and the denom; for a
    /// token the `decimals` of the metadata that the oracle gives for the
    /// contract, or the oracle's error.
    pub open spec fn query_decimals_outcome<NB, TB, ND, TM>(
        &self,
        account_addr: &String,
        oracle: &BalanceOracle<NB, TB, ND, TM>,
        r: Result<u8, AssetError>,
    ) -> bool where
        NB: Fn(&String, &String) -> Result<u128, AssetError>,
        TB: Fn(&String, &String) -> Result<u128, AssetError>,
        ND: Fn(&String, &String) -> Result<u8, AssetError>,
        TM: Fn(&String) -> Result<TokenInfo, AssetError>,
    {
        match *self {
            AssetInfo::NativeToken { denom } => call_ensures(
                oracle.native_decimals,
                (account_addr, &denom),
                r,
            ),
            AssetInfo::Token { contract_addr } => exists|m: Result<TokenInfo, AssetError>|
                call_ensures(oracle.token_metadata, (&contract_addr,), m) && match m {
                    Ok(info) => r == Ok::<u8, AssetError>(info.decimals),
                    Err(e) => r == Err::<u8, AssetError>(e),
                },
        }
    }

    /// The decimal precision of this kind.
    pub fn query_decimals<NB, TB, ND, TM>(
        &self,
        account_addr: &String,
        oracle: &BalanceOracle<NB, TB, ND, TM>,
    ) -> (r: Result<u8, AssetError>) where
        NB: Fn(&String, &String) -> Result<u128, AssetError>,
        TB: Fn(&String, &String) -> Result<u128, AssetError>,
        ND: Fn(&String, &String) -> Result<u8, AssetError>,
        TM: Fn(&String) -> Result<TokenInfo, AssetError>,

        requires
            oracle.callable(),
        ensures
            self.query_decimals_outcome(account_addr, oracle, r),
    {
        match self {
            AssetInfo::NativeToken { denom } => (oracle.native_decimals)(account_addr, denom),
            AssetInfo::Token { contract_addr } => {
                let m = (oracle.token_metadata)(contract_addr);
                match m {
                    Ok(info) => {
                        assert(call_ensures(oracle.token_metadata, (contract_addr,), Ok::<TokenInfo, AssetError>(info)));
                        Ok(info.decimals)
                    },
                    Err(e) => {
                        assert(call_ensures(oracle.token_metadata, (contract_addr,), Err::<TokenInfo, AssetError>(e)));
                        Err(e)
                    },
                }
            },
        }
    }

    /// What `get_label` may return: for a native kind the denom's label; for
    /// a token the codec's refusal of the contract's address, the oracle's
    /// error, or the symbol in the metadata that the oracle gives for the
    /// validated address.
    pub open spec fn get_label_outcome<NB, TB, ND, TM, C, H, V>(
        &self,
        codec: &AddressCodec<C, H, V>,
        oracle: &BalanceOracle<NB, TB, ND, TM>,
        r: Result<String, AssetError>,
    ) -> bool where
        C: Fn(&String) -> Result<Vec<u8>, AssetError>,
        H: Fn(&Vec<u8>) -> Result<String, AssetError>,
        V: Fn(&String) -> Result<String, AssetError>,
        NB: Fn(&String, &String) -> Result<u128, AssetError>,
        TB: Fn(&String, &String) -> Result<u128, AssetError>,
        ND: Fn(&String, &String) -> Result<u8, AssetError>,
        TM: Fn(&String) -> Result<TokenInfo, AssetError>,
     {
        match *self {
            AssetInfo::NativeToken { denom } => view_ok(r) == Ok::<Seq<char>, AssetError>(
                native_label(denom@),
            ),
            AssetInfo::Token { contract_addr } => exists|v: Result<String, AssetError>|
                call_ensures(codec.validate, (&contract_addr,), v) && match v {
                    Ok(token) => exists|m: Result<TokenInfo, AssetError>|
                        call_ensures(oracle.token_metadata, (&token,), m) && match m {
                            Ok(info) => r == Ok::<String, AssetError>(info.symbol),
                            Err(e) => r == Err::<String, AssetError>(e),
                        },
                    Err(e) => r == Err::<String, AssetError>(e),
                },
        }
    }

    /// Gets an asset label, used to name pool pairs and liquidity tokens.
    pub fn get_label<NB, TB, ND, TM, C, H, V>(
        self,
        codec: &AddressCodec<C, H, V>,
        oracle: &BalanceOracle<NB, TB, ND, TM>,
    ) -> (r: Result<String, AssetError>) where
        C: Fn(&String) -> Result<Vec<u8>, AssetError>,
        H: Fn(&Vec<u8>) -> Result<String, AssetError>,
        V: Fn(&String) -> Result<String, AssetError>,
        NB: Fn(&String, &String) -> Result<u128, AssetError>,
        TB: Fn(&String, &String) -> Result<u128, AssetError>,
        ND: Fn(&String, &String) -> Result<u8, AssetError>,
        TM: Fn(&String) -> Result<TokenInfo, AssetError>,
    
        requires
            oracle.callable(),
            codec.callable(),
        ensures
            self.get_label_outcome(codec, oracle, r),
    {
        match self {
            AssetInfo::Token { contract_addr } => {
                let v = (codec.validate)(&contract_addr);
                match v {
                    Ok(token) => {
                        assert(call_ensures(codec.validate, (&contract_addr,), Ok::<String, AssetError>(token)));
                        let m = (oracle.token_metadata)(&token);
                        match m {
                            Ok(info) => {
                                assert(call_ensures(oracle.token_metadata, (&token,), Ok::<TokenInfo, AssetError>(info)));
                                Ok(info.symbol)
                            },
                            Err(e) => {
                                assert(call_ensures(oracle.token_metadata, (&token,), Err::<TokenInfo, AssetError>(e)));
                                Err(e)
                            },
                        }
                    },
                    Err(e) => {
                        assert(call_ensures(codec.validate, (&contract_addr,), Err::<String, AssetError>(e)));
                        Err(e)
                    },
                }
            },
            AssetInfo::NativeToken { denom } => {
                if is_ibc_token(denom.as_str()) {
                    Ok(get_ibc_token_label(denom.as_str()))
                } else {
                    Ok(denom)
                }
            },
        }
    }
}

impl AssetInfoRaw {
    /// What `to_normal` may return with a given codec: for a native kind the
    /// same denom; for a token whatever the codec's `humanize` made of the
    /// canonical address, its error included.
    pub open spec fn to_normal_outcome<C, H, V>(
        &self,
        codec: &AddressCodec<C, H, V>,
        r: Result<AssetInfo, AssetError>,
    ) -> bool where
        C: Fn(&String) -> Result<Vec<u8>, AssetError>,
        H: Fn(&Vec<u8>) -> Result<String, AssetError>,
        V: Fn(&String) -> Result<String, AssetError>,
     {
        match *self {
            AssetInfoRaw::NativeToken { denom } => view_ok(r) == Ok::<AssetInfoView, AssetError>(
                AssetInfoView::NativeToken { denom: denom@ },
            ),
            AssetInfoRaw::Token { contract_addr } => exists|reply: Result<String, AssetError>|
                call_ensures(codec.humanize, (&contract_addr,), reply) && view_ok(r) == normal_of(
                    self@,
                    view_ok(reply),
                ),
        }
    }

    /// The human-addressed form of this kind. Only a token's address goes to
    /// the codec.
    pub fn to_normal<C, H, V>(&self, codec: &AddressCodec<C, H, V>) -> (r: Result<
        AssetInfo,
        AssetError,
    >) where
        C: Fn(&String) -> Result<Vec<u8>, AssetError>,
        H: Fn(&Vec<u8>) -> Result<String, AssetError>,
        V: Fn(&String) -> Result<String, AssetError>,

        requires
            codec.callable(),
        ensures
            self.to_normal_outcome(codec, r),
    {
        match self {
            AssetInfoRaw::NativeToken { denom } => Ok(AssetInfo::NativeToken { denom: denom.clone() }),
            AssetInfoRaw::Token { contract_addr } => {
                let reply = (codec.humanize)(contract_addr);
                let r = match reply {
                    Ok(human) => Ok(AssetInfo::Token { contract_addr: human }),
                    Err(e) => Err(e),
                };
                assert(view_ok(r) == normal_of(self@, view_ok(reply)));
                r
            },
        }
    }

    /// The bytes that key this kind in storage: the denom's UTF-8 encoding,
    /// or the canonical address. Their length varies.
    pub fn as_bytes(&self) -> (r: &[u8])
        ensures
            r@ == raw_key(self@),
    {
        match self {
            AssetInfoRaw::NativeToken { denom } => denom.as_str().as_bytes(),
            AssetInfoRaw::Token { contract_addr } => contract_addr.as_slice(),
        }
    }

    /// Structural equality: the same tag, and the same denom or the same
    /// address bytes.
    pub fn equal(&self, asset: &AssetInfoRaw) -> (r: bool)
        ensures
            r == same_raw_kind(self@, asset@),
    {
        match self {
            AssetInfoRaw::Token { contract_addr } => {
                let self_contract_addr = contract_addr;
                match asset {
                    AssetInfoRaw::Token { contract_addr } => same_bytes(
                        self_contract_addr,
                        contract_addr,
                    ),
                    AssetInfoRaw::NativeToken { .. } => false,
                }
            },
            AssetInfoRaw::NativeToken { denom } => {
                let self_denom = denom;
                match asset {
                    AssetInfoRaw::Token { .. } => false,
                    AssetInfoRaw::NativeToken { denom } => *self_denom == *denom,
                }
            },
        }
    }
}

/// The storage key of a stored asset kind.
pub open spec fn raw_key(info: AssetInfoRawView) -> Seq<u8> {
    match info {
        AssetInfoRawView::NativeToken { denom } => vstd::utf8::encode_utf8(denom),
        AssetInfoRawView::Token { contract_addr } => contract_addr,
    }
}

/// Whether two byte strings are the same.
fn same_bytes(a: &Vec<u8>, b: &Vec<u8>) -> (r: bool)
    ensures
        r == (a@ == b@),
{
    if a.len() != b.len() {
        return false;
    }
    let mut i: usize = 0;
    while i < a.len()
        invariant
            a.len() == b.len(),
            i <= a.len(),
            forall|j: int| 0 <= j < i ==> a@[j] == b@[j],
        decreases a.len() - i,
    {
        if a[i] != b[i] {
            return false;
        }
        i += 1;
    }
    assert(a@ =~= b@);
    true
}

/// The instruction that moves an asset to a recipient: a bank send of one
/// coin for a native asset; for a token a call of its contract that carries
/// the encoded transfer and no funds, or an error where there is no payload.
pub open spec fn transfer_msg_of(
    asset: AssetView,
    recipient: Seq<char>,
    payload: Option<Seq<u8>>,
) -> Result<CosmosMsgView, AssetError> {
    match asset.info {
        AssetInfoView::NativeToken { denom } => Ok(
            CosmosMsgView::BankSend {
                to_address: recipient,
                amount: seq![CoinView { denom, amount: asset.amount }],
            },
        ),
        AssetInfoView::Token { contract_addr } => match payload {
            Some(msg) => Ok(
                CosmosMsgView::WasmExecute { contract_addr, msg, funds: Seq::empty() },
            ),
            None => Err(AssetError::Serialization),
        },
    }
}

/// Position `i` holds the first coin of the denom.
pub open spec fn first_of_denom(funds: Seq<Coin>, denom: Seq<char>, i: int) -> bool {
    &&& 0 <= i < funds.len()
    &&& funds[i].denom@ == denom
    &&& forall|j: int| 0 <= j < i ==> (#[trigger] funds[j]).denom@ != denom
}

/// No coin is of the denom.
pub open spec fn none_of_denom(funds: Seq<Coin>, denom: Seq<char>) -> bool {
    forall|j: int| 0 <= j < funds.len() ==> (#[trigger] funds[j]).denom@ != denom
}

/// The attached funds carry what the asset declares: a token declares no
/// native funds; for a native asset the first coin of its denom holds
/// exactly its amount, or there is no such coin and the amount is zero.
pub open spec fn sent_balance_matches(asset: AssetView, funds: Seq<Coin>) -> bool {
    match asset.info {
        AssetInfoView::Token { .. } => true,
        AssetInfoView::NativeToken { denom } => {
            ||| exists|i: int| first_of_denom(funds, denom, i) && funds[i].amount == asset.amount
            ||| none_of_denom(funds, denom) && asset.amount == 0
        },
    }
}

impl Asset {
    pub fn is_native_token(&self) -> (r: bool)
        ensures
            r == (self@.info is NativeToken),
    {
        self.info.is_native_token()
    }

    /// The asset as text: the amount in decimal, then the kind.
    pub fn to_string(&self) -> (r: String)
        ensures
            r@ == decimal_text(self.amount as nat) + id_of(self@.info),
    {
        let mut text = amount_text(self.amount);
        let kind = self.info.to_string();
        text.append(kind.as_str());
        text
    }

    /// The transfer instruction for this asset, given the encoded payload
    /// of the token transfer (`None` where encoding failed).
    pub fn transfer_message(self, recipient: String, payload: Option<Vec<u8>>) -> (r: Result<
        CosmosMsg,
        AssetError,
    >)
        ensures
            view_ok(r) == transfer_msg_of(
                self@,
                recipient@,
                match payload {
                    Some(bytes) => Some(bytes@),
                    None => None,
                },
            ),
    {
        let amount = self.amount;
        match self.info {
            AssetInfo::Token { contract_addr } => match payload {
                Some(msg) => {
                    let funds: Vec<Coin> = Vec::new();
                    assert(coins_view(funds@) =~= Seq::empty());
                    Ok(CosmosMsg::Wasm(WasmMsg::Execute { contract_addr, msg, funds }))
                },
                None => Err(AssetError::Serialization),
            },
            AssetInfo::NativeToken { denom } => {
                let coins = vec![Coin { amount, denom }];
                assert(coins_view(coins@) =~= seq![CoinView { denom: denom@, amount }]);
                Ok(CosmosMsg::Bank(BankMsg::Send { to_address: recipient, amount: coins }))
            },
        }
    }

    /// The instruction that sends this asset to the recipient.
    pub fn into_msg(self, recipient: String) -> (r: Result<CosmosMsg, AssetError>)
        ensures
            view_ok(r) == transfer_msg_of(
                self@,
                recipient@,
                cw20_transfer_payload(recipient@, self.amount),
            ),
    {
        let payload = if self.info.is_native_token() {
            None
        } else {
            match encode_cw20_transfer(&recipient, self.amount) {
                Ok(bytes) => Some(bytes),
                Err(_) => None,
            }
        };
        self.transfer_message(recipient, payload)
    }

    /// The same instruction as a fire-and-forget sub-message.
    pub fn into_submsg(self, recipient: String) -> (r: Result<SubMsg, AssetError>)
        ensures
            match transfer_msg_of(
                self@,
                recipient@,
                cw20_transfer_payload(recipient@, self.amount),
            ) {
                Ok(msg) => r matches Ok(sub) && sub.msg@ == msg && sub.id == 0
                    && sub.gas_limit is None && sub.reply_on == ReplyOn::Never,
                Err(e) => r matches Err(x) && x == e,
            },
    {
        match self.into_msg(recipient) {
            Ok(msg) => Ok(SubMsg::new(msg)),
            Err(e) => Err(e),
        }
    }

    /// Checks that the caller attached exactly the native funds that this
    /// asset declares.
    pub fn assert_sent_native_token_balance(&self, message_info: &MessageInfo) -> (r: Result<
        (),
        AssetError,
    >)
        ensures
            r == if sent_balance_matches(self@, message_info.funds@) {
                Ok::<(), AssetError>(())
            } else {
                Err::<(), AssetError>(AssetError::BalanceMismatch)
            },
    {
        match &self.info {
            AssetInfo::NativeToken { denom } => {
                let funds = &message_info.funds;
                let mut i: usize = 0;
                while i < funds.len()
                    invariant
                        i <= funds.len(),
                        funds@ == message_info.funds@,
                        self@.info == (AssetInfoView::NativeToken { denom: denom@ }),
                        forall|j: int| 0 <= j < i ==> (#[trigger] funds@[j]).denom@ != denom@,
                    decreases funds.len() - i,
                {
                    if funds[i].denom == *denom {
                        proof {
                            let k = i as int;
                            assert(first_of_denom(funds@, denom@, k));
                            assert forall|m: int| first_of_denom(funds@, denom@, m) implies m
                                == k by {
                                if m < k {
                                    assert(funds@[m].denom@ != denom@);
                                } else if m > k {
                                    assert(funds@[k].denom@ == denom@);
                                }
                            }
                            assert(!none_of_denom(funds@, denom@)) by {
                                assert(funds@[k].denom@ == denom@);
                            }
                        }
                        return if self.amount == funds[i].amount {
                            Ok(())
                        } else {
                            Err(AssetError::BalanceMismatch)
                        };
                    }
                    i += 1;
                }
                assert(none_of_denom(funds@, denom@));
                if self.amount == 0 {
                    Ok(())
                } else {
                    Err(AssetError::BalanceMismatch)
                }
            },
            AssetInfo::Token { .. } => Ok(()),
        }
    }

    /// What `to_raw` may return: what the kind's `to_raw` may return, with
    /// the amount unchanged beside it.
    pub open spec fn to_raw_outcome<C, H, V>(
        &self,
        codec: &AddressCodec<C, H, V>,
        r: Result<AssetRaw, AssetError>,
    ) -> bool where
        C: Fn(&String) -> Result<Vec<u8>, AssetError>,
        H: Fn(&Vec<u8>) -> Result<String, AssetError>,
        V: Fn(&String) -> Result<String, AssetError>,
     {
        exists|info: Result<AssetInfoRaw, AssetError>|
            self.info.to_raw_outcome(codec, info) && view_ok(r) == match view_ok(info) {
                Ok(i) => Ok::<AssetRawView, AssetError>(AssetRawView { info: i, amount: self.amount }),
                Err(e) => Err::<AssetRawView, AssetError>(e),
            }
    }

    /// The stored form of this asset.
    pub fn to_raw<C, H, V>(&self, codec: &AddressCodec<C, H, V>) -> (r: Result<
        AssetRaw,
        AssetError,
    >) where
        C: Fn(&String) -> Result<Vec<u8>, AssetError>,
        H: Fn(&Vec<u8>) -> Result<String, AssetError>,
        V: Fn(&String) -> Result<String, AssetError>,

        requires
            codec.callable(),
        ensures
            self.to_raw_outcome(codec, r),
    {
        let info = self.info.to_raw(codec);
        let r = match info {
            Ok(i) => Ok(AssetRaw { info: i, amount: self.amount }),
            Err(e) => Err(e),
        };
        assert(view_ok(r) == match view_ok(info) {
            Ok(i) => Ok::<AssetRawView, AssetError>(AssetRawView { info: i, amount: self.amount }),
            Err(e) => Err::<AssetRawView, AssetError>(e),
        });
        r
    }

    /// Gets an asset id, i.e. either denom or contract_addr: the key under
    /// which per-asset bookkeeping is kept. The amount plays no part.
    pub fn get_id(self) -> (r: String)
        ensures
            r@ == id_of(self@.info),
    {
        match self.info {
            AssetInfo::Token { contract_addr } => contract_addr,
            AssetInfo::NativeToken { denom } => denom,
        }
    }
}

impl AssetRaw {
    /// What `to_normal` may return: what the kind's `to_normal` may return,
    /// with the amount unchanged beside it.
    pub open spec fn to_normal_outcome<C, H, V>(
        &self,
        codec: &AddressCodec<C, H, V>,
        r: Result<Asset, AssetError>,
    ) -> bool where
        C: Fn(&String) -> Result<Vec<u8>, AssetError>,
        H: Fn(&Vec<u8>) -> Result<String, AssetError>,
        V: Fn(&String) -> Result<String, AssetError>,
     {
        exists|info: Result<AssetInfo, AssetError>|
            self.info.to_normal_outcome(codec, info) && view_ok(r) == match view_ok(info) {
                Ok(i) => Ok::<AssetView, AssetError>(AssetView { info: i, amount: self.amount }),
                Err(e) => Err::<AssetView, AssetError>(e),
            }
    }

    /// The human-addressed form of this asset.
    pub fn to_normal<C, H, V>(&self, codec: &AddressCodec<C, H, V>) -> (r: Result<
        Asset,
        AssetError,
    >) where
        C: Fn(&String) -> Result<Vec<u8>, AssetError>,
        H: Fn(&Vec<u8>) -> Result<String, AssetError>,
        V: Fn(&String) -> Result<String, AssetError>,

        requires
            codec.callable(),
        ensures
            self.to_normal_outcome(codec, r),
    {
        let info = self.info.to_normal(codec);
        let r = match info {
            Ok(i) => Ok(Asset { info: i, amount: self.amount }),
            Err(e) => Err(e),
        };
        assert(view_ok(r) == match view_ok(info) {
            Ok(i) => Ok::<AssetView, AssetError>(AssetView { info: i, amount: self.amount }),
            Err(e) => Err::<AssetView, AssetError>(e),
        });
        r
    }
}

} // verus!

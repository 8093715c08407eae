use vstd::prelude::*;
use crate::error::AssetError;

verus! {

/// What a token contract reports about itself.
#[derive(Clone, Debug, PartialEq, Eq)]
pub struct TokenInfo {
    pub name: String,
    pub symbol: String,
    pub decimals: u8,
    pub total_supply: u128,
}

/// The address service: three functions between human-readable and
/// canonical addresses, each of which may refuse its input.
pub struct AddressCodec<C, H, V> {
    /// Human-readable address to canonical bytes.
    pub canonicalize: C,
    /// Canonical bytes to human-readable address.
    pub humanize: H,
    /// Checks a human-readable address and hands it back.
    pub validate: V,
}

impl<C, H, V> AddressCodec<C, H, V> where
    C: Fn(&String) -> Result<Vec<u8>, AssetError>,
    H: Fn(&Vec<u8>) -> Result<String, AssetError>,
    V: Fn(&String) -> Result<String, AssetError>,
 {
    /// Every function of the codec may be called on every input.
    pub open spec fn callable(&self) -> bool {
        &&& forall|s: String| call_requires(self.canonicalize, (&s,))
        &&& forall|b: Vec<u8>| call_requires(self.humanize, (&b,))
        &&& forall|s: String| call_requires(self.validate, (&s,))
    }

    /// Whatever bytes `canonicalize` makes of an address, `humanize` turns
    /// the same bytes back into the same characters.
    pub open spec fn consistent(&self) -> bool {
        forall|s: String, c: Vec<u8>, b: Vec<u8>, h: Result<String, AssetError>|
            #![trigger call_ensures(self.canonicalize, (&s,), Ok(c)), call_ensures(self.humanize, (&b,), h)]
            call_ensures(self.canonicalize, (&s,), Ok(c)) && b@ == c@ && call_ensures(
                self.humanize,
                (&b,),
                h,
            ) ==> h is Ok && h->Ok_0@ == s@
    }
}

/// The balance service: lookups of native and token balances, of decimal
/// precision and of token metadata.
pub struct BalanceOracle<NB, TB, ND, TM> {
    /// Native balance of a holder in a denom: `(holder, denom)`.
    pub native_balance: NB,
    /// Token balance of a holder: `(token, holder)`.
    pub token_balance: TB,
    /// Registered precision of a denom: `(account, denom)`.
    pub native_decimals: ND,
    /// Metadata of a token contract.
    pub token_metadata: TM,
}

impl<NB, TB, ND, TM> BalanceOracle<NB, TB, ND, TM> where
    NB: Fn(&String, &String) -> Result<u128, AssetError>,
    TB: Fn(&String, &String) -> Result<u128, AssetError>,
    ND: Fn(&String, &String) -> Result<u8, AssetError>,
    TM: Fn(&String) -> Result<TokenInfo, AssetError>,
 {
    /// Every function of the oracle may be called on every input.
    pub open spec fn callable(&self) -> bool {
        &&& forall|a: String, b: String| call_requires(self.native_balance, (&a, &b))
        &&& forall|a: String, b: String| call_requires(self.token_balance, (&a, &b))
        &&& forall|a: String, b: String| call_requires(self.native_decimals, (&a, &b))
        &&& forall|a: String| call_requires(self.token_metadata, (&a,))
    }
}

} // verus!

use vstd::prelude::*;
use crate::asset::{Asset, AssetInfo, AssetInfoRaw};
use crate::collaborators::{AddressCodec, BalanceOracle, TokenInfo};
use crate::error::AssetError;

verus! {

/// A two-sided pool: its two asset kinds in order, the pool contract, the
/// liquidity token, and the decimal precision of each asset.
#[derive(Clone, Debug, PartialEq, Eq)]
pub struct PairInfo {
    pub asset_infos: [AssetInfo; 2],
    pub contract_addr: String,
    pub liquidity_token: String,
    pub asset_decimals: [u8; 2],
}

/// A pool as it is stored, with canonical addresses.
#[derive(Clone, Debug, PartialEq, Eq)]
pub struct PairInfoRaw {
    pub asset_infos: [AssetInfoRaw; 2],
    pub contract_addr: Vec<u8>,
    pub liquidity_token: Vec<u8>,
    pub asset_decimals: [u8; 2],
}

impl PairInfoRaw {
    /// What `to_normal` may return. The codec is asked for the liquidity
    /// token, the pool contract, the first kind and the second kind, in this
    /// order; the first refusal is the result. Otherwise the pool holds the
    /// four answers and the same precisions.
    pub open spec fn to_normal_outcome<C, H, V>(
        &self,
        codec: &AddressCodec<C, H, V>,
        r: Result<PairInfo, AssetError>,
    ) -> bool where
        C: Fn(&String) -> Result<Vec<u8>, AssetError>,
        H: Fn(&Vec<u8>) -> Result<String, AssetError>,
        V: Fn(&String) -> Result<String, AssetError>,
     {
        exists|l: Result<String, AssetError>|
            call_ensures(codec.humanize, (&self.liquidity_token,), l) && match l {
                Err(e) => r matches Err(x) && x == e,
                Ok(liquidity_token) => exists|c: Result<String, AssetError>|
                    call_ensures(codec.humanize, (&self.contract_addr,), c) && match c {
                        Err(e) => r matches Err(x) && x == e,
                        Ok(contract_addr) => exists|n0: Result<AssetInfo, AssetError>|
                            self.asset_infos[0].to_normal_outcome(codec, n0) && match n0 {
                                Err(e) => r matches Err(x) && x == e,
                                Ok(info_0) => exists|n1: Result<AssetInfo, AssetError>|
                                    self.asset_infos[1].to_normal_outcome(codec, n1) && match n1 {
                                        Err(e) => r matches Err(x) && x == e,
                                        Ok(info_1) => r matches Ok(pair) && pair.liquidity_token
                                            == liquidity_token && pair.contract_addr
                                            == contract_addr && pair.asset_infos[0] == info_0
                                            && pair.asset_infos[1] == info_1
                                            && pair.asset_decimals == self.asset_decimals,
                                    },
                            },
                    },
            }
    }

    /// The human-addressed form of this pool.
    pub fn to_normal<C, H, V>(&self, codec: &AddressCodec<C, H, V>) -> (r: Result<
        PairInfo,
        AssetError,
    >) where
        C: Fn(&String) -> Result<Vec<u8>, AssetError>,
        H: Fn(&Vec<u8>) -> Result<String, AssetError>,
        V: Fn(&String) -> Result<String, AssetError>,

        requires
            codec.callable(),
        ensures
            self.to_normal_outcome(codec, r),
    {
        let liquidity_token = match (codec.humanize)(&self.liquidity_token) {
            Ok(human) => human,
            Err(e) => {
                return Err(e);
            },
        };
        let contract_addr = match (codec.humanize)(&self.contract_addr) {
            Ok(human) => human,
            Err(e) => {
                return Err(e);
            },
        };
        let info_0 = match self.asset_infos[0].to_normal(codec) {
            Ok(info) => info,
            Err(e) => {
                return Err(e);
            },
        };
        let info_1 = match self.asset_infos[1].to_normal(codec) {
            Ok(info) => info,
            Err(e) => {
                return Err(e);
            },
        };
        Ok(
            PairInfo {
                liquidity_token,
                contract_addr,
                asset_infos: [info_0, info_1],
                asset_decimals: self.asset_decimals,
            },
        )
    }

    /// What `query_pools` may return. Both kinds are humanized, the first
    /// before the second; then the pool's balance of the first is queried,
    /// then that of the second, each as `AssetInfo::query_pool` does it; the
    /// first failure is the result. Otherwise the two assets come in the
    /// order of the kinds, each kind beside its own balance.
    pub open spec fn query_pools_outcome<NB, TB, ND, TM, C, H, V>(
        &self,
        oracle: &BalanceOracle<NB, TB, ND, TM>,
        codec: &AddressCodec<C, H, V>,
        contract_addr: &String,
        r: Result<[Asset; 2], AssetError>,
    ) -> bool where
        C: Fn(&String) -> Result<Vec<u8>, AssetError>,
        H: Fn(&Vec<u8>) -> Result<String, AssetError>,
        V: Fn(&String) -> Result<String, AssetError>,
        NB: Fn(&String, &String) -> Result<u128, AssetError>,
        TB: Fn(&String, &String) -> Result<u128, AssetError>,
        ND: Fn(&String, &String) -> Result<u8, AssetError>,
        TM: Fn(&String) -> Result<TokenInfo, AssetError>,
     {
        exists|n0: Result<AssetInfo, AssetError>|
            self.asset_infos[0].to_normal_outcome(codec, n0) && match n0 {
                Err(e) => r matches Err(x) && x == e,
                Ok(info_0) => exists|n1: Result<AssetInfo, AssetError>|
                    self.asset_infos[1].to_normal_outcome(codec, n1) && match n1 {
                        Err(e) => r matches Err(x) && x == e,
                        Ok(info_1) => exists|b0: Result<u128, AssetError>|
                            info_0.query_pool_outcome(oracle, codec, contract_addr, b0)
                                && match b0 {
                                Err(e) => r matches Err(x) && x == e,
                                Ok(amount_0) => exists|b1: Result<u128, AssetError>|
                                    info_1.query_pool_outcome(oracle, codec, contract_addr, b1)
                                        && match b1 {
                                        Err(e) => r matches Err(x) && x == e,
                                        Ok(amount_1) => r matches Ok(assets) && assets[0] == (
                                        Asset { info: info_0, amount: amount_0 }) && assets[1]
                                            == (Asset { info: info_1, amount: amount_1 }),
                                    },
                            },
                    },
            }
    }

    /// The pool's holdings of its two assets, in the order of its kinds.
    pub fn query_pools<NB, TB, ND, TM, C, H, V>(
        &self,
        oracle: &BalanceOracle<NB, TB, ND, TM>,
        codec: &AddressCodec<C, H, V>,
        contract_addr: &String,
    ) -> (r: Result<[Asset; 2], AssetError>) where
        C: Fn(&String) -> Result<Vec<u8>, AssetError>,
        H: Fn(&Vec<u8>) -> Result<String, AssetError>,
        V: Fn(&String) -> Result<String, AssetError>,
        NB: Fn(&String, &String) -> Result<u128, AssetError>,
        TB: Fn(&String, &String) -> Result<u128, AssetError>,
        ND: Fn(&String, &String) -> Result<u8, AssetError>,
        TM: Fn(&String) -> Result<TokenInfo, AssetError>,
    
        requires
            oracle.callable(),
            codec.callable(),
        ensures
            self.query_pools_outcome(oracle, codec, contract_addr, r),
    {
        let info_0 = match self.asset_infos[0].to_normal(codec) {
            Ok(info) => info,
            Err(e) => {
                return Err(e);
            },
        };
        let info_1 = match self.asset_infos[1].to_normal(codec) {
            Ok(info) => info,
            Err(e) => {
                return Err(e);
            },
        };
        let amount_0 = match info_0.query_pool(oracle, codec, contract_addr) {
            Ok(amount) => amount,
            Err(e) => {
                return Err(e);
            },
        };
        let amount_1 = match info_1.query_pool(oracle, codec, contract_addr) {
            Ok(amount) => amount,
            Err(e) => {
                return Err(e);
            },
        };
        Ok([Asset { amount: amount_0, info: info_0 }, Asset { amount: amount_1, info: info_1 }])
    }
}

} // verus!

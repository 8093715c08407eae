use vstd::prelude::*;
use crate::asset::{
    same_kind, same_raw_kind, Asset, AssetInfo, AssetInfoRaw, AssetInfoRawView, AssetInfoView,
    AssetRaw, AssetRawView, AssetView,
};
use crate::collaborators::AddressCodec;
use crate::error::{view_ok, AssetError};

verus! {

/// Every kind is the same as itself.
pub proof fn lemma_equal_reflexive(a: AssetInfoView)
    ensures
        same_kind(a, a),
{
}

/// Sameness of kinds does not depend on the order of the two.
pub proof fn lemma_equal_symmetric(a: AssetInfoView, b: AssetInfoView)
    ensures
        same_kind(a, b) == same_kind(b, a),
{
}

/// Kinds of different tags are never the same, whatever their characters.
pub proof fn lemma_equal_distinguishes_tags(a: AssetInfoView, b: AssetInfoView)
    requires
        (a is Token) != (b is Token),
    ensures
        !same_kind(a, b),
{
}

/// Two kinds are the same exactly when they are one value.
pub proof fn lemma_equal_is_identity(a: AssetInfoView, b: AssetInfoView)
    ensures
        same_kind(a, b) <==> a == b,
{
}

/// Every stored kind is the same as itself, sameness of stored kinds is
/// symmetric, and stored kinds of different tags are never the same.
pub proof fn lemma_raw_equal_laws(a: AssetInfoRawView, b: AssetInfoRawView)
    ensures
        same_raw_kind(a, a),
        same_raw_kind(a, b) == same_raw_kind(b, a),
        (a is Token) != (b is Token) ==> !same_raw_kind(a, b),
        same_raw_kind(a, b) <==> a == b,
{
}

/// With a consistent codec, a kind that was stored comes back the same:
/// whatever `to_raw` returned on success, `to_normal` of it succeeds with a
/// kind that `equal` accepts.
pub proof fn lemma_info_round_trip<C, H, V>(
    codec: &AddressCodec<C, H, V>,
    a: AssetInfo,
    raw: AssetInfoRaw,
    back: Result<AssetInfo, AssetError>,
) where
        C: Fn(&String) -> Result<Vec<u8>, AssetError>,
        H: Fn(&Vec<u8>) -> Result<String, AssetError>,
        V: Fn(&String) -> Result<String, AssetError>,

    requires
        codec.consistent(),
        a.to_raw_outcome(codec, Ok(raw)),
        raw.to_normal_outcome(codec, back),
    ensures
        back is Ok,
        same_kind(back->Ok_0@, a@),
{
}

/// With a consistent codec, an asset that was stored comes back the same:
/// the same kind, as `equal` decides it, and the same amount.
pub proof fn lemma_asset_round_trip<C, H, V>(
    codec: &AddressCodec<C, H, V>,
    a: Asset,
    raw: AssetRaw,
    back: Result<Asset, AssetError>,
) where
        C: Fn(&String) -> Result<Vec<u8>, AssetError>,
        H: Fn(&Vec<u8>) -> Result<String, AssetError>,
        V: Fn(&String) -> Result<String, AssetError>,

    requires
        codec.consistent(),
        a.to_raw_outcome(codec, Ok(raw)),
        raw.to_normal_outcome(codec, back),
    ensures
        back is Ok,
        same_kind(back->Ok_0@.info, a@.info),
        back->Ok_0.amount == a.amount,
{
    let stored = choose|info: Result<AssetInfoRaw, AssetError>|
        a.info.to_raw_outcome(codec, info) && view_ok(Ok::<AssetRaw, AssetError>(raw)) == match view_ok(
            info,
        ) {
            Ok(i) => Ok::<AssetRawView, AssetError>(AssetRawView { info: i, amount: a.amount }),
            Err(e) => Err::<AssetRawView, AssetError>(e),
        };
    let bi = choose|info: Result<AssetInfo, AssetError>|
        raw.info.to_normal_outcome(codec, info) && view_ok(back) == match view_ok(info) {
            Ok(i) => Ok::<AssetView, AssetError>(AssetView { info: i, amount: raw.amount }),
            Err(e) => Err::<AssetView, AssetError>(e),
        };
    lemma_info_round_trip_by_view(codec, a.info, stored->Ok_0, raw.info, bi);
}

/// The round trip of a kind, for a stored kind known only by its view.
proof fn lemma_info_round_trip_by_view<C, H, V>(
    codec: &AddressCodec<C, H, V>,
    a: AssetInfo,
    stored: AssetInfoRaw,
    raw: AssetInfoRaw,
    back: Result<AssetInfo, AssetError>,
) where
        C: Fn(&String) -> Result<Vec<u8>, AssetError>,
        H: Fn(&Vec<u8>) -> Result<String, AssetError>,
        V: Fn(&String) -> Result<String, AssetError>,

    requires
        codec.consistent(),
        a.to_raw_outcome(codec, Ok(stored)),
        stored@ == raw@,
        raw.to_normal_outcome(codec, back),
    ensures
        back is Ok,
        same_kind(back->Ok_0@, a@),
{
}

} // verus!

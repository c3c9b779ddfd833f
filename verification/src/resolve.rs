//! Release-asset resolution: three download links extracted from a release
//! response at fixed, configured asset indices.
//!
//! The response body is JSON; an outside parser reads it, and each lookup's
//! outcome is handed as a plain value to `release_data_from_lookups`, which
//! states exactly which result every combination of outcomes produces.

use vstd::prelude::*;
use crate::errors::AssetSlot;
use crate::errors::ResolutionError;
use crate::errors::ResponseField;

verus! {

/// Index of the standard-edition primary asset in the release's asset list.
pub const DEF_VERSION_ASSET_ID: usize = 1;

/// Index of the deluxe-edition primary asset in the release's asset list.
pub const DLX_VERSION_ASSET_ID: usize = 0;

/// Index of the secondary (sprite-pack) asset in the release's asset list.
pub const SPR_ASSET_ID: usize = 2;

/// Whether the bytes parse as a JSON document. What serde_json::from_slice
/// returns depends on the bytes alone, so the outcome may bear a name.
pub uninterp spec fn spec_body_is_json(body: Seq<u8>) -> bool;

/// Whether the parsed document carries an `assets` field. A function of the
/// bytes alone; false wherever the bytes are not JSON.
pub uninterp spec fn spec_assets_present(body: Seq<u8>) -> bool;

/// What looking the download link of the asset at `index` up in the parsed
/// document yields. A function of the bytes and the index alone;
/// `MissingAsset` wherever the bytes are not JSON or carry no assets list.
pub uninterp spec fn spec_lookup(body: Seq<u8>, index: int) -> LinkLookup;

/// Relies on serde_json::from_slice and serde_json::Value::get with the key
/// `assets`: whether the bytes parse as JSON, and whether the document has
/// an `assets` field. Both depend on the bytes alone.
#[verifier::external_body]
fn classify_body(body: &[u8]) -> (r: (bool, bool))
    ensures
        r.0 == spec_body_is_json(body@),
        r.1 == spec_assets_present(body@),
{
    match serde_json::from_slice::<serde_json::Value>(body) {
        Ok(v) => (true, v.get("assets").is_some()),
        Err(_) => (false, false),
    }
}

/// Relies on serde_json::from_slice, serde_json::Value::get with the key
/// `assets`, with `index`, and with the key `browser_download_url`, and
/// serde_json::Value::as_str: one asset's link lookup, classified into the
/// outcome it hit first. Every step depends on the bytes and the index
/// alone.
#[verifier::external_body]
fn lookup_asset_link(body: &[u8], index: usize) -> (r: LinkLookup)
    ensures
        r == spec_lookup(body@, index as int),
{
    let parsed: Result<serde_json::Value, _> = serde_json::from_slice(body);
    let asset = match parsed.ok().as_ref().and_then(|v| v.get("assets")).and_then(|a| a.get(index))
    {
        None => return LinkLookup::MissingAsset,
        Some(a) => a.clone(),
    };
    match asset.get("browser_download_url") {
        None => LinkLookup::MissingLink,
        Some(link) => match link.as_str() {
            None => LinkLookup::LinkNotText,
            Some(s) => LinkLookup::Found(s.to_owned()),
        },
    }
}

/// The three download links of one release, consumed within a single run.
#[derive(Clone, Debug, PartialEq, Eq)]
pub struct ReleaseData {
    pub def_dl_link: String,
    pub dlx_dl_link: String,
    pub spr_dl_link: String,
}

/// What looking one asset's download link up in the response yielded.
#[derive(Clone, Debug, PartialEq, Eq)]
pub enum LinkLookup {
    /// The assets list has no entry at the configured index.
    MissingAsset,
    /// The asset has no download-link field.
    MissingLink,
    /// The download-link field is not a string.
    LinkNotText,
    /// The link, verbatim.
    Found(String),
}

/// The error that a failed lookup of the given slot resolves to.
pub open spec fn slot_error(slot: AssetSlot, l: LinkLookup) -> ResolutionError {
    match l {
        LinkLookup::MissingAsset => ResolutionError::MalformedResponse(ResponseField::Asset(slot)),
        LinkLookup::MissingLink => ResolutionError::MalformedResponse(ResponseField::Link(slot)),
        _ => ResolutionError::MalformedResponse(ResponseField::LinkText(slot)),
    }
}

/// The release data that a response with the given lookup outcomes resolves
/// to: all three links when every lookup found one, otherwise the error of
/// the first failure, checked in the order standard, deluxe, secondary.
pub open spec fn spec_release_data(
    assets_present: bool,
    def: LinkLookup,
    dlx: LinkLookup,
    spr: LinkLookup,
) -> Result<ReleaseData, ResolutionError> {
    if !assets_present {
        Err(ResolutionError::MalformedResponse(ResponseField::Assets))
    } else {
        match (def, dlx, spr) {
            (LinkLookup::Found(d), LinkLookup::Found(x), LinkLookup::Found(s)) => Ok(
                ReleaseData { def_dl_link: d, dlx_dl_link: x, spr_dl_link: s },
            ),
            (LinkLookup::Found(_), LinkLookup::Found(_), l) => Err(
                slot_error(AssetSlot::Spritepack, l),
            ),
            (LinkLookup::Found(_), l, _) => Err(slot_error(AssetSlot::DlxVersion, l)),
            (l, _, _) => Err(slot_error(AssetSlot::DefVersion, l)),
        }
    }
}

/// Combines the three lookup outcomes into the stage's result, exactly as
/// `spec_release_data` states.
pub fn release_data_from_lookups(
    assets_present: bool,
    def: LinkLookup,
    dlx: LinkLookup,
    spr: LinkLookup,
) -> (r: Result<ReleaseData, ResolutionError>)
    ensures
        r == spec_release_data(assets_present, def, dlx, spr),
{
    if !assets_present {
        return Err(ResolutionError::MalformedResponse(ResponseField::Assets));
    }
    match (def, dlx, spr) {
        (LinkLookup::Found(d), LinkLookup::Found(x), LinkLookup::Found(s)) => Ok(
            ReleaseData { def_dl_link: d, dlx_dl_link: x, spr_dl_link: s },
        ),
        (LinkLookup::Found(_), LinkLookup::Found(_), l) => Err(
            exec_slot_error(AssetSlot::Spritepack, l),
        ),
        (LinkLookup::Found(_), l, _) => Err(exec_slot_error(AssetSlot::DlxVersion, l)),
        (l, _, _) => Err(exec_slot_error(AssetSlot::DefVersion, l)),
    }
}

/// Exec mirror of `slot_error`.
fn exec_slot_error(slot: AssetSlot, l: LinkLookup) -> (r: ResolutionError)
    ensures
        r == slot_error(slot, l),
{
    match l {
        LinkLookup::MissingAsset => ResolutionError::MalformedResponse(ResponseField::Asset(slot)),
        LinkLookup::MissingLink => ResolutionError::MalformedResponse(ResponseField::Link(slot)),
        _ => ResolutionError::MalformedResponse(ResponseField::LinkText(slot)),
    }
}

/// Resolves the three configured asset links out of a release response
/// body: a body that is not JSON fails with `InvalidJson` before any
/// lookup, and any other body resolves to exactly what its three named
/// lookups combine to under `spec_release_data`.
pub fn resolve_release(body: &[u8], def_index: usize, dlx_index: usize, spr_index: usize) -> (r:
    Result<ReleaseData, ResolutionError>)
    ensures
        !spec_body_is_json(body@) ==> r == Err::<ReleaseData, ResolutionError>(
            ResolutionError::InvalidJson,
        ),
        spec_body_is_json(body@) ==> r == spec_release_data(
            spec_assets_present(body@),
            spec_lookup(body@, def_index as int),
            spec_lookup(body@, dlx_index as int),
            spec_lookup(body@, spr_index as int),
        ),
{
    let (is_json, assets_present) = classify_body(body);
    if !is_json {
        return Err(ResolutionError::InvalidJson);
    }
    let def = lookup_asset_link(body, def_index);
    let dlx = lookup_asset_link(body, dlx_index);
    let spr = lookup_asset_link(body, spr_index);
    release_data_from_lookups(assets_present, def, dlx, spr)
}

/// Selects the primary download link for the chosen edition and keeps the
/// secondary link alongside it.
pub fn choose_links(data: ReleaseData, deluxe: bool) -> (r: (String, String))
    ensures
        deluxe ==> r.0 == data.dlx_dl_link,
        !deluxe ==> r.0 == data.def_dl_link,
        r.1 == data.spr_dl_link,
{
    if deluxe {
        (data.dlx_dl_link, data.spr_dl_link)
    } else {
        (data.def_dl_link, data.spr_dl_link)
    }
}

} // verus!

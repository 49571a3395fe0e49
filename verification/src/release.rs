//! Choice of the download among the assets of a release, as the hosting
//! service describes it in JSON.

use vstd::prelude::*;
use vstd::string::*;
use crate::text::{contains, occurs_in, text_view};

verus! {

#[verifier::external_type_specification]
#[verifier::external_body]
pub struct ExJsonValue(serde_json::Value);

#[verifier::external_type_specification]
#[verifier::external_body]
pub struct ExJsonError(serde_json::Error);

/// The JSON value that `text` parses to, or `None` where it is not one JSON
/// value.
pub uninterp spec fn json_parsed(text: Seq<char>) -> Option<serde_json::Value>;

/// The member `key` of a JSON object, or `None` where the value is no object
/// or has no such member.
pub uninterp spec fn json_member(value: serde_json::Value, key: Seq<char>) -> Option<
    serde_json::Value,
>;

/// The elements of a JSON array, or `None` where the value is no array.
pub uninterp spec fn json_items(value: serde_json::Value) -> Option<Seq<serde_json::Value>>;

/// The text of a JSON string, or `None` where the value is no string.
pub uninterp spec fn json_text(value: serde_json::Value) -> Option<Seq<char>>;

/// `serde_json::from_str` at type `Value`: the result is a function of the
/// text alone, and it is an error exactly where the text is not one JSON
/// value.
#[verifier::external_body]
fn parse_json(text: &str) -> (parsed: Result<serde_json::Value, serde_json::Error>)
    ensures
        match parsed {
            Ok(value) => json_parsed(text@) == Some(value),
            Err(_) => json_parsed(text@).is_none(),
        },
{
    serde_json::from_str::<serde_json::Value>(text)
}

/// `ToString::to_string` on a `serde_json::Error`: the text of the error.
/// Nothing is claimed of it.
#[verifier::external_body]
fn json_error_text(error: &serde_json::Error) -> (text: String) {
    error.to_string()
}

/// `serde_json::Value::get` with a string key: the member of that name where
/// the value is an object that has one.
#[verifier::external_body]
fn json_get<'a>(value: &'a serde_json::Value, key: &str) -> (member: Option<&'a serde_json::Value>)
    ensures
        match member {
            Some(found) => json_member(*value, key@) == Some(*found),
            None => json_member(*value, key@).is_none(),
        },
{
    value.get(key)
}

/// `serde_json::Value::as_array`: the elements where the value is an array.
#[verifier::external_body]
fn json_as_array(value: &serde_json::Value) -> (items: Option<&Vec<serde_json::Value>>)
    ensures
        match items {
            Some(found) => json_items(*value) == Some(found@),
            None => json_items(*value).is_none(),
        },
{
    value.as_array()
}

/// `serde_json::Value::as_str`: the text where the value is a string.
#[verifier::external_body]
fn json_as_str(value: &serde_json::Value) -> (text: Option<&str>)
    ensures
        match text {
            Some(found) => json_text(*value) == Some(found@),
            None => json_text(*value).is_none(),
        },
{
    value.as_str()
}

/// Why no download could be chosen.
#[derive(Debug, PartialEq, Eq)]
pub enum ReleaseError {
    /// The description is not JSON; the parser's message.
    InvalidJson(String),
    /// The description has no member `assets`.
    MissingAssets,
    /// The member `assets` is no array.
    AssetsNotArray,
}

impl ReleaseError {
    /// The text of the error.
    pub fn message(&self) -> (text: String)
        ensures
            match self {
                ReleaseError::InvalidJson(reason) => text@ == reason@,
                ReleaseError::MissingAssets => text@
                    == "Unexpected response from github: expected assets field."@,
                ReleaseError::AssetsNotArray => text@
                    == "Expected github assets to be an array, but it was not."@,
            },
    {
        match self {
            ReleaseError::InvalidJson(reason) => reason.clone(),
            ReleaseError::MissingAssets => String::from_str(
                "Unexpected response from github: expected assets field.",
            ),
            ReleaseError::AssetsNotArray => String::from_str(
                "Expected github assets to be an array, but it was not.",
            ),
        }
    }
}

/// The view of a list of search words.
pub open spec fn words_view(search: &[&str]) -> Seq<Seq<char>> {
    Seq::new(search@.len(), |i: int| search@[i]@)
}

/// Every word of `search` occurs in `name`.
pub open spec fn name_matches(name: Seq<char>, search: Seq<Seq<char>>) -> bool {
    forall|i: int| 0 <= i < search.len() ==> occurs_in(#[trigger] search[i], name)
}

/// What the choice reads of one asset of a release: its name and its
/// download address, each where it is there and is text.
#[derive(Debug, PartialEq, Eq)]
pub struct ReleaseAsset {
    pub name: Option<String>,
    pub url: Option<String>,
}

/// Mathematical value of a [`ReleaseAsset`].
pub struct AssetView {
    pub name: Option<Seq<char>>,
    pub url: Option<Seq<char>>,
}

impl View for ReleaseAsset {
    type V = AssetView;

    open spec fn view(&self) -> AssetView {
        AssetView { name: text_view(self.name), url: text_view(self.url) }
    }
}

/// The views of a list of assets.
pub open spec fn assets_view(assets: Seq<ReleaseAsset>) -> Seq<AssetView> {
    Seq::new(assets.len(), |i: int| assets[i]@)
}

/// The download address of an asset, where the asset has a name that
/// matches `search`, and an address.
pub open spec fn asset_url(asset: AssetView, search: Seq<Seq<char>>) -> Option<Seq<char>> {
    match asset.name {
        Some(name) => if name_matches(name, search) {
            asset.url
        } else {
            None
        },
        None => None,
    }
}

/// The address of the first asset from position `from` on that has one for
/// `search`.
pub open spec fn first_url(assets: Seq<AssetView>, search: Seq<Seq<char>>, from: int) -> Option<
    Seq<char>,
>
    decreases assets.len() - from,
{
    if from < 0 || from >= assets.len() {
        None
    } else {
        match asset_url(assets[from], search) {
            Some(url) => Some(url),
            None => first_url(assets, search, from + 1),
        }
    }
}

/// The member `key` of a JSON value where it is there and is text.
pub open spec fn text_member(value: serde_json::Value, key: Seq<char>) -> Option<Seq<char>> {
    match json_member(value, key) {
        Some(member) => json_text(member),
        None => None,
    }
}

/// What the choice reads of an asset given in JSON.
pub open spec fn asset_of(value: serde_json::Value) -> AssetView {
    AssetView {
        name: text_member(value, "name"@),
        url: text_member(value, "browser_download_url"@),
    }
}

/// The assets of a release given in JSON, in their order.
pub open spec fn assets_of(release: serde_json::Value) -> Result<Seq<AssetView>, ReleaseError> {
    match json_member(release, "assets"@) {
        None => Err(ReleaseError::MissingAssets),
        Some(assets) => match json_items(assets) {
            None => Err(ReleaseError::AssetsNotArray),
            Some(items) => Ok(Seq::new(items.len(), |i: int| asset_of(items[i]))),
        },
    }
}

/// What choosing a download from a parsed description gives.
pub open spec fn chosen_url(release: serde_json::Value, search: Seq<Seq<char>>) -> Result<
    Option<Seq<char>>,
    ReleaseError,
> {
    match assets_of(release) {
        Err(e) => Err(e),
        Ok(assets) => Ok(first_url(assets, search, 0)),
    }
}

/// The view of a chosen download.
pub open spec fn choice_view(choice: Result<Option<String>, ReleaseError>) -> Result<
    Option<Seq<char>>,
    ReleaseError,
> {
    match choice {
        Ok(url) => Ok(text_view(url)),
        Err(e) => Err(e),
    }
}

/// The view of a list of assets read, or of the error.
pub open spec fn listing_view(listing: Result<Vec<ReleaseAsset>, ReleaseError>) -> Result<
    Seq<AssetView>,
    ReleaseError,
> {
    match listing {
        Ok(assets) => Ok(assets_view(assets@)),
        Err(e) => Err(e),
    }
}

/// Whether every word of `search` occurs in `name`.
pub fn matches_all(name: &str, search: &[&str]) -> (all: bool)
    ensures
        all == name_matches(name@, words_view(search)),
{
    let mut i: usize = 0;
    while i < search.len()
        invariant
            i <= search@.len(),
            forall|j: int| 0 <= j < i ==> occurs_in(#[trigger] words_view(search)[j], name@),
        decreases search@.len() - i,
    {
        if !contains(name, search[i]) {
            assert(!occurs_in(words_view(search)[i as int], name@));
            return false;
        }
        i += 1;
    }
    true
}

/// The download address of an asset for `search`, if it has one.
pub fn asset_download_url(asset: &ReleaseAsset, search: &[&str]) -> (url: Option<String>)
    ensures
        text_view(url) == asset_url(asset@, words_view(search)),
{
    match &asset.name {
        Some(name) => {
            if matches_all(name.as_str(), search) {
                match &asset.url {
                    Some(url) => Some(url.clone()),
                    None => None,
                }
            } else {
                None
            }
        },
        None => None,
    }
}

/// Chooses the download among the assets of a release: the address of the
/// first asset whose name contains every word of `search` and that has an
/// address. `None` where no asset qualifies.
pub fn choose_asset(assets: &Vec<ReleaseAsset>, search: &[&str]) -> (url: Option<String>)
    ensures
        text_view(url) == first_url(assets_view(assets@), words_view(search), 0),
{
    let mut i: usize = 0;
    while i < assets.len()
        invariant
            i <= assets@.len(),
            first_url(assets_view(assets@), words_view(search), 0) == first_url(
                assets_view(assets@),
                words_view(search),
                i as int,
            ),
        decreases assets@.len() - i,
    {
        match asset_download_url(&assets[i], search) {
            Some(url) => {
                assert(asset_url(assets_view(assets@)[i as int], words_view(search)) == Some(
                    url@,
                ));
                return Some(url);
            },
            None => {
                assert(asset_url(assets_view(assets@)[i as int], words_view(search)).is_none());
            },
        }
        i += 1;
    }
    None
}

/// The member `key` of a JSON value where it is there and is text.
pub fn read_text_member(value: &serde_json::Value, key: &str) -> (text: Option<String>)
    ensures
        text_view(text) == text_member(*value, key@),
{
    match json_get(value, key) {
        Some(member) => match json_as_str(member) {
            Some(text) => Some(String::from_str(text)),
            None => None,
        },
        None => None,
    }
}

/// Reads of an asset given in JSON what the choice needs.
pub fn read_asset(value: &serde_json::Value) -> (asset: ReleaseAsset)
    ensures
        asset@ == asset_of(*value),
{
    ReleaseAsset {
        name: read_text_member(value, "name"),
        url: read_text_member(value, "browser_download_url"),
    }
}

/// Reads the assets of a release given in JSON, in their order. Fails with
/// `MissingAssets` where the description has no member `assets`, and with
/// `AssetsNotArray` where that member is no array.
pub fn read_assets(release: &serde_json::Value) -> (listing: Result<
    Vec<ReleaseAsset>,
    ReleaseError,
>)
    ensures
        listing_view(listing) == assets_of(*release),
{
    let assets = match json_get(release, "assets") {
        Some(assets) => assets,
        None => {
            return Err(ReleaseError::MissingAssets);
        },
    };
    let items = match json_as_array(assets) {
        Some(items) => items,
        None => {
            return Err(ReleaseError::AssetsNotArray);
        },
    };
    let mut listing: Vec<ReleaseAsset> = Vec::new();
    let mut i: usize = 0;
    while i < items.len()
        invariant
            i <= items@.len(),
            listing@.len() == i,
            forall|j: int| 0 <= j < i ==> (#[trigger] listing@[j])@ == asset_of(items@[j]),
        decreases items@.len() - i,
    {
        listing.push(read_asset(&items[i]));
        i += 1;
    }
    assert(assets_view(listing@) =~= Seq::new(items@.len(), |i: int| asset_of(items@[i])));
    Ok(listing)
}

/// Chooses the download from a parsed description of a release: reads its
/// assets as [`read_assets`] does and chooses among them as [`choose_asset`]
/// does.
pub fn choose_download_url(release: &serde_json::Value, search: &[&str]) -> (choice: Result<
    Option<String>,
    ReleaseError,
>)
    ensures
        choice_view(choice) == chosen_url(*release, words_view(search)),
{
    match read_assets(release) {
        Ok(assets) => Ok(choose_asset(&assets, search)),
        Err(e) => Err(e),
    }
}

/// Chooses the download from the text of a release's description. Fails
/// with `InvalidJson` exactly where the text is not JSON, and otherwise as
/// [`choose_download_url`] does.
pub fn gh_latest_release_dl_url(body: &str, search: &[&str]) -> (choice: Result<
    Option<String>,
    ReleaseError,
>)
    ensures
        match json_parsed(body@) {
            Some(release) => choice_view(choice) == chosen_url(release, words_view(search)),
            None => choice is Err && choice->Err_0 is InvalidJson,
        },
{
    match parse_json(body) {
        Ok(release) => choose_download_url(&release, search),
        Err(e) => Err(ReleaseError::InvalidJson(json_error_text(&e))),
    }
}

/// The address that describes the latest release of a repository.
pub fn latest_release_api_url(gh_user: &str, gh_repo: &str) -> (url: String)
    ensures
        url@ == "https://api.github.com/repos/"@ + gh_user@ + "/"@ + gh_repo@
            + "/releases/latest"@,
{
    let mut url = String::from_str("https://api.github.com/repos/");
    url.append(gh_user);
    url.append("/");
    url.append(gh_repo);
    url.append("/releases/latest");
    url
}

} // verus!

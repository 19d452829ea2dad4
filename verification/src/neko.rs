//! The decisions behind fetching a random SFW image for the corner overlay.
//!
//! Two sources are used: **nekos.best**, which returns artist attribution
//! with each image, and **nekos.life**, which returns none. Only the SFW
//! `neko` endpoints are used. The downloads themselves happen outside this
//! library; what is decided here is which source to ask, which result to
//! take, and whether an image is small enough to accept.
use vstd::prelude::*;

use crate::error::{unit_result, CoreError, ErrorKind, ErrorView};
use crate::text::{concat_str, decimal, u64_to_decimal};

verus! {

/// Refuse any image larger than this (12 MiB): a stranger's API must not be
/// able to stall the app or eat memory.
pub const MAX_IMAGE_BYTES: usize = 12 * 1024 * 1024;

/// Bytes in a mebibyte, for messages.
pub const MIB: u64 = 1024 * 1024;

/// Where an overlay image comes from.
#[derive(Clone, Copy, Debug, PartialEq, Eq, Structural)]
pub enum NekoSource {
    /// nekos.best: maintained, with artist attribution.
    NekosBest,
    /// nekos.life: no attribution metadata.
    NekosLife,
}

impl NekoSource {
    /// The source for a random `pick`: reduced modulo the source count, even
    /// numbers choosing nekos.best.
    pub fn pick(pick: u32) -> (s: NekoSource)
        ensures
            s == (if pick % 2 == 0 {
                NekoSource::NekosBest
            } else {
                NekoSource::NekosLife
            }),
    {
        if pick % 2 == 0 {
            NekoSource::NekosBest
        } else {
            NekoSource::NekosLife
        }
    }

    /// The metadata endpoint to query.
    pub fn api_url(self) -> (r: &'static str)
        ensures
            r@ == match self {
                NekoSource::NekosBest => "https://nekos.best/api/v2/neko"@,
                NekoSource::NekosLife => "https://nekos.life/api/v2/img/neko"@,
            },
    {
        match self {
            NekoSource::NekosBest => "https://nekos.best/api/v2/neko",
            NekoSource::NekosLife => "https://nekos.life/api/v2/img/neko",
        }
    }

    /// The site name shown in the credit line.
    pub fn site(self) -> (r: &'static str)
        ensures
            r@ == match self {
                NekoSource::NekosBest => "nekos.best"@,
                NekoSource::NekosLife => "nekos.life"@,
            },
    {
        match self {
            NekoSource::NekosBest => "nekos.best",
            NekoSource::NekosLife => "nekos.life",
        }
    }
}

/// A downloaded overlay image with whatever attribution its source gave.
#[derive(Clone, Debug)]
pub struct NekoImage {
    /// Raw encoded image bytes (PNG, JPEG or GIF).
    pub bytes: Vec<u8>,
    /// Artist name, when the source provides it.
    pub artist: Option<String>,
    /// Link to the original artwork, when the source provides it.
    pub source_url: Option<String>,
    /// Which API this came from, for display.
    pub source_site: &'static str,
}

/// One entry of a nekos.best response.
#[derive(Clone, Debug)]
pub struct NekosBestResult {
    pub url: String,
    pub artist_name: Option<String>,
    pub source_url: Option<String>,
}

/// The entry of a nekos.best response to download: the first one. An empty
/// response is an error.
pub fn first_nekos_best_result(results: Vec<NekosBestResult>) -> (r: Result<NekosBestResult, CoreError>)
    ensures
        results@.len() > 0 ==> (r matches Ok(first) && first == results@[0]),
        results@.len() == 0 ==> (r matches Err(e) && e@ == (
            ErrorKind::AccountNotFound,
            "nekos.best returned no results"@,
        )),
{
    if results.len() == 0 {
        return Err(CoreError::AccountNotFound(String::from_str("nekos.best returned no results")));
    }
    let mut results = results;
    Ok(results.swap_remove(0))
}

impl NekoImage {
    /// An image from nekos.best, credited as its entry says.
    pub fn from_nekos_best(bytes: Vec<u8>, entry: NekosBestResult) -> (img: NekoImage)
        ensures
            img.bytes@ == bytes@,
            img.artist == entry.artist_name,
            img.source_url == entry.source_url,
            img.source_site@ == "nekos.best"@,
    {
        NekoImage {
            bytes,
            artist: entry.artist_name,
            source_url: entry.source_url,
            source_site: "nekos.best",
        }
    }

    /// An image from nekos.life, which carries no attribution.
    pub fn from_nekos_life(bytes: Vec<u8>) -> (img: NekoImage)
        ensures
            img.bytes@ == bytes@,
            img.artist is None,
            img.source_url is None,
            img.source_site@ == "nekos.life"@,
    {
        NekoImage { bytes, artist: None, source_url: None, source_site: "nekos.life" }
    }
}

/// The refusal for an image whose advertised length is `len` bytes.
pub open spec fn spec_too_large_message(len: u64) -> Seq<char> {
    "image is "@ + decimal((len / MIB) as nat) + " MB, over the "@ + decimal(
        (MAX_IMAGE_BYTES as u64 / MIB) as nat,
    ) + " MB limit"@
}

/// Check a response's advertised length before downloading it: an image
/// advertised as larger than [`MAX_IMAGE_BYTES`] is refused. A response
/// without a length passes (the downloaded size is checked afterwards).
pub fn check_advertised_length(content_length: Option<u64>) -> (r: Result<(), CoreError>)
    ensures
        unit_result(r) == match content_length {
            Some(len) => if len > MAX_IMAGE_BYTES as u64 {
                Err((ErrorKind::Crypto, spec_too_large_message(len)))
            } else {
                Ok(())
            },
            None => Ok::<(), ErrorView>(()),
        },
{
    match content_length {
        Some(len) => {
            if len > MAX_IMAGE_BYTES as u64 {
                let mb = u64_to_decimal(len / MIB);
                let limit = u64_to_decimal(MAX_IMAGE_BYTES as u64 / MIB);
                let a = concat_str("image is ", mb.as_str());
                let b = concat_str(a.as_str(), " MB, over the ");
                let c = concat_str(b.as_str(), limit.as_str());
                let msg = concat_str(c.as_str(), " MB limit");
                Err(CoreError::Crypto(msg))
            } else {
                Ok(())
            }
        },
        None => Ok(()),
    }
}

/// Check the size of a downloaded image: more than [`MAX_IMAGE_BYTES`] is
/// refused.
pub fn check_downloaded_length(len: usize) -> (r: Result<(), CoreError>)
    ensures
        len > MAX_IMAGE_BYTES ==> (r matches Err(e) && e@ == (
            ErrorKind::Crypto,
            "image exceeded the size limit"@,
        )),
        len <= MAX_IMAGE_BYTES ==> r is Ok,
{
    if len > MAX_IMAGE_BYTES {
        Err(CoreError::Crypto(String::from_str("image exceeded the size limit")))
    } else {
        Ok(())
    }
}

} // verus!

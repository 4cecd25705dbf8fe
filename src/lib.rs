//! Client for the Airtable REST API: a query builder for listing records, a
//! pagination engine that walks Airtable's pages, single-record updates, and
//! the classification of what goes wrong on the way.
use vstd::prelude::*;

pub mod api;
pub mod external;
pub mod pagination;
pub mod paging_laws;
pub mod types;

use crate::external::base64_standard;
use crate::external::encode_base64;

verus! {

/// A file attached to a record.
#[derive(Debug, Clone)]
pub struct Attachment {
    pub id: String,
    pub width: usize,
    pub height: usize,
    pub url: String,
    pub filename: String,
    pub size: usize,
    pub ty: String,
    pub thumbnails: Thumbnails,
}

/// The previews Airtable renders of an image attachment.
#[derive(Debug, Clone)]
pub struct Thumbnails {
    pub small: Thumbnail,
    pub large: Thumbnail,
    pub full: Thumbnail,
}

/// One rendered preview.
#[derive(Debug, Clone)]
pub struct Thumbnail {
    pub url: String,
    pub width: usize,
    pub height: usize,
}

/// The review status of a submission that has none yet: `new`.
pub fn default_status() -> (r: String)
    ensures
        r@ == "new"@,
{
    String::from_str("new")
}

/// The text of a `data:` URI that embeds a PNG image.
pub open spec fn png_data_text(png: Seq<u8>) -> Seq<char> {
    "data:image/png;base64,"@ + base64_standard(png)
}

/// Embeds a PNG image in a `data:` URI.
pub fn png_data_uri(png: &[u8]) -> (r: String)
    ensures
        r@ == png_data_text(png@),
{
    let encoded = encode_base64(png);
    String::from_str("data:image/png;base64,").concat(encoded.as_str())
}

} // verus!

//! Creating a listing: the parts of its upload, what is stored of it, and
//! the text it is searched by.

use vstd::prelude::*;

use crate::config::Config;
use crate::errors::AppError;
use crate::ids::{uuid_text, uuid_to_string};
use crate::text::{same_text, trim_text, trimmed};

verus! {

/// Which part of a listing upload a form part is.
#[derive(Clone, Copy, Debug, PartialEq, Eq, Structural)]
pub enum ListingPart {
    /// The listing itself, as JSON text.
    ListingData,
    /// A picture file.
    Picture,
    /// Anything else, which is skipped.
    Unknown,
}

/// The part that a form part of the given name is.
pub open spec fn listing_part_of(name: Seq<char>) -> ListingPart {
    if name == "listing_data"@ {
        ListingPart::ListingData
    } else if name == "pictures"@ {
        ListingPart::Picture
    } else {
        ListingPart::Unknown
    }
}

/// The part that a form part of the given name is.
pub fn listing_part(name: &str) -> (res: ListingPart)
    ensures
        res == listing_part_of(name@),
{
    if same_text(name, "listing_data") {
        ListingPart::ListingData
    } else if same_text(name, "pictures") {
        ListingPart::Picture
    } else {
        ListingPart::Unknown
    }
}

/// What a listing upload has brought so far.
pub struct ListingUpload {
    /// The listing's JSON text; a later part replaces an earlier one.
    pub listing_json: Option<String>,
    /// The picture files, in the order they came.
    pub pictures: Vec<Vec<u8>>,
}

impl ListingUpload {
    /// An upload with nothing read yet.
    pub fn new() -> (res: ListingUpload)
        ensures
            res.listing_json is None,
            res.pictures@.len() == 0,
    {
        ListingUpload { listing_json: None, pictures: Vec::new() }
    }

    /// Takes the listing's JSON text.
    pub fn accept_listing_data(&mut self, text: String)
        ensures
            final(self).listing_json == Some(text),
            final(self).pictures@ == old(self).pictures@,
    {
        self.listing_json = Some(text);
    }

    /// The listing's JSON text, where the upload carried one.
    pub fn listing_text(&self) -> (res: Option<String>)
        ensures
            res == self.listing_json,
    {
        match &self.listing_json {
            Some(t) => Some(t.clone()),
            None => None,
        }
    }

    /// Takes a picture file.
    pub fn accept_picture(&mut self, bytes: Vec<u8>)
        ensures
            final(self).listing_json == old(self).listing_json,
            final(self).pictures@ == old(self).pictures@.push(bytes),
    {
        self.pictures.push(bytes);
    }
}

/// A part of a listing upload that could not be read.
#[derive(Clone, Copy, Debug, PartialEq, Eq, Structural)]
pub enum UploadFailure {
    Stream,
    ListingData,
    Picture,
}

/// The error for a part of an upload that could not be read.
pub fn upload_error(failure: UploadFailure) -> (res: AppError)
    ensures
        res matches AppError::InvalidFormData(m) && m@ == match failure {
            UploadFailure::Stream => "Failed to read multipart stream"@,
            UploadFailure::ListingData => "Failed to read listing_data field"@,
            UploadFailure::Picture => "Failed to read picture file"@,
        },
{
    let m = match failure {
        UploadFailure::Stream => "Failed to read multipart stream",
        UploadFailure::ListingData => "Failed to read listing_data field",
        UploadFailure::Picture => "Failed to read picture file",
    };
    AppError::InvalidFormData(String::from_str(m))
}

/// The tags of a listing that are stored: the non-empty ones, in order.
pub open spec fn stored_tags(tags: Seq<String>) -> Seq<Seq<char>>
    decreases tags.len(),
{
    if tags.len() == 0 {
        seq![]
    } else {
        let rest = stored_tags(tags.drop_last());
        if tags.last()@.len() == 0 {
            rest
        } else {
            rest.push(tags.last()@)
        }
    }
}

/// The tags to store for a listing: empty tags are skipped.
pub fn tags_to_store(tags: &Vec<String>) -> (res: Vec<String>)
    ensures
        res@.map_values(|t: String| t@) =~= stored_tags(tags@),
{
    let mut out: Vec<String> = Vec::new();
    let mut i: usize = 0;
    while i < tags.len()
        invariant
            i <= tags@.len(),
            out@.map_values(|t: String| t@) =~= stored_tags(tags@.take(i as int)),
        decreases tags@.len() - i,
    {
        proof {
            assert(tags@.take(i + 1).drop_last() =~= tags@.take(i as int));
            assert(tags@.take(i + 1).last() == tags@[i as int]);
        }
        let n = tags[i].as_str().unicode_len();
        if n > 0 {
            let t = tags[i].clone();
            out.push(t);
        }
        i = i + 1;
    }
    assert(tags@.take(tags@.len() as int) =~= tags@);
    out
}

/// The text a listing is searched by: its title and description (or
/// nothing), separated by a space, without surrounding whitespace.
pub open spec fn embedding_text_of(title: Seq<char>, description: Option<String>) -> Seq<char> {
    let d = match description {
        Some(s) => s@,
        None => seq![],
    };
    trimmed(title + " "@ + d)
}

/// The text a new listing is searched by.
pub fn embedding_text(title: &str, description: &Option<String>) -> (res: String)
    ensures
        res@ == embedding_text_of(title@, *description),
{
    let mut t = String::from_str(title);
    t.append(" ");
    match description {
        Some(d) => t.append(d.as_str()),
        None => {},
    }
    assert(t@ =~= title@ + " "@ + match *description {
        Some(s) => s@,
        None => Seq::<char>::empty(),
    });
    trim_text(t.as_str())
}

/// The error of a listing that could not be fetched.
pub fn listing_fetch_error(listing_id: u128) -> (res: AppError)
    ensures
        res matches AppError::DatabaseFetchError { resource, id } && resource@ == "Model"@ && id@ == uuid_text(
            listing_id,
        ),
{
    AppError::DatabaseFetchError { resource: String::from_str("Model"), id: uuid_to_string(listing_id) }
}

/// The answer to deleting a listing, given how many rows the deletion
/// removed (only the owner's own listing is removed): `204 No Content`, or
/// a deletion error naming the listing when none.
pub fn listing_deletion_outcome(rows_affected: u64, listing_id: u128) -> (res: Result<u16, AppError>)
    ensures
        rows_affected > 0 ==> res == Ok::<u16, AppError>(204),
        rows_affected == 0 ==> (res matches Err(e) && e matches AppError::DatabaseDeleteError { resource, id }
            && resource@ == "Listing"@ && id@ == uuid_text(listing_id)),
{
    if rows_affected == 0 {
        Err(AppError::DatabaseDeleteError { resource: String::from_str("Listing"), id: uuid_to_string(listing_id) })
    } else {
        Ok(204)
    }
}

/// A count the database may leave empty, read as zero.
pub fn count_or_zero(count: Option<i64>) -> (res: i64)
    ensures
        res == match count {
            Some(n) => n,
            None => 0,
        },
{
    match count {
        Some(n) => n,
        None => 0,
    }
}

/// The address and key of the vector database; each is required.
pub fn qdrant_credentials(config: &Config) -> (res: Result<(String, String), AppError>)
    ensures
        config.qdrant_url is None ==> (res matches Err(e) && e is MissingQdrantUrlError),
        config.qdrant_url is Some && config.qdrant_api_key is None ==> (res matches Err(e)
            && e is MissingQdrantApiKeyError),
        res matches Ok((u, k)) ==> (u@ == config.qdrant_url->Some_0@ && k@ == config.qdrant_api_key->Some_0@),
        (config.qdrant_url is Some && config.qdrant_api_key is Some) ==> res is Ok,
{
    let url = match &config.qdrant_url {
        Some(u) => u.clone(),
        None => return Err(AppError::MissingQdrantUrlError),
    };
    let key = match &config.qdrant_api_key {
        Some(k) => k.clone(),
        None => return Err(AppError::MissingQdrantApiKeyError),
    };
    Ok((url, key))
}

} // verus!

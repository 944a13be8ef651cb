//! Uploaded pictures: what kind of file they are and where they are stored.

use vstd::prelude::*;

use crate::errors::AppError;
use crate::ids::uuid_text;

verus! {

/// The file extension that the content of a file reveals, if its kind is
/// recognized.
pub uninterp spec fn detected_extension(bytes: Seq<u8>) -> Option<Seq<char>>;

/// `infer::get(data).map(|kind| kind.extension())`: the extension of the
/// file kind that the leading bytes reveal.
#[verifier::external_body]
fn infer_extension(data: &[u8]) -> (res: Option<String>)
    ensures
        match res {
            Some(e) => detected_extension(data@) == Some(e@),
            None => detected_extension(data@) is None,
        },
{
    infer::get(data).map(|kind| kind.extension().to_string())
}

/// The extension of an uploaded picture, judged by its content; an
/// unrecognized file is refused.
pub fn image_extension(data: &[u8]) -> (res: Result<String, AppError>)
    ensures
        match res {
            Ok(e) => detected_extension(data@) == Some(e@),
            Err(err) => detected_extension(data@) is None && (err matches AppError::InvalidImageFormatError(m)
                && m@ == "Invalid image format"@),
        },
{
    match infer_extension(data) {
        Some(e) => Ok(e),
        None => Err(AppError::InvalidImageFormatError(String::from_str("Invalid image format"))),
    }
}

/// The normalized text of an object-store path written as `s`.
pub uninterp spec fn object_path_text(s: Seq<char>) -> Seq<char>;

/// `object_store::path::Path::from(s).to_string()`: the path split at `/`,
/// empty segments dropped and each segment percent-encoded where needed.
#[verifier::external_body]
fn object_path(s: &str) -> (res: String)
    ensures
        res@ == object_path_text(s@),
{
    object_store::path::Path::from(s).to_string()
}

/// Where a stored picture lives: under the directory of its owner (a user or
/// an apartment), named by the picture's id and extension.
pub open spec fn picture_path(dir: u128, picture: u128, ext: Seq<char>) -> Seq<char> {
    object_path_text(uuid_text(dir) + "/"@ + uuid_text(picture) + "."@ + ext)
}

/// The object-store location of a picture, as stored in the database.
pub fn picture_location(dir: u128, picture: u128, ext: &str) -> (res: String)
    ensures
        res@ == picture_path(dir, picture, ext@),
{
    let mut raw = crate::ids::uuid_to_string(dir);
    raw.append("/");
    let name = crate::ids::uuid_to_string(picture);
    raw.append(name.as_str());
    raw.append(".");
    raw.append(ext);
    object_path(raw.as_str())
}

/// Whether the picture at this position of an upload becomes the primary
/// picture of the apartment: the first one does.
pub fn is_primary_picture(index: usize) -> (res: bool)
    ensures
        res == (index == 0),
{
    index == 0
}

} // verus!

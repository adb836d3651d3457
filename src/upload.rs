use vstd::prelude::*;

verus! {

/// What the image host says of a stored picture.
#[derive(Debug, Clone, PartialEq, Eq)]
pub struct Data {
    pub file_id: i64,
    pub width: i64,
    pub height: i64,
    pub filename: String,
    pub storename: String,
    pub size: i64,
    pub path: String,
    pub hash: String,
    pub url: String,
    pub delete: String,
    pub page: String,
}

/// The image host's answer to a fresh upload: `data.url` is the address.
#[derive(Debug, Clone, PartialEq, Eq)]
pub struct UploadResult {
    pub success: bool,
    pub code: String,
    pub message: String,
    pub data: Data,
    pub request_id: String,
}

/// The image host's answer when the same picture was uploaded before:
/// `images` is the address it already has.
#[derive(Debug, Clone, PartialEq, Eq)]
pub struct UploadAlreadyHave {
    pub success: bool,
    pub code: String,
    pub message: String,
    pub images: String,
    pub request_id: String,
}

/// The address of an uploaded picture, from the two shapes the image host
/// answers with, tried in order: a fresh upload's `data.url` (when the answer
/// has that shape), else the `images` of an earlier upload.
pub fn upload_url(
    uploaded: Option<String>,
    already: Option<UploadAlreadyHave>,
) -> (r: Option<String>)
    ensures
        r == match uploaded {
            Some(u) => Some(u),
            None => match already {
                Some(a) => Some(a.images),
                None => None,
            },
        },
{
    match uploaded {
        Some(u) => Some(u),
        None => match already {
            Some(a) => Some(a.images),
            None => None,
        },
    }
}

} // verus!

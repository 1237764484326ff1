use vstd::prelude::*;

verus! {

/// The files endpoint of the media API: listing, search, details and delete.
pub const FILES_ENDPOINT: &'static str = "https://api.imagekit.io/v1/files";

/// The upload endpoint of the media API.
pub const UPLOAD_ENDPOINT: &'static str = "https://upload.imagekit.io/api/v1/files/upload";

} // verus!

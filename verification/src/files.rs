//! The file service's decisions. Reading and writing the files themselves
//! is I/O and lives with the process wiring; what is decided here is which
//! extension a known media type maps to.

use vstd::prelude::*;

verus! {

/// The stored-file service.
pub struct FileService {}

impl FileService {
    /// A file service.
    pub fn new() -> (r: Self) {
        FileService {}
    }

    /// The file extension for a known image media type: `jpg` for JPEG,
    /// `png` for PNG, nothing for anything else.
    pub fn get_extension_from_mime(&self, mime_type: &str) -> (r: Option<&'static str>)
        ensures
            mime_type@ == "image/jpeg"@ ==> (r matches Some(e) && e@ == "jpg"@),
            mime_type@ == "image/png"@ ==> (r matches Some(e) && e@ == "png"@),
            mime_type@ != "image/jpeg"@ && mime_type@ != "image/png"@ ==> r is None,
    {
        proof {
            reveal_strlit("image/jpeg");
            reveal_strlit("image/png");
            assert("image/jpeg"@.len() == 10);
            assert("image/png"@.len() == 9);
        }
        let m = String::from_str(mime_type);
        if m.eq(&String::from_str("image/jpeg")) {
            Some("jpg")
        } else if m.eq(&String::from_str("image/png")) {
            Some("png")
        } else {
            None
        }
    }
}

} // verus!

use vstd::prelude::*;

verus! {

/// Metadata for a NASA "Astronomy Picture Of the Day"
#[derive(Debug, Clone, PartialEq, Eq)]
pub struct APODMetadata {
    pub title: String,
    pub explanation: String,
    pub copyright: Option<String>,
    pub url: String,
    pub hd_url: Option<String>,
    pub media_type: String,
}

} // verus!

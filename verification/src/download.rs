//! A builder describing one pending content download.

use vstd::prelude::*;

use crate::models::Image;

verus! {

/// Describes a pending download: the content URL and the path the
/// content would be stored under.
#[allow(dead_code)]
pub struct DownloadBuilder<'a> {
    url: &'a str,
    path: String,
}

impl<'a> DownloadBuilder<'a> {
    /// The URL the described download would fetch.
    pub closed spec fn spec_url(&self) -> Seq<char> {
        self.url@
    }

    /// Starts a download description from an image's content URL.
    pub fn new(i: &Image) -> (r: DownloadBuilder)
        ensures
            r.spec_url() == i.link@,
    {
        DownloadBuilder { url: i.link.as_str(), path: "test".to_owned() }
    }
}

} // verus!

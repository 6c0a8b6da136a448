//! Order metadata as returned by the storefront API.
use vstd::prelude::*;

verus! {

/// Handle of one order, as listed for the user.
#[derive(Clone, Debug, PartialEq)]
pub struct OrderListItem {
    pub gamekey: String,
}

/// A purchase record.
#[derive(Clone, Debug, PartialEq)]
pub struct Order {
    pub subproducts: Vec<Subproduct>,
}

/// A purchased item.
#[derive(Clone, Debug, PartialEq)]
pub struct Subproduct {
    pub downloads: Vec<Download>,
}

/// One artifact for one platform, offered in several variants.
#[derive(Clone, Debug, PartialEq)]
pub struct Download {
    pub platform: String,
    pub download_struct: Vec<DownloadStruct>,
    pub download_identifier: Option<String>,
}

/// One concrete file offering: where to get it and how to check it.
#[derive(Clone, Debug, PartialEq)]
pub struct DownloadStruct {
    pub sha1: Option<String>,
    pub url: Option<Url>,
    pub md5: Option<String>,
}

/// Location of a file offering.
#[derive(Clone, Debug, PartialEq)]
pub struct Url {
    pub web: String,
}

} // verus!

//! Storefront order downloader: the verified core.
//!
//! Digest computation, integrity checks of downloaded files, file-name
//! derivation from download URLs, and the per-variant decisions of the
//! fetch-and-persist pipeline. Network and filesystem access live with the
//! caller, which feeds the results of that work back into these functions.

pub mod config;
pub mod digest;
pub mod error;
pub mod filename;
pub mod integrity;
pub mod pipeline;
pub mod types;

pub use config::Settings;
pub use error::ApiError;
pub use pipeline::HBClient;
pub use types::{Download, DownloadStruct, Order, OrderListItem, Subproduct, Url};

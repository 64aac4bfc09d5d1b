//! Request counts per HTTP status for one Cloudflare zone: the analytics
//! query, the request that carries it, and the decoding of the reply into a
//! flat list of `(status, count)` pairs.

pub mod client;
pub mod config;
pub mod decode;
pub mod error;
pub mod json;
pub mod json_text;
pub mod metric;
pub mod query;
pub mod status;
pub mod text;

pub use client::{read_reply, CfClient, Header, HttpReply, PostRequest};
pub use config::{load_config, Config, ConfigError};
pub use error::FetchError;
pub use metric::CfStatusMetric;
pub use query::{build_query, CfFetchOptions};

//! An HTTP client engine: error taxonomy, redirect following, deadline
//! control and the value forms that cross an isolation boundary.
pub mod client;
pub mod error;
pub mod execution;
pub mod location;
pub mod redirect;
pub mod request;
pub mod status;
pub mod text;
pub mod version;

pub use client::{Client, ClientBuilder, RequestBuilder};
pub use error::{Error, Kind, ResponseResult, Source, WireError};
pub use execution::{Execution, Step};
pub use location::Url;
pub use redirect::{Hop, Policy};
pub use request::{Header, Method, Request, Response};
pub use status::StatusCode;
pub use version::Version;

//! Assembles cross-consensus (XCM) programs and maps the replies of the host
//! extension that executes or sends them.
use vstd::prelude::*;

pub mod assembler;
pub mod gateway;
pub mod model;
pub mod playground;
pub mod status;

pub use status::{from_status_code, Error};
pub use playground::{XcmPlayground, XcmTransactPlayground};

//! Building requests for the service and reading its answers.

pub mod endpoint;
pub mod form;
pub mod helper;
pub mod signer;
pub mod util;

pub use endpoint::{TaskEndpoint, ZkWasmServiceEndpoint};
pub use helper::ZkWasmServiceHelper;

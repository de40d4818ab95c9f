//! Native shell logic of the World Monitor desktop application: the local API
//! sidecar's supervision and launch plan, the keychain-backed secrets store,
//! the persistent JSON cache, and the small allow-lists that guard what the
//! webview may open or fetch.
pub mod text;
pub mod paths;
pub mod secrets;
pub mod json;
pub mod sidecar;
pub mod web;
pub mod logs;
pub mod cache;

//! Artchain: the core of a small NFT marketplace backend.
//!
//! The library holds everything the HTTP handlers decide and return: the
//! static page bodies, the fixed NFT catalog, and the wallet-balance
//! passthrough logic (address validation and response construction).
//! Serving the routes over HTTP, and the one outbound RPC call, are left
//! to the surrounding application.

pub mod nft;
pub mod pages;
pub mod wallet;

//! A personal catalogue of shows, with a cache of their cover images.
//!
//! The catalogue keeps its entries and the covers it has fetched in a store on
//! disk ([`db`]). A cover is fetched from the page that an entry links to: the
//! steps of that are decided here ([`fetch`], [`page`], [`srcset`]) and carried
//! out by whoever drives them, so that nothing here waits for the network.
//! [`commands`] puts the cache in front of the fetch.

pub mod commands;
pub mod db;
pub mod error;
pub mod fetch;
pub mod ident;
pub mod kv;
pub mod laws;
pub mod models;
pub mod page;
pub mod record;
pub mod srcset;
pub mod text;

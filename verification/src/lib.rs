//! A verified library for sharing a folder over the local network: the web
//! portal pages, the order of directory listings, password hashing and
//! session cookies, what the server does with each request, the JSON messages
//! pushed to connected browsers, the mDNS host name of a share, and the
//! addresses it can be reached under.
pub mod auth;
pub mod listing;
pub mod mdns;
pub mod messages;
pub mod mime;
pub mod network;
pub mod portal;
pub mod requests;
pub mod server;
pub mod templates;
pub mod text;

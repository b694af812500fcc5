//! A personal podcast server: episodes are turned into an RSS feed that is
//! protected by HTTP basic authentication, while new episodes are submitted by
//! holders of a session token obtained with a passkey.

pub mod auth;
pub mod config;
pub mod feed;
pub mod ids;
pub mod media;
pub mod routes;
pub mod storage;
pub mod strmap;
pub mod text;
pub mod timestamp;

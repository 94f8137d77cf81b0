//! A personal RSS feed of a Traewelling dashboard.
//!
//! A user authorises this service at Traewelling through OAuth2 and is
//! handed a feed URL that holds a random feed id. Fetching that URL loads
//! the access token stored under the id, reads the user's dashboard from
//! Traewelling and renders it as an RSS channel.
//!
//! This crate holds the decisions of that service and proves them. Network
//! and database work is left to the program around it: each flow in
//! [`flows`] is a function from the step that was just completed to the
//! next thing to do.

pub mod errors;
pub mod feed;
pub mod flows;
pub mod http;
pub mod random;
pub mod store;
pub mod text;
pub mod time;
pub mod traewelling;

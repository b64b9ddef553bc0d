//! Classification of HTTP requests by their apparent client address:
//! forwarding headers, client heuristics, and geolocation of the address.
pub mod text;
pub mod request;
pub mod classify;
pub mod geo;

//! The verified core of the PineSpot listings service: request validation,
//! error classification, token and cookie rules, listing search plans and the
//! small text codecs they rest on.

pub mod text;

pub mod errors;
pub mod config;
pub mod ids;
pub mod jwt;
pub mod cookies;
pub mod schemas;
pub mod listings;
pub mod media;
pub mod search;
pub mod passwords;
pub mod users;
pub mod session;
pub mod mail;
pub mod uploads;
pub mod oauth;

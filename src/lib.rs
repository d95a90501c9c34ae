//! Credential lifecycle and donation watermark logic for a billing-platform
//! donation poller.
pub mod time;
pub mod models;
pub mod openid;
pub mod gportal_auth;
pub mod gportal_donations;

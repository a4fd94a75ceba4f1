pub mod agents;
pub mod failure;
pub mod relay;
pub mod admin;
pub mod auth;
pub mod strmap;
pub mod otp_guard;
pub mod channels;
pub mod codec;
pub mod keys;
pub mod misc;
pub mod i18n;

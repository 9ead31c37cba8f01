//! A verified identity-and-capture layer over the PostHog analytics SDK.
//!
//! The crate keeps the mutable identity state (a user-chosen distinct id and a
//! stable per-installation device id), resolves the identity an event is
//! recorded under, and builds the SDK's event values for capture, batch
//! capture, identify and alias operations.  Sending the built events over the
//! network is left to the embedding application.

pub mod client;
pub mod commands;
pub mod error;
pub mod laws;
pub mod models;
pub mod sdk;

pub use client::PostHogClientWrapper;
pub use error::PluginError;
pub use models::{
    default_api_host, AliasRequest, CaptureRequest, IdentifyRequest, PostHogConfig, PostHogOptions,
};

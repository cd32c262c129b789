//! WaveFlow: bounty escrow with merge-triggered payouts. The escrow contract, the
//! gateway's webhook decisions, and the configuration and access rules of the
//! services, each with its contract proved.

pub mod text;
pub mod types;
pub mod escrow_types;
pub mod events;
pub mod escrow_model;
pub mod escrow;
pub mod escrow_laws;
pub mod error;
pub mod crypto;
pub mod webhook;
pub mod config;
pub mod service;
pub mod attestation;
pub mod webhook_flow;

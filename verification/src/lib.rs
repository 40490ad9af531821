//! A bridge between a chat channel and private encrypted messages, as a
//! verified library.
//!
//! What is said in the channel goes as a private message to every subscriber,
//! and what a subscriber writes privately goes back to the channel under the
//! subscriber's name. This crate holds the decisions of that relay: the
//! registry of subscribers, the cache of display profiles, the commands, the
//! two directions of the pipeline, and the checking of the settings. Sending,
//! receiving, files and the clock belong to the program around it.

pub mod config;
pub mod discord;
pub mod identity;
pub mod message;
pub mod metadata;
pub mod nostr;
pub mod subscribers;
pub mod text;

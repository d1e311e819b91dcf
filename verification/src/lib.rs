//! Moderation decision engine for group-chat content.
//!
//! Given an incoming event (a member joining, a posted or edited message),
//! the library decides whether any text surface of the event (display names,
//! message body, caption, embedded link targets) matches a configured rule,
//! and drives an enforcement sequence (delete the content, ban the identity,
//! notify the chat) that exempts privileged accounts.
//!
//! The library itself performs no I/O: pattern matching is delegated to the
//! `fancy_regex` crate through a small set of trusted wrappers, and every
//! network side effect is requested from the caller through the enforcement
//! state machine in [`enforce`].

pub mod classifier;
pub mod config;
pub mod enforce;
pub mod events;
pub mod matching;
pub mod normalize;
pub mod pipeline;

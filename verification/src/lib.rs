//! Prompt resolution for a terminal assistant that turns a description of
//! a shell action into one command, asks before running it, and remembers
//! what was accepted.
//!
//! The library decides; the program around it reads, sends, prints and
//! runs. Every function here carries a contract, and Verus proves each of
//! them but those of the few functions that call outside code, which say
//! so:
//!
//! - [`model`]: the closed set of providers, and what each one needs on
//!   the wire: model name, endpoint, secret, instruction and request;
//! - [`openrouter_client`]: what a reply to the aggregator's listing
//!   request means, and in which order its models are offered;
//! - [`cache`]: the mapping from prompts to accepted commands, with
//!   lookup, insertion, invalidation and its stored form;
//! - [`flow`]: the resolution of one prompt as a machine from what
//!   happened to what is to be done next;
//! - [`config`]: the configuration and the dialogue that asks for it;
//! - [`shell`]: the shell flavors, their names and invocations;
//! - [`text`]: trimming, comparing and reading numbers from lines.

pub mod cache;
pub mod config;
pub mod flow;
pub mod model;
pub mod openrouter_client;
pub mod shell;
pub mod text;

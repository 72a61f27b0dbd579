//! Serving core of a sentence-embedding engine.
//!
//! * [`encode`] turns a batch of sentences into one embedding per sentence:
//!   it tokenizes, runs the encoder, takes the mean over the tokens, scales
//!   to unit length if asked to, and accounts for the batch in a [`usage::Usage`].
//! * [`model`] puts the supported encoder architectures behind one
//!   forward-pass interface, and [`loader`] lays down the course of loading
//!   one of them from a repository.
//! * [`queue`] shares one handler between many callers without a lock: a
//!   single worker serves the commands of a channel one by one. What the
//!   worker decides is the state machine of [`worker`], and what holds of
//!   every life of a worker is proved there.
//!
//! The tensor backend, the tokenizer and the channels are other crates'
//! work. [`tensor`], [`tokenize`] and the head of [`queue`] and [`model`]
//! list the calls into them, each with what is taken on trust about it.

pub mod encode;
pub mod error;
pub mod handler;
pub mod loader;
pub mod model;
pub mod queue;
pub mod tensor;
pub mod tokenize;
pub mod usage;
pub mod worker;

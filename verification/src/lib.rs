//! The verified core of a mailing-list service: subscriber enrolment
//! with email confirmation, credential validation, and newsletter
//! fan-out to confirmed subscribers.
//!
//! Durable storage is modelled by [`store::SubscriberStore`], whose
//! schema constraints — unique emails, ids, usernames and tokens, at
//! most one token per subscriber — every operation is proved to keep.
//! The services in [`subscriptions`], [`subscriptions_confirm`],
//! [`newsletters`] and [`login`] carry exact contracts over that
//! model; proof functions beside them state the service-level laws:
//! what one submission creates, what a resubmission reuses, and why
//! confirming twice equals confirming once. HTTP plumbing and the
//! outbound transport stay outside; password hashing, base64 and the
//! random token source are called through the narrow trusted wrappers
//! documented where they stand.

use vstd::prelude::*;

pub mod authentication;
pub mod domain;
pub mod email;
pub mod login;
pub mod newsletters;
pub mod secret;
pub mod store;
pub mod subscriptions;
pub mod subscriptions_confirm;
pub mod token;

verus! {

} // verus!

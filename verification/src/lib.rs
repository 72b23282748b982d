//! A trusted-package policy layer that sits in front of native package
//! managers: a registry of reviewed packages per ecosystem, the rule that
//! decides whether a package is trusted, and the adapters that turn what a
//! package index publishes into one canonical record.

mod clock;
pub mod collection;
pub mod fetch;
pub mod language;
pub mod package;
pub mod registry;
pub mod runner;
pub mod schema;
pub mod score;
pub mod search;
pub mod store;
pub mod text;
pub mod trust;
pub mod verify;

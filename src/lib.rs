//! Keeps a local install in step with a release that publishes a manifest of
//! content digests: parse the manifest, find the files that diverge from it,
//! and drive the check / compare / update cycle as a pure state machine.
pub mod cycle;
pub mod error;
pub mod hash;
pub mod manifest;
pub mod reconcile;
pub mod release;

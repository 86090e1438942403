//! A store of install artifacts, looked up by name and version.
pub mod buffer;
pub mod numeral;
pub mod store;

pub use store::{ArtifactId, ArtifactStore, INSTALLINATOR_TEST_ARTIFACT_NAME};

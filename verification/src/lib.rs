//! Configuration-driven project scaffolding engine.
//!
//! Turns a closed configuration (framework, database, feature flags,
//! package manager) into a deterministic, internally consistent set of
//! artifacts: `(relative path, content)` pairs that an outer shell
//! realizes on disk. Composition is pure; the contracts pin every
//! artifact's path and content, and the laws in [`laws`] state the
//! engine's cross-cutting guarantees.

pub mod artifact;
pub mod config;
pub mod generator;
pub mod laws;
pub mod package_manager;
pub mod render;
pub mod subst;
pub mod templates;
pub mod text;

pub use artifact::Artifact;
pub use config::{Database, Framework, PackageManager, ProjectConfig};
pub use generator::{GenerateError, ProjectPlan};

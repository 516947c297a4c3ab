//! Skills: their manifests, how they are discovered, and captured output.

pub mod loader;
pub mod manifest;
pub mod model;
pub mod output;
pub mod runner;

pub use loader::discover_skills;
pub use manifest::{ContextConfig, SkillManifest, UiConfig, UiMode};
pub use model::{Skill, SkillSource};

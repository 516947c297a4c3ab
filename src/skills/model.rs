//! A discovered skill: its manifest and where it was found.

use crate::skills::manifest::SkillManifest;
use vstd::prelude::*;

verus! {

/// Where a manifest was found; later variants take precedence.
#[derive(Debug, Clone, Copy, PartialEq, Eq, Structural)]
pub enum SkillSource {
    System,
    User,
    Project,
}

impl SkillSource {
    /// Precedence of the tier: System < User < Project.
    pub open spec fn rank(self) -> nat {
        match self {
            SkillSource::System => 0,
            SkillSource::User => 1,
            SkillSource::Project => 2,
        }
    }

    pub fn precedence(&self) -> (r: u8)
        ensures
            r == self.rank(),
    {
        match self {
            SkillSource::System => 0,
            SkillSource::User => 1,
            SkillSource::Project => 2,
        }
    }
}

#[derive(Debug, Clone, PartialEq)]
pub struct Skill {
    pub manifest: SkillManifest,
    pub source: SkillSource,
    /// Path of the manifest file.
    pub manifest_path: String,
}

impl Skill {
    /// The skill's identifier.
    pub open spec fn id(self) -> Seq<char> {
        self.manifest.id@
    }
}

} // verus!

//! The declarative description of one skill, and its validation.

use crate::text::{blank, is_blank};
use vstd::prelude::*;

verus! {

/// How a skill uses the terminal.
#[derive(Debug, Clone, Copy, PartialEq, Eq, Structural)]
pub enum UiMode {
    /// The skill takes over the terminal.
    Tui,
    /// The skill's output is captured and shown in the launcher.
    Inline,
}

#[derive(Debug, Clone, Copy, PartialEq, Eq, Structural)]
pub struct UiConfig {
    pub mode: UiMode,
    pub fullscreen: bool,
}

/// Which environment facts are handed to a skill.
#[derive(Debug, Clone, Copy, PartialEq, Eq, Structural)]
pub struct ContextConfig {
    pub pass_cwd: bool,
    pub pass_git_root: bool,
    pub pass_project_name: bool,
    /// Reserved: hand the whole context as structured input.
    pub pass_stdin_json: bool,
}

impl Default for ContextConfig {
    fn default() -> (r: Self)
        ensures
            r.pass_cwd && r.pass_git_root && r.pass_project_name && !r.pass_stdin_json,
    {
        ContextConfig {
            pass_cwd: true,
            pass_git_root: true,
            pass_project_name: true,
            pass_stdin_json: false,
        }
    }
}

/// Version a manifest gets when it names none.
pub const DEFAULT_VERSION: &'static str = "0.1.0";

/// The value of `ui.fullscreen` when a manifest leaves it out.
pub fn default_fullscreen() -> (r: bool)
    ensures
        r,
{
    true
}

/// The value of `version` when a manifest leaves it out.
pub fn default_version() -> (r: String)
    ensures
        r@ == DEFAULT_VERSION@,
{
    String::from_str(DEFAULT_VERSION)
}

#[derive(Debug, Clone, PartialEq)]
pub struct SkillManifest {
    pub id: String,
    pub name: String,
    pub description: String,
    pub version: String,
    /// Path or command name of the program to run.
    pub executable: String,
    pub args: Vec<String>,
    pub tags: Vec<String>,
    pub estimated_time: Option<String>,
    pub ui: UiConfig,
    pub context: ContextConfig,
}

/// A required manifest field.
#[derive(Debug, Clone, Copy, PartialEq, Eq, Structural)]
pub enum ManifestField {
    Id,
    Name,
    Description,
    Exec,
}

/// Why a manifest was rejected.
#[derive(Debug, Clone, PartialEq)]
pub enum ManifestError {
    /// A required field is empty once white space is trimmed.
    EmptyField(ManifestField),
    /// The identifier holds a character other than `a-z`, `0-9` or `-`.
    InvalidId(String),
}

/// A character allowed in a skill identifier.
pub open spec fn id_char(c: char) -> bool {
    ('a' <= c && c <= 'z') || ('0' <= c && c <= '9') || c == '-'
}

/// The identifier grammar `[a-z0-9-]+`.
pub open spec fn valid_id(s: Seq<char>) -> bool {
    s.len() > 0 && forall|i: int| 0 <= i < s.len() ==> #[trigger] id_char(s[i])
}

/// Whether `id` follows the identifier grammar.
pub fn is_valid_id(id: &str) -> (r: bool)
    ensures
        r == valid_id(id@),
{
    let n = id.unicode_len();
    if n == 0 {
        return false;
    }
    let mut i: usize = 0;
    while i < n
        invariant
            n == id@.len(),
            i <= n,
            forall|k: int| 0 <= k < i ==> #[trigger] id_char(id@[k]),
        decreases n - i,
    {
        let c = id.get_char(i);
        if !(('a' <= c && c <= 'z') || ('0' <= c && c <= '9') || c == '-') {
            assert(!id_char(id@[i as int]));
            return false;
        }
        i = i + 1;
    }
    true
}

/// The outcome of validating a manifest with these fields: the first blank
/// required field in the order id, name, description, exec; else a
/// malformed identifier; else success.
pub open spec fn validation_of(
    id: Seq<char>,
    name: Seq<char>,
    description: Seq<char>,
    executable: Seq<char>,
) -> Option<ManifestField> {
    if blank(id) {
        Some(ManifestField::Id)
    } else if blank(name) {
        Some(ManifestField::Name)
    } else if blank(description) {
        Some(ManifestField::Description)
    } else if blank(executable) {
        Some(ManifestField::Exec)
    } else {
        None
    }
}

impl SkillManifest {
    /// A manifest that may enter the discovered collection.
    pub open spec fn valid(&self) -> bool {
        validation_of(self.id@, self.name@, self.description@, self.executable@) is None
            && valid_id(self.id@)
    }

    /// Checks the required fields and the identifier grammar.
    pub fn validate(&self) -> (r: Result<(), ManifestError>)
        ensures
            r is Ok <==> self.valid(),
            validation_of(self.id@, self.name@, self.description@, self.executable@) matches Some(f)
                ==> r == Err::<(), ManifestError>(ManifestError::EmptyField(f)),
            validation_of(self.id@, self.name@, self.description@, self.executable@) is None
                && !valid_id(self.id@) ==> (r matches Err(ManifestError::InvalidId(s)) && s@
                == self.id@),
    {
        if is_blank(self.id.as_str()) {
            return Err(ManifestError::EmptyField(ManifestField::Id));
        }
        if is_blank(self.name.as_str()) {
            return Err(ManifestError::EmptyField(ManifestField::Name));
        }
        if is_blank(self.description.as_str()) {
            return Err(ManifestError::EmptyField(ManifestField::Description));
        }
        if is_blank(self.executable.as_str()) {
            return Err(ManifestError::EmptyField(ManifestField::Exec));
        }
        if !is_valid_id(self.id.as_str()) {
            return Err(ManifestError::InvalidId(self.id.clone()));
        }
        Ok(())
    }
}

impl ManifestField {
    /// The field's name in the manifest file.
    pub fn key(&self) -> (r: &'static str)
        ensures
            r@ == match self {
                ManifestField::Id => "id"@,
                ManifestField::Name => "name"@,
                ManifestField::Description => "description"@,
                ManifestField::Exec => "exec"@,
            },
    {
        match self {
            ManifestField::Id => "id",
            ManifestField::Name => "name",
            ManifestField::Description => "description",
            ManifestField::Exec => "exec",
        }
    }
}

impl ManifestError {
    /// A message for the user.
    pub fn to_string(&self) -> (r: String)
        ensures
            r@ == match self {
                ManifestError::EmptyField(f) => "Skill "@ + field_key(*f) + " cannot be empty"@,
                ManifestError::InvalidId(id) => "Invalid skill id '"@ + id@
                    + "': must be lowercase alphanumeric with hyphens only"@,
            },
    {
        match self {
            ManifestError::EmptyField(f) => {
                let mut s = String::from_str("Skill ");
                s.append(f.key());
                s.append(" cannot be empty");
                s
            },
            ManifestError::InvalidId(id) => {
                let mut s = String::from_str("Invalid skill id '");
                s.append(id.as_str());
                s.append("': must be lowercase alphanumeric with hyphens only");
                s
            },
        }
    }
}

/// The name of a required field in the manifest file.
pub open spec fn field_key(f: ManifestField) -> Seq<char> {
    match f {
        ManifestField::Id => "id"@,
        ManifestField::Name => "name"@,
        ManifestField::Description => "description"@,
        ManifestField::Exec => "exec"@,
    }
}

} // verus!

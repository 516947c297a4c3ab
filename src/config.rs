//! User configuration, as the session state consumes it.

use crate::state::ViewMode;
use vstd::prelude::*;

verus! {

/// The loaded configuration. The colour theme is the renderer's concern and
/// is not held here.
#[derive(Debug, Clone, PartialEq)]
pub struct Config {
    pub default_view_mode: ViewMode,
    pub enable_mouse: bool,
    /// Length of the recently-executed list.
    pub max_recent_skills: usize,
    pub debug_log_enabled: bool,
    pub debug_log_path: String,
    /// Skill directories, highest precedence first.
    pub skill_paths: Vec<String>,
    pub language: String,
}

pub fn default_enable_mouse() -> (r: bool)
    ensures
        r,
{
    true
}

pub fn default_max_recent_skills() -> (r: usize)
    ensures
        r == 10,
{
    10
}

pub fn default_debug_log_path() -> (r: String)
    ensures
        r@ == "~/.config/pane/logs/pane-debug.log"@,
{
    String::from_str("~/.config/pane/logs/pane-debug.log")
}

/// Project, user and system skill directories, in that order.
pub fn default_skill_paths() -> (r: Vec<String>)
    ensures
        r@.len() == 3,
        r@[0]@ == "./.pane/skills/"@,
        r@[1]@ == "~/.config/pane/skills/"@,
        r@[2]@ == "/usr/local/share/pane/skills/"@,
{
    let mut v: Vec<String> = Vec::new();
    v.push(String::from_str("./.pane/skills/"));
    v.push(String::from_str("~/.config/pane/skills/"));
    v.push(String::from_str("/usr/local/share/pane/skills/"));
    v
}

pub fn default_language() -> (r: String)
    ensures
        r@ == "en"@,
{
    String::from_str("en")
}

/// Why a configuration was refused.
#[derive(Debug, Clone, Copy, PartialEq, Eq, Structural)]
pub enum ConfigError {
    /// No skill directory is configured.
    EmptySkillPaths,
}

impl ConfigError {
    /// A message for the user.
    pub fn to_string(&self) -> (r: String)
        ensures
            r@ == "Configuration error: skill_paths cannot be empty"@,
    {
        String::from_str("Configuration error: skill_paths cannot be empty")
    }
}

impl Config {
    /// Refuses a configuration without skill directories.
    pub fn validate(&self) -> (r: Result<(), ConfigError>)
        ensures
            r is Ok <==> self.skill_paths@.len() > 0,
    {
        if self.skill_paths.len() == 0 {
            Err(ConfigError::EmptySkillPaths)
        } else {
            Ok(())
        }
    }
}

impl Default for Config {
    fn default() -> (r: Self)
        ensures
            r.default_view_mode == ViewMode::All,
            r.enable_mouse,
            r.max_recent_skills == 10,
            !r.debug_log_enabled,
            r.debug_log_path@ == "~/.config/pane/logs/pane-debug.log"@,
            r.skill_paths@.len() == 3,
            r.language@ == "en"@,
    {
        Config {
            default_view_mode: ViewMode::All,
            enable_mouse: default_enable_mouse(),
            max_recent_skills: default_max_recent_skills(),
            debug_log_enabled: false,
            debug_log_path: default_debug_log_path(),
            skill_paths: default_skill_paths(),
            language: default_language(),
        }
    }
}

/// What `Path::join` gives for a base path and a further path.
pub uninterp spec fn path_join_of(base: Seq<char>, rest: Seq<char>) -> Seq<char>;

/// Relies on `std::path::Path::join`: `rest` appended to `base` with a
/// separator (or `rest` alone when it is absolute); the result depends on
/// the two texts alone.
#[verifier::external_body]
fn join_path(base: &str, rest: &str) -> (r: String)
    ensures
        r@ == path_join_of(base@, rest@),
{
    std::path::Path::new(base).join(rest).to_string_lossy().into_owned()
}

/// `path` starts with `~/`.
pub open spec fn home_relative(path: Seq<char>) -> bool {
    path.len() >= 2 && path[0] == '~' && path[1] == '/'
}

/// `path` with a leading `~/` replaced by the home directory, when the home
/// directory is known; any other path as it is.
pub fn expand_tilde(path: &str, home: Option<&str>) -> (r: String)
    ensures
        home_relative(path@) && home is Some ==> r@ == path_join_of(home->0@, path@.skip(2)),
        !(home_relative(path@) && home is Some) ==> r@ == path@,
{
    let n = path.unicode_len();
    if n >= 2 && path.get_char(0) == '~' && path.get_char(1) == '/' {
        if let Some(h) = home {
            let rest = path.substring_char(2, n);
            assert(rest@ =~= path@.skip(2));
            return join_path(h, rest);
        }
    }
    String::from_str(path)
}

} // verus!

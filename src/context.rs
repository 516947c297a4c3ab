//! Per-execution context and the environment handed to a skill.

use crate::skills::{ContextConfig, Skill};
use vstd::prelude::*;

verus! {

/// What `Path::file_name` gives for a path: its final component, or `None`
/// when the path ends in `..` or is a root or prefix alone.
pub uninterp spec fn file_name_of(path: Seq<char>) -> Option<Seq<char>>;

/// Relies on `std::path::Path::file_name`: the final component of the
/// path, which depends on the path text alone.
#[verifier::external_body]
fn final_component(path: &str) -> (r: Option<String>)
    ensures
        r is None <==> file_name_of(path@) is None,
        r matches Some(s) ==> file_name_of(path@) == Some(s@),
{
    std::path::Path::new(path).file_name().and_then(|n| n.to_str()).map(|s| s.to_string())
}

/// Facts about one execution of a skill.
#[derive(Debug, Clone, PartialEq)]
pub struct SkillContext {
    pub skill_id: String,
    pub skill_name: String,
    /// Working directory the launcher runs in.
    pub cwd: String,
    /// Root of the enclosing git repository, if any.
    pub git_root: Option<String>,
    pub project_name: Option<String>,
    pub config_path: String,
    pub args: Vec<String>,
}

/// The project a path belongs to: its final component.
pub fn extract_project_name(path: &str) -> (r: Option<String>)
    ensures
        r is None <==> file_name_of(path@) is None,
        r matches Some(s) ==> file_name_of(path@) == Some(s@),
{
    final_component(path)
}

/// One environment variable as name and value.
pub open spec fn var_view(p: (String, String)) -> (Seq<char>, Seq<char>) {
    (p.0@, p.1@)
}

/// The variables a skill gets: id, name and configuration path always;
/// working directory, git root and project name where the manifest asks for
/// them and they are known.
pub open spec fn environment_of(c: SkillContext, flags: ContextConfig) -> Seq<(Seq<char>, Seq<char>)> {
    let base = seq![
        ("PANE_ID"@, c.skill_id@),
        ("PANE_NAME"@, c.skill_name@),
        ("PANE_CONFIG_PATH"@, c.config_path@),
    ];
    let with_cwd = if flags.pass_cwd {
        base.push(("PANE_CWD"@, c.cwd@))
    } else {
        base
    };
    let with_root = match c.git_root {
        Some(root) if flags.pass_git_root => with_cwd.push(("PANE_GIT_ROOT"@, root@)),
        _ => with_cwd,
    };
    match c.project_name {
        Some(name) if flags.pass_project_name => with_root.push(("PANE_PROJECT_NAME"@, name@)),
        _ => with_root,
    }
}

fn var(name: &str, value: &String) -> (r: (String, String))
    ensures
        var_view(r) == (name@, value@),
{
    (String::from_str(name), value.clone())
}

impl SkillContext {
    /// The context of an execution of `skill` from `cwd`, with the git root
    /// found from there (if any) and the configuration path in use. The
    /// project is named after the git root, else after `cwd`.
    pub fn build(skill: &Skill, cwd: String, git_root: Option<String>, config_path: String) -> (r:
        SkillContext)
        ensures
            r.skill_id@ == skill.manifest.id@,
            r.skill_name@ == skill.manifest.name@,
            r.cwd == cwd,
            r.git_root == git_root,
            r.config_path == config_path,
            r.args@ == skill.manifest.args@,
            r.project_name is None <==> file_name_of(
                match git_root {
                    Some(g) => g@,
                    None => cwd@,
                },
            ) is None,
            r.project_name matches Some(p) ==> file_name_of(
                match git_root {
                    Some(g) => g@,
                    None => cwd@,
                },
            ) == Some(p@),
    {
        let project_name = match &git_root {
            Some(root) => extract_project_name(root.as_str()),
            None => extract_project_name(cwd.as_str()),
        };
        let mut args: Vec<String> = Vec::new();
        let mut i: usize = 0;
        while i < skill.manifest.args.len()
            invariant
                i <= skill.manifest.args@.len(),
                args@ == skill.manifest.args@.take(i as int),
            decreases skill.manifest.args@.len() - i,
        {
            args.push(skill.manifest.args[i].clone());
            i = i + 1;
            assert(args@ =~= skill.manifest.args@.take(i as int));
        }
        assert(skill.manifest.args@.take(i as int) =~= skill.manifest.args@);
        SkillContext {
            skill_id: skill.manifest.id.clone(),
            skill_name: skill.manifest.name.clone(),
            cwd,
            git_root,
            project_name,
            config_path,
            args,
        }
    }

    /// The environment variables for the child, as name and value pairs.
    pub fn prepare_environment(&self, context_config: &ContextConfig) -> (r: Vec<(String, String)>)
        ensures
            r@.map_values(|p: (String, String)| var_view(p)) == environment_of(
                *self,
                *context_config,
            ),
    {
        let mut env: Vec<(String, String)> = Vec::new();
        env.push(var("PANE_ID", &self.skill_id));
        env.push(var("PANE_NAME", &self.skill_name));
        env.push(var("PANE_CONFIG_PATH", &self.config_path));
        let ghost base = seq![
            ("PANE_ID"@, self.skill_id@),
            ("PANE_NAME"@, self.skill_name@),
            ("PANE_CONFIG_PATH"@, self.config_path@),
        ];
        assert(env@.map_values(|p: (String, String)| var_view(p)) =~= base);
        if context_config.pass_cwd {
            env.push(var("PANE_CWD", &self.cwd));
        }
        let ghost with_cwd = env@.map_values(|p: (String, String)| var_view(p));
        if context_config.pass_git_root {
            if let Some(root) = &self.git_root {
                env.push(var("PANE_GIT_ROOT", root));
            }
        }
        assert(env@.map_values(|p: (String, String)| var_view(p)) =~= match self.git_root {
            Some(root) if context_config.pass_git_root => with_cwd.push(("PANE_GIT_ROOT"@, root@)),
            _ => with_cwd,
        });
        let ghost with_root = env@.map_values(|p: (String, String)| var_view(p));
        if context_config.pass_project_name {
            if let Some(name) = &self.project_name {
                env.push(var("PANE_PROJECT_NAME", name));
            }
        }
        assert(env@.map_values(|p: (String, String)| var_view(p)) =~= match self.project_name {
            Some(name) if context_config.pass_project_name => with_root.push(
                ("PANE_PROJECT_NAME"@, name@),
            ),
            _ => with_root,
        });
        env
    }
}

} // verus!

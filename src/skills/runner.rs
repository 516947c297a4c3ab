//! Decisions of the execution runner that need no process.

use vstd::prelude::*;

verus! {

/// How a skill's executable is found.
#[derive(Debug, Clone, Copy, PartialEq, Eq, Structural)]
pub enum ExecTarget {
    /// A path (it holds a separator): it must exist and be a regular file.
    Path,
    /// A command name, looked up on the executable search path.
    SearchPath,
}

/// The executable text holds a path separator.
pub open spec fn names_path(exec: Seq<char>) -> bool {
    exists|i: int| 0 <= i < exec.len() && (#[trigger] exec[i] == '/' || exec[i] == '\\')
}

/// Whether `exec` is a path or a command name.
pub fn exec_target(exec: &str) -> (r: ExecTarget)
    ensures
        r == (if names_path(exec@) {
            ExecTarget::Path
        } else {
            ExecTarget::SearchPath
        }),
{
    let n = exec.unicode_len();
    let mut i: usize = 0;
    while i < n
        invariant
            n == exec@.len(),
            i <= n,
            forall|k: int| 0 <= k < i ==> !(#[trigger] exec@[k] == '/' || exec@[k] == '\\'),
        decreases n - i,
    {
        let c = exec.get_char(i);
        if c == '/' || c == '\\' {
            return ExecTarget::Path;
        }
        i = i + 1;
    }
    ExecTarget::SearchPath
}

} // verus!

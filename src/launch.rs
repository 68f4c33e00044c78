use vstd::prelude::*;

use crate::text::str_eq;

verus! {

/// Path of the binary to launch, relative to the workspace root.
pub open spec fn target_binary_spec() -> Seq<char> {
    "binary/agentsFunEliza.node"@
}

/// The one argument handed to the launched binary.
pub open spec fn character_arg_spec() -> Seq<char> {
    "--character=characters/eliza.character.json"@
}

/// File mode given to the binary on POSIX systems.
pub open spec fn exec_mode_spec() -> u32 {
    0o755
}

/// The relative path of the binary to launch. It does not depend on the
/// platform's asset subfolder.
pub fn target_binary_path() -> (r: String)
    ensures
        r@ == target_binary_spec(),
{
    "binary/agentsFunEliza.node".to_owned()
}

/// The argument list of the launched binary: exactly one entry.
pub fn launch_args() -> (r: Vec<String>)
    ensures
        r@.len() == 1,
        r@[0]@ == character_arg_spec(),
{
    let mut r: Vec<String> = Vec::new();
    r.push("--character=characters/eliza.character.json".to_owned());
    r
}

/// The mode set on the binary: rwxr-xr-x, executable by owner, group and other.
pub fn executable_mode() -> (r: u32)
    ensures
        r == exec_mode_spec(),
        r & 0o111 == 0o111,
        r & 0o700 == 0o700,
{
    let r: u32 = 0o755;
    assert(r & 0o111 == 0o111 && r & 0o700 == 0o700) by (bit_vector)
        requires
            r == 0o755u32,
    ;
    r
}

/// Whether a platform of this family needs the permission step: only the
/// POSIX family `unix` has file modes to set.
pub fn needs_permission_step(family: &str) -> (r: bool)
    ensures
        r == (family@ == "unix"@),
{
    str_eq(family, "unix")
}

/// How the launched binary ended.
#[derive(Clone, Copy, PartialEq, Eq, Structural, Debug)]
pub enum ChildExit {
    /// It exited with code 0.
    Success,
    /// It exited with this non-zero code.
    Code(i32),
    /// A signal with this number ended it.
    Signal(i32),
    /// Neither a code nor a signal is known.
    Unknown,
}

/// Classifies an exit from its code, if it has one, and else from the
/// signal that ended it.
pub fn classify_exit(code: Option<i32>, signal: Option<i32>) -> (r: ChildExit)
    ensures
        code matches Some(c) ==> r == (if c == 0 {
            ChildExit::Success
        } else {
            ChildExit::Code(c)
        }),
        code is None ==> r == (match signal {
            Some(s) => ChildExit::Signal(s),
            None => ChildExit::Unknown,
        }),
{
    match code {
        Some(c) => {
            if c == 0 {
                ChildExit::Success
            } else {
                ChildExit::Code(c)
            }
        },
        None => match signal {
            Some(s) => ChildExit::Signal(s),
            None => ChildExit::Unknown,
        },
    }
}

} // verus!

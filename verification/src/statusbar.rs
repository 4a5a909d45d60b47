//! The decisions of the status-bar command line: which module a name selects
//! and which shell a completion script is written for.

use crate::error::{PbStatusError, Result};
use vstd::prelude::*;
use vstd::utf8::*;

verus! {

broadcast use vstd::string::group_string_axioms;

/// Whether two byte slices hold the same bytes.
fn bytes_eq(a: &[u8], b: &[u8]) -> (r: bool)
    ensures
        r == (a@ == b@),
{
    if a.len() != b.len() {
        return false;
    }
    let mut i: usize = 0;
    while i < a.len()
        invariant
            i <= a@.len(),
            a@.len() == b@.len(),
            forall|j: int| 0 <= j < i ==> a@[j] == b@[j],
        decreases a@.len() - i,
    {
        if a[i] != b[i] {
            return false;
        }
        i = i + 1;
    }
    assert(a@ =~= b@);
    true
}

/// Whether `s` is the text `expected`.
fn str_is(s: &str, expected: &str) -> (r: bool)
    ensures
        r == (s@ == expected@),
{
    let r = bytes_eq(s.as_bytes(), expected.as_bytes());
    proof {
        encode_utf8_decode_utf8(s@);
        encode_utf8_decode_utf8(expected@);
    }
    r
}

/// A module of the status bar.
#[derive(Clone, Copy, Debug, PartialEq, Eq)]
pub enum ModuleKind {
    Battery,
    Cpu,
}

/// Selects the module called `name`: `battery` or `cpu`. Any other name is
/// refused with `ModuleNotFound`, which always names `battery`.
pub fn module_named(name: &str) -> (r: Result<ModuleKind>)
    ensures
        name@ == "battery"@ ==> r matches Ok(ModuleKind::Battery),
        name@ == "cpu"@ ==> r matches Ok(ModuleKind::Cpu),
        name@ != "battery"@ && name@ != "cpu"@ ==> (r matches Err(
            PbStatusError::ModuleNotFound(m),
        ) && m@ == "battery"@),
{
    proof {
        reveal_strlit("battery");
        reveal_strlit("cpu");
        assert("battery"@.len() != "cpu"@.len());
    }
    if str_is(name, "battery") {
        Ok(ModuleKind::Battery)
    } else if str_is(name, "cpu") {
        Ok(ModuleKind::Cpu)
    } else {
        Err(PbStatusError::ModuleNotFound("battery".to_string()))
    }
}

/// A shell that a completion script can be written for.
#[derive(Clone, Copy, Debug, PartialEq, Eq)]
pub enum Shell {
    Bash,
    Elvish,
    Fish,
    PowerShell,
    Zsh,
}

/// Whether `name` names a shell that completion scripts can be written for.
pub open spec fn is_shell_name(name: Seq<char>) -> bool {
    name == "bash"@ || name == "elvish"@ || name == "fish"@ || name == "powershell"@ || name
        == "zsh"@
}

/// The shell called `name`: `bash`, `elvish`, `fish`, `powershell` or `zsh`.
pub fn shell_named(name: &str) -> (s: Shell)
    requires
        is_shell_name(name@),
    ensures
        name@ == "bash"@ ==> s == Shell::Bash,
        name@ == "elvish"@ ==> s == Shell::Elvish,
        name@ == "fish"@ ==> s == Shell::Fish,
        name@ == "powershell"@ ==> s == Shell::PowerShell,
        name@ == "zsh"@ ==> s == Shell::Zsh,
{
    proof {
        reveal_strlit("zsh");
        reveal_strlit("bash");
        reveal_strlit("elvish");
        reveal_strlit("fish");
        reveal_strlit("powershell");
        assert("bash"@.len() == 4 && "elvish"@.len() == 6 && "fish"@.len() == 4);
        assert("powershell"@.len() == 10 && "zsh"@.len() == 3);
        assert("bash"@[0] != "fish"@[0]);
    }
    if str_is(name, "bash") {
        Shell::Bash
    } else if str_is(name, "elvish") {
        Shell::Elvish
    } else if str_is(name, "fish") {
        Shell::Fish
    } else if str_is(name, "powershell") {
        Shell::PowerShell
    } else {
        Shell::Zsh
    }
}

} // verus!

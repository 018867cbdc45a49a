//! `m2s2 completions`: which shell, where its completion script goes, and whether its rc file
//! already sources it.

use crate::paths::{join, join_spec};
use crate::text::{cat, cat3, chars_of, contains_seq, owned, str_contains, str_equal, string_of};
use vstd::prelude::*;

verus! {

/// The shells completions can be installed for.
#[derive(Clone, Copy, Debug, PartialEq, Eq, Structural)]
pub enum ShellKind {
    Bash,
    Elvish,
    Fish,
    PowerShell,
    Zsh,
}

pub const SHELL_UNSET: &'static str = "$SHELL is not set — pass the shell name explicitly (e.g. m2s2 completions zsh)";

pub const HOME_UNSET: &'static str = "$HOME is not set";

/// The last component of a path: what follows its last `/`, trailing slashes ignored.
pub open spec fn last_component(path: Seq<char>) -> Seq<char>
    decreases path.len(),
{
    if path.len() > 0 && path.last() == '/' {
        last_component(path.drop_last())
    } else {
        after_last_slash(path, path.len() as int)
    }
}

/// What follows the last `/` before `end` in `s`, up to `end`.
pub open spec fn after_last_slash(s: Seq<char>, end: int) -> Seq<char>
    decreases end,
{
    if end <= 0 {
        s
    } else if s[end - 1] == '/' {
        s.subrange(end, s.len() as int)
    } else {
        after_last_slash(s, end - 1)
    }
}

fn file_name_of(path: &str) -> (r: String)
    ensures
        r@ == last_component(path@),
{
    let v = chars_of(path);
    let mut n: usize = v.len();
    assert(v@.take(n as int) =~= v@);
    while n > 0 && v[n - 1] == '/'
        invariant
            n <= v.len(),
            v@ == path@,
            last_component(path@) == last_component(v@.take(n as int)),
        decreases n,
    {
        assert(v@.take(n as int).drop_last() =~= v@.take(n - 1));
        n = n - 1;
    }
    let ghost t = v@.take(n as int);
    let mut start: usize = n;
    while start > 0 && v[start - 1] != '/'
        invariant
            start <= n <= v.len(),
            v@ == path@,
            t == v@.take(n as int),
            after_last_slash(t, n as int) == after_last_slash(t, start as int),
        decreases start,
    {
        start = start - 1;
    }
    let mut out: Vec<char> = Vec::new();
    let mut k: usize = start;
    while k < n
        invariant
            start <= k <= n <= v.len(),
            out@ == v@.subrange(start as int, k as int),
        decreases n - k,
    {
        out.push(v[k]);
        assert(out@ =~= v@.subrange(start as int, k + 1));
        k = k + 1;
    }
    if start == 0 {
        assert(out@ =~= t);
    } else {
        assert(t[start - 1] == '/');
        assert(out@ =~= t.subrange(start as int, t.len() as int));
    }
    string_of(&out)
}

pub open spec fn shell_named(name: Seq<char>) -> Option<ShellKind> {
    if name == "zsh"@ {
        Some(ShellKind::Zsh)
    } else if name == "bash"@ {
        Some(ShellKind::Bash)
    } else if name == "fish"@ {
        Some(ShellKind::Fish)
    } else if name == "elvish"@ {
        Some(ShellKind::Elvish)
    } else {
        None
    }
}

/// The shell a `$SHELL` path names: zsh, bash, fish or elvish by its file name; any other
/// shell is an error naming it.
pub fn detect_shell(shell_path: &str) -> (r: Result<ShellKind, String>)
    ensures
        match shell_named(last_component(shell_path@)) {
            Some(k) => r == Ok::<ShellKind, String>(k),
            None => r matches Err(e) && e@ == "shell '"@ + last_component(shell_path@)
                + "' is not supported — pass one of: zsh, bash, fish, elvish, powershell"@,
        },
{
    let name = file_name_of(shell_path);
    let n = name.as_str();
    if str_equal(n, "zsh") {
        Ok(ShellKind::Zsh)
    } else if str_equal(n, "bash") {
        Ok(ShellKind::Bash)
    } else if str_equal(n, "fish") {
        Ok(ShellKind::Fish)
    } else if str_equal(n, "elvish") {
        Ok(ShellKind::Elvish)
    } else {
        Err(cat3("shell '", n, "' is not supported — pass one of: zsh, bash, fish, elvish, powershell"))
    }
}

/// Where fish reads completions from, under the home directory.
pub fn fish_completions_dir(home: &str) -> (r: String)
    ensures
        r@ == join_spec(home@, ".config/fish/completions"@),
{
    join(home, ".config/fish/completions")
}

pub open spec fn rc_names(shell: ShellKind) -> Option<(Seq<char>, Seq<char>)> {
    match shell {
        ShellKind::Zsh => Some((".m2s2-completions.zsh"@, ".zshrc"@)),
        ShellKind::Bash => Some((".m2s2-completions.bash"@, ".bashrc"@)),
        ShellKind::Elvish => Some((".m2s2-completions.elv"@, ".elvish/rc.elv"@)),
        ShellKind::PowerShell => Some(
            (".m2s2-completions.ps1"@, ".config/powershell/Microsoft.PowerShell_profile.ps1"@),
        ),
        ShellKind::Fish => None,
    }
}

/// The completion script and the rc file that must source it, under the home directory; fish
/// has no rc file to edit.
pub fn rc_paths(shell: ShellKind, home: &str) -> (r: Result<(String, String), String>)
    ensures
        match rc_names(shell) {
            Some((dot, rc)) => r matches Ok((f, g)) && f@ == join_spec(home@, dot) && g@
                == join_spec(home@, rc),
            None => r matches Err(e) && e@ == "unsupported shell"@,
        },
{
    let (dot, rc) = match shell {
        ShellKind::Zsh => (".m2s2-completions.zsh", ".zshrc"),
        ShellKind::Bash => (".m2s2-completions.bash", ".bashrc"),
        ShellKind::Elvish => (".m2s2-completions.elv", ".elvish/rc.elv"),
        ShellKind::PowerShell => (
            ".m2s2-completions.ps1",
            ".config/powershell/Microsoft.PowerShell_profile.ps1",
        ),
        ShellKind::Fish => {
            return Err(owned("unsupported shell"));
        },
    };
    Ok((join(home, dot), join(home, rc)))
}

/// The line that makes an rc file source the completion script.
pub fn source_line(completions_file: &str) -> (r: String)
    ensures
        r@ == "source "@ + completions_file@,
{
    cat("source ", completions_file)
}

/// Whether the rc file's current text already sources the script.
pub fn already_sourced(existing: &str, line: &str) -> (r: bool)
    ensures
        r == contains_seq(existing@, line@),
{
    str_contains(existing, line)
}

/// What is appended to the rc file.
pub fn rc_addition(line: &str) -> (r: String)
    ensures
        r@ == "\n# m2s2 shell completions\n"@ + line@ + "\n"@,
{
    cat3("\n# m2s2 shell completions\n", line, "\n")
}

} // verus!

use vstd::prelude::*;
use vstd::string::*;
use crate::text::{contains, has_infix, same_text};

verus! {

/// The two families of platform that the tool tells apart.
#[derive(Clone, Copy, Debug, PartialEq, Eq, Structural)]
pub enum Platform {
    UnixLike,
    Windows,
}

pub open spec fn platform_of(os: Seq<char>) -> Platform {
    if os == "windows"@ {
        Platform::Windows
    } else {
        Platform::UnixLike
    }
}

pub open spec fn os_display_name(os: Seq<char>) -> Seq<char> {
    if os == "linux"@ {
        "Linux"@
    } else if os == "macos"@ {
        "macOS"@
    } else if os == "windows"@ {
        "Windows"@
    } else {
        os
    }
}

/// The part of a path after its last `/`.
pub open spec fn last_segment(s: Seq<char>) -> Seq<char>
    decreases s.len(),
{
    if s.len() == 0 {
        s
    } else if s.last() == '/' {
        Seq::empty()
    } else {
        last_segment(s.drop_last()).push(s.last())
    }
}

/// The lower-case form of a string, as `str::to_lowercase` gives it.
pub uninterp spec fn lowercase_of(s: Seq<char>) -> Seq<char>;

/// Relies on `str::to_lowercase`, whose result depends on the characters alone.
#[verifier::external_body]
fn to_lower(s: &str) -> (r: String)
    ensures
        r@ == lowercase_of(s@),
{
    s.to_lowercase()
}

/// What the environment says about the shell in use.
pub struct ShellEnv {
    /// `SHELL`, on Unix-like systems.
    pub shell: Option<String>,
    /// Whether `PSVersionTable` is set.
    pub ps_version_table: bool,
    /// `TERM_PROGRAM`.
    pub term_program: Option<String>,
    /// `ComSpec`.
    pub comspec: Option<String>,
}

pub open spec fn unix_shell(shell: Option<Seq<char>>) -> Seq<char> {
    match shell {
        Some(p) => if last_segment(p).len() > 0 {
            last_segment(p)
        } else {
            "bash"@
        },
        None => "bash"@,
    }
}

/// The Windows shell, given the lower-case forms of `TERM_PROGRAM` and `ComSpec`.
pub open spec fn windows_shell(
    ps_version_table: bool,
    term_lower: Option<Seq<char>>,
    comspec_lower: Option<Seq<char>>,
) -> Seq<char> {
    if ps_version_table {
        "powershell"@
    } else if term_lower is Some && has_infix(term_lower->0, "powershell"@) {
        "powershell"@
    } else if comspec_lower is Some && has_infix(comspec_lower->0, "cmd"@) {
        "cmd"@
    } else {
        "powershell"@
    }
}

pub open spec fn string_text(o: Option<String>) -> Option<Seq<char>> {
    match o {
        Some(s) => Some(s@),
        None => None,
    }
}

pub open spec fn lowered(o: Option<String>) -> Option<Seq<char>> {
    match o {
        Some(s) => Some(lowercase_of(s@)),
        None => None,
    }
}

pub open spec fn shell_of(platform: Platform, env: ShellEnv) -> Seq<char> {
    match platform {
        Platform::UnixLike => unix_shell(string_text(env.shell)),
        Platform::Windows => windows_shell(
            env.ps_version_table,
            lowered(env.term_program),
            lowered(env.comspec),
        ),
    }
}

impl Platform {
    /// The platform family of an OS name as `std::env::consts::OS` gives it.
    pub fn from_os(os: &str) -> (r: Platform)
        ensures
            r == platform_of(os@),
    {
        if same_text(os, "windows") {
            Platform::Windows
        } else {
            Platform::UnixLike
        }
    }

    /// The device to read the controlling terminal from.
    pub fn terminal_device(&self) -> (r: &'static str)
        ensures
            r@ == (match *self {
                Platform::UnixLike => "/dev/tty"@,
                Platform::Windows => "CONIN$"@,
            }),
    {
        match self {
            Platform::UnixLike => "/dev/tty",
            Platform::Windows => "CONIN$",
        }
    }

    /// The command interpreter and the flag that hands it one command line.
    pub fn shell_invocation(&self) -> (r: (&'static str, &'static str))
        ensures
            (r.0@, r.1@) == (match *self {
                Platform::UnixLike => ("sh"@, "-c"@),
                Platform::Windows => ("cmd"@, "/C"@),
            }),
    {
        match self {
            Platform::UnixLike => ("sh", "-c"),
            Platform::Windows => ("cmd", "/C"),
        }
    }
}

/// The name shown for an OS name as `std::env::consts::OS` gives it.
pub fn detect_os(os: &str) -> (r: String)
    ensures
        r@ == os_display_name(os@),
{
    if same_text(os, "linux") {
        String::from_str("Linux")
    } else if same_text(os, "macos") {
        String::from_str("macOS")
    } else if same_text(os, "windows") {
        String::from_str("Windows")
    } else {
        String::from_str(os)
    }
}

/// The last segment of the shell path, or `bash` where there is none.
pub fn unix_shell_name(shell: Option<&str>) -> (r: String)
    ensures
        r@ == unix_shell(
            match shell {
                Some(s) => Some(s@),
                None => None,
            },
        ),
{
    match shell {
        None => String::from_str("bash"),
        Some(p) => {
            let n = p.unicode_len();
            let mut j: usize = n;
            assert(p@.subrange(0, n as int) =~= p@);
            assert(p@.subrange(n as int, n as int) =~= Seq::<char>::empty());
            while j > 0 && p.get_char(j - 1) != '/'
                invariant
                    j <= n,
                    n == p@.len(),
                    last_segment(p@) == last_segment(p@.subrange(0, j as int)) + p@.subrange(
                        j as int,
                        n as int,
                    ),
                decreases j,
            {
                let ghost pre = p@.subrange(0, j as int);
                assert(pre.drop_last() =~= p@.subrange(0, j - 1));
                assert(pre.last() == p@[j - 1]);
                assert(last_segment(pre.drop_last()).push(pre.last()) + p@.subrange(j as int, n as int)
                    =~= last_segment(pre.drop_last()) + p@.subrange(j - 1, n as int));
                j -= 1;
            }
            assert(last_segment(p@.subrange(0, j as int)) =~= Seq::<char>::empty());
            assert(Seq::<char>::empty() + p@.subrange(j as int, n as int) =~= p@.subrange(
                j as int,
                n as int,
            ));
            if j == n {
                String::from_str("bash")
            } else {
                String::from_str(p.substring_char(j, n))
            }
        },
    }
}

/// The Windows shell, given the lower-case forms of `TERM_PROGRAM` and `ComSpec`.
pub fn windows_shell_from_lowered(
    ps_version_table: bool,
    term_lower: Option<&str>,
    comspec_lower: Option<&str>,
) -> (r: String)
    ensures
        r@ == windows_shell(
            ps_version_table,
            match term_lower {
                Some(s) => Some(s@),
                None => None,
            },
            match comspec_lower {
                Some(s) => Some(s@),
                None => None,
            },
        ),
{
    if ps_version_table {
        return String::from_str("powershell");
    }
    match term_lower {
        Some(t) => {
            if contains(t, "powershell") {
                return String::from_str("powershell");
            }
        },
        None => {},
    }
    match comspec_lower {
        Some(c) => {
            if contains(c, "cmd") {
                return String::from_str("cmd");
            }
        },
        None => {},
    }
    String::from_str("powershell")
}

/// The Windows shell that the environment points to; PowerShell unless `ComSpec`
/// names `cmd` and nothing names PowerShell.
pub fn windows_shell_name(
    ps_version_table: bool,
    term_program: Option<&str>,
    comspec: Option<&str>,
) -> (r: String)
    ensures
        r@ == windows_shell(
            ps_version_table,
            match term_program {
                Some(s) => Some(lowercase_of(s@)),
                None => None,
            },
            match comspec {
                Some(s) => Some(lowercase_of(s@)),
                None => None,
            },
        ),
{
    let term_lower = match term_program {
        Some(t) => Some(to_lower(t)),
        None => None,
    };
    let comspec_lower = match comspec {
        Some(c) => Some(to_lower(c)),
        None => None,
    };
    let t = match &term_lower {
        Some(s) => Some(s.as_str()),
        None => None,
    };
    let c = match &comspec_lower {
        Some(s) => Some(s.as_str()),
        None => None,
    };
    windows_shell_from_lowered(ps_version_table, t, c)
}

/// The name of the shell in use; never empty.
pub fn detect_shell(platform: Platform, env: &ShellEnv) -> (r: String)
    ensures
        r@ == shell_of(platform, *env),
        r@.len() > 0,
{
    proof {
        lemma_shell_never_empty(platform, *env);
    }
    match platform {
        Platform::UnixLike => {
            let s = match &env.shell {
                Some(s) => Some(s.as_str()),
                None => None,
            };
            unix_shell_name(s)
        },
        Platform::Windows => {
            let t = match &env.term_program {
                Some(s) => Some(s.as_str()),
                None => None,
            };
            let c = match &env.comspec {
                Some(s) => Some(s.as_str()),
                None => None,
            };
            windows_shell_name(env.ps_version_table, t, c)
        },
    }
}

/// Whatever the platform and the environment, the detected shell has a name.
pub proof fn lemma_shell_never_empty(platform: Platform, env: ShellEnv)
    ensures
        shell_of(platform, env).len() > 0,
{
    reveal_strlit("bash");
    reveal_strlit("powershell");
    reveal_strlit("cmd");
}

} // verus!

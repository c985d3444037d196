//! The platforms the shell runs on, and where each keeps the daemon executable.

use vstd::prelude::*;

verus! {

/// An operating system the shell is built for.
#[derive(Clone, Copy, Debug, PartialEq, Eq, Structural)]
pub enum Platform {
    MacOs,
    Linux,
    Windows,
}

/// The directory below `bin/` that holds the executables of a platform.
pub open spec fn platform_dir(platform: Platform) -> Seq<char> {
    match platform {
        Platform::MacOs => "darwin"@,
        Platform::Linux => "linux"@,
        Platform::Windows => "win32"@,
    }
}

/// What a platform appends to the name of an executable file.
pub open spec fn exe_suffix(platform: Platform) -> Seq<char> {
    match platform {
        Platform::Windows => ".exe"@,
        _ => Seq::<char>::empty(),
    }
}

/// The path of the daemon executable, relative to the directory the shell is
/// installed in: `bin/<platform>/sumo-daemon`, with the platform's suffix.
pub open spec fn daemon_path(platform: Platform) -> Seq<char> {
    "bin/"@ + platform_dir(platform) + "/sumo-daemon"@ + exe_suffix(platform)
}

/// Tells whether `path` is a relative path that names something: it is not
/// empty and does not begin at the root of the file system.
pub open spec fn is_relative_path(path: Seq<char>) -> bool {
    path.len() > 0 && path[0] != '/' && path[0] != '\\'
}

proof fn lemma_reveal_path_parts()
    ensures
        "bin/"@ == seq!['b', 'i', 'n', '/'],
        "/sumo-daemon"@ == seq!['/', 's', 'u', 'm', 'o', '-', 'd', 'a', 'e', 'm', 'o', 'n'],
        "darwin"@ == seq!['d', 'a', 'r', 'w', 'i', 'n'],
        "linux"@ == seq!['l', 'i', 'n', 'u', 'x'],
        "win32"@ == seq!['w', 'i', 'n', '3', '2'],
        ".exe"@ == seq!['.', 'e', 'x', 'e'],
{
    reveal_strlit("bin/");
    reveal_strlit("/sumo-daemon");
    reveal_strlit("darwin");
    reveal_strlit("linux");
    reveal_strlit("win32");
    reveal_strlit(".exe");
    assert("bin/"@ =~= seq!['b', 'i', 'n', '/']);
    assert("/sumo-daemon"@ =~= seq!['/', 's', 'u', 'm', 'o', '-', 'd', 'a', 'e', 'm', 'o', 'n']);
    assert("darwin"@ =~= seq!['d', 'a', 'r', 'w', 'i', 'n']);
    assert("linux"@ =~= seq!['l', 'i', 'n', 'u', 'x']);
    assert("win32"@ =~= seq!['w', 'i', 'n', '3', '2']);
    assert(".exe"@ =~= seq!['.', 'e', 'x', 'e']);
}

/// Every platform has a daemon path, and it is a relative one.
pub proof fn lemma_daemon_path_is_relative(platform: Platform)
    ensures
        is_relative_path(daemon_path(platform)),
{
    lemma_reveal_path_parts();
    assert(daemon_path(platform)[0] == 'b');
}

/// No two platforms share a daemon path: the path tells the platform.
pub proof fn lemma_daemon_path_tells_platform(a: Platform, b: Platform)
    requires
        daemon_path(a) == daemon_path(b),
    ensures
        a == b,
{
    lemma_reveal_path_parts();
    let pa = daemon_path(a);
    let pb = daemon_path(b);
    assert(pa[4] == pb[4]);
    assert(pa[4] == platform_dir(a)[0]);
    assert(pb[4] == platform_dir(b)[0]);
}

/// The daemon executable of `platform`.
pub fn binary_path(platform: Platform) -> (path: &'static str)
    ensures
        path@ == daemon_path(platform),
        is_relative_path(path@),
{
    proof {
        lemma_daemon_path_is_relative(platform);
        lemma_reveal_path_parts();
        reveal_strlit("bin/darwin/sumo-daemon");
        reveal_strlit("bin/linux/sumo-daemon");
        reveal_strlit("bin/win32/sumo-daemon.exe");
    }
    match platform {
        Platform::MacOs => "bin/darwin/sumo-daemon",
        Platform::Linux => "bin/linux/sumo-daemon",
        Platform::Windows => "bin/win32/sumo-daemon.exe",
    }
}

} // verus!

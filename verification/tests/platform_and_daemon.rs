use sumo_shell::daemon::{launch_spec, StreamMode};
use sumo_shell::platform::{binary_path, Platform};

#[test]
fn macos_daemon_path() {
    assert_eq!(binary_path(Platform::MacOs), "bin/darwin/sumo-daemon");
}

#[test]
fn linux_daemon_path() {
    assert_eq!(binary_path(Platform::Linux), "bin/linux/sumo-daemon");
}

#[test]
fn windows_daemon_path() {
    assert_eq!(binary_path(Platform::Windows), "bin/win32/sumo-daemon.exe");
}

#[test]
fn daemon_paths_are_relative_and_not_empty() {
    for platform in [Platform::MacOs, Platform::Linux, Platform::Windows] {
        let path = binary_path(platform);
        assert!(!path.is_empty());
        assert!(!path.starts_with('/'));
        assert!(!path.starts_with('\\'));
        assert!(path.starts_with("bin/"));
    }
}

#[test]
fn daemon_paths_differ_by_platform() {
    let all = [Platform::MacOs, Platform::Linux, Platform::Windows];
    for a in all {
        for b in all {
            assert_eq!(binary_path(a) == binary_path(b), a == b);
        }
    }
}

#[test]
fn only_windows_has_a_suffix() {
    assert!(binary_path(Platform::Windows).ends_with("sumo-daemon.exe"));
    assert!(binary_path(Platform::Linux).ends_with("/sumo-daemon"));
    assert!(binary_path(Platform::MacOs).ends_with("/sumo-daemon"));
}

#[test]
fn launch_has_the_fixed_arguments() {
    let spec = launch_spec(Platform::Linux);
    assert_eq!(spec.argv, vec!["--port", "5040", "--profile", ".sumo"]);
}

#[test]
fn launch_discards_all_three_streams() {
    for platform in [Platform::MacOs, Platform::Linux, Platform::Windows] {
        let spec = launch_spec(platform);
        assert_eq!(spec.stdin, StreamMode::Discard);
        assert_eq!(spec.stdout, StreamMode::Discard);
        assert_eq!(spec.stderr, StreamMode::Discard);
    }
}

#[test]
fn launch_names_the_platform_executable() {
    for platform in [Platform::MacOs, Platform::Linux, Platform::Windows] {
        let spec = launch_spec(platform);
        assert_eq!(spec.executable_path, binary_path(platform));
        assert_eq!(spec.argv.len(), 4);
    }
}

#[test]
fn launch_is_the_same_on_every_call() {
    assert_eq!(launch_spec(Platform::Windows), launch_spec(Platform::Windows));
    assert_ne!(launch_spec(Platform::Windows), launch_spec(Platform::Linux));
}

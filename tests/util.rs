use toolchain_util::relay::{PipeError, Relay, RelayAction, RelayEvent};
use toolchain_util::search::{
    host_target_triple, run_and_search, HostTargetTripleError, Pattern, RunAndSearchError,
};
use toolchain_util::text::{decimal_string, list_display, prepend_to_path, reverse_domain};
use toolchain_util::version::{
    compatibility_window, CompatibilityWindow, HostOs, RustVersion, RustVersionError,
};

fn strings(items: &[&str]) -> Vec<String> {
    items.iter().map(|s| s.to_string()).collect()
}

fn command_error() -> bossy::Error {
    bossy::Command::impure("toolchain-util-no-such-program")
        .run_and_wait()
        .expect_err("the program does not exist")
}

fn version(triple: (u32, u32, u32), date: (u32, u32, u32)) -> RustVersion {
    RustVersion { triple, flavor: None, hash: "fffffffff".to_string(), date }
}

#[test]
fn list_display_one_item() {
    assert_eq!(list_display(&strings(&["apple"])), "apple");
}

#[test]
fn list_display_two_items() {
    assert_eq!(list_display(&strings(&["apple", "pear"])), "apple and pear");
}

#[test]
fn list_display_three_items() {
    assert_eq!(list_display(&strings(&["a", "b", "c"])), "a, b, and c");
}

#[test]
fn list_display_empty() {
    assert_eq!(list_display(&strings(&[])), "");
}

#[test]
fn reverse_domain_reverses_labels() {
    assert_eq!(reverse_domain("app.example.com"), "com.example.app");
}

#[test]
fn reverse_domain_edge_cases() {
    assert_eq!(reverse_domain("localhost"), "localhost");
    assert_eq!(reverse_domain(""), "");
    assert_eq!(reverse_domain("a..b"), "b..a");
    assert_eq!(reverse_domain(".x"), "x.");
}

#[test]
fn prepend_to_path_joins_with_colon() {
    assert_eq!(prepend_to_path("/opt/bin", "/usr/bin:/bin"), "/opt/bin:/usr/bin:/bin");
}

#[test]
fn decimal_string_values() {
    assert_eq!(decimal_string(0), "0");
    assert_eq!(decimal_string(7), "7");
    assert_eq!(decimal_string(2021), "2021");
    assert_eq!(decimal_string(u32::MAX), "4294967295");
}

#[test]
fn display_of_constructed_version() {
    let v = version((1, 49, 0), (2021, 2, 11));
    assert_eq!(v.to_string(), "1.49.0 (fffffffff 2021-2-11)");
}

#[test]
fn display_with_flavor_and_candidate() {
    let v = RustVersion {
        triple: (1, 50, 0),
        flavor: Some(("beta".to_string(), Some("3".to_string()))),
        hash: "0123abcde".to_string(),
        date: (2020, 12, 1),
    };
    assert_eq!(v.to_string(), "1.50.0-beta.3 (0123abcde 2020-12-1)");
    let v = RustVersion { flavor: Some(("nightly".to_string(), None)), ..v };
    assert_eq!(v.to_string(), "1.50.0-nightly (0123abcde 2020-12-1)");
}

#[test]
fn valid_everywhere_but_macos() {
    assert!(version((1, 47, 0), (2020, 1, 1)).valid(HostOs::Other));
    assert!(version((0, 0, 0), (0, 0, 0)).valid(HostOs::Other));
    assert!(version((1, 49, 0), (2020, 10, 23)).valid(HostOs::Other));
}

#[test]
fn valid_on_macos_at_last_good_stable() {
    assert!(version((1, 45, 2), (2020, 7, 30)).valid(HostOs::MacOs));
    assert!(version((1, 44, 9), (2020, 1, 1)).valid(HostOs::MacOs));
    assert!(!version((1, 45, 3), (2020, 8, 1)).valid(HostOs::MacOs));
    assert!(!version((1, 45, 3), (2021, 1, 1)).valid(HostOs::MacOs));
    assert!(!version((1, 48, 0), (2020, 11, 16)).valid(HostOs::MacOs));
}

#[test]
fn valid_on_macos_from_nightly_cutoff() {
    assert!(!version((1, 49, 0), (2020, 10, 23)).valid(HostOs::MacOs));
    assert!(version((1, 49, 0), (2020, 10, 24)).valid(HostOs::MacOs));
    assert!(version((1, 50, 0), (2021, 2, 11)).valid(HostOs::MacOs));
}

#[test]
fn check_reads_stable_version() {
    let out = "rustc 1.49.0 (e1884a8e3 2020-12-29)\n".to_string();
    let v = RustVersion::check("rustc --version".to_string(), Ok(out)).unwrap();
    assert_eq!(v.triple, (1, 49, 0));
    assert_eq!(v.flavor, None);
    assert_eq!(v.hash, "e1884a8e3");
    assert_eq!(v.date, (2020, 12, 29));
}

#[test]
fn check_reads_flavor_and_candidate() {
    let out = "rustc 1.50.0-beta.3 (0123abcde 2021-01-05)".to_string();
    let v = RustVersion::check("rustc --version".to_string(), Ok(out)).unwrap();
    assert_eq!(v.triple, (1, 50, 0));
    assert_eq!(v.flavor, Some(("beta".to_string(), Some("3".to_string()))));
    assert_eq!(v.date, (2021, 1, 5));
    let out = "rustc 1.51.0-nightly (fedcba987 2021-01-20)".to_string();
    let v = RustVersion::check("rustc --version".to_string(), Ok(out)).unwrap();
    assert_eq!(v.flavor, Some(("nightly".to_string(), None)));
}

#[test]
fn check_without_match_keeps_output() {
    let out = "  something else entirely\n".to_string();
    match RustVersion::check("rustc --version".to_string(), Ok(out.clone())) {
        Err(RustVersionError::CommandFailed(RunAndSearchError::SearchFailed { command, output })) => {
            assert_eq!(command, "rustc --version");
            assert_eq!(output, out);
        }
        other => panic!("unexpected {:?}", other),
    }
}

#[test]
fn check_names_major_field() {
    let out = "rustc 99999999999.49.0 (fffffffff 2021-02-11)".to_string();
    match RustVersion::check("rustc --version".to_string(), Ok(out)) {
        Err(RustVersionError::MajorInvalid { version, .. }) => assert_eq!(version, "99999999999.49.0"),
        other => panic!("unexpected {:?}", other),
    }
}

#[test]
fn check_names_patch_field() {
    let out = "rustc 1.49.\u{0663} (fffffffff 2021-02-11)".to_string();
    match RustVersion::check("rustc --version".to_string(), Ok(out)) {
        Err(RustVersionError::PatchInvalid { version, .. }) => assert_eq!(version, "1.49.\u{0663}"),
        other => panic!("unexpected {:?}", other),
    }
}

#[test]
fn check_names_day_field() {
    let out = "rustc 1.49.0 (fffffffff 2021-02-1\u{0661})".to_string();
    match RustVersion::check("rustc --version".to_string(), Ok(out)) {
        Err(RustVersionError::DayInvalid { date, .. }) => assert_eq!(date, "2021-02-1\u{0661}"),
        other => panic!("unexpected {:?}", other),
    }
}

#[test]
fn check_passes_command_failure_on() {
    let r = RustVersion::check("rustc --version".to_string(), Err(command_error()));
    assert!(matches!(r, Err(RustVersionError::CommandFailed(RunAndSearchError::CommandFailed(_)))));
}

#[test]
fn run_and_search_gives_groups() {
    let out = "release\nhost: aarch64-linux-android\n".to_string();
    let g = run_and_search("rustc -vV".to_string(), Ok(out), Pattern::HostTriple).unwrap();
    assert_eq!(g, vec![Some("host: aarch64-linux-android".to_string()), Some("aarch64-linux-android".to_string())]);
}

#[test]
fn run_and_search_without_match() {
    let out = "no host line".to_string();
    match run_and_search("rustc -vV".to_string(), Ok(out), Pattern::HostTriple) {
        Err(RunAndSearchError::SearchFailed { command, output }) => {
            assert_eq!(command, "rustc -vV");
            assert_eq!(output, "no host line");
        }
        other => panic!("unexpected {:?}", other),
    }
}

#[test]
fn host_target_triple_from_verbose_version() {
    let out = "rustc 1.49.0 (e1884a8e3 2020-12-29)\nbinary: rustc\nhost: x86_64-apple-darwin\nrelease: 1.49.0\n";
    let t = host_target_triple("rustc --verbose --version".to_string(), Ok(out.to_string())).unwrap();
    assert_eq!(t, "x86_64-apple-darwin");
}

#[test]
fn host_target_triple_without_host_line() {
    let r = host_target_triple("rustc --verbose --version".to_string(), Ok("rustc 1.49.0".to_string()));
    assert!(matches!(
        r,
        Err(HostTargetTripleError::CommandFailed(RunAndSearchError::SearchFailed { .. }))
    ));
}

#[test]
fn relay_empty_output_finishes_false() {
    let (relay, action) = Relay::start();
    assert!(matches!(action, RelayAction::Produce));
    let (relay, action) = relay.step(RelayEvent::Produced(Ok(Vec::new())));
    assert!(matches!(relay, Relay::Done));
    assert!(matches!(action, RelayAction::Finish(Ok(false))));
}

#[test]
fn relay_success_finishes_true() {
    let (relay, _) = Relay::start();
    let (relay, action) = relay.step(RelayEvent::Produced(Ok(b"diff".to_vec())));
    assert!(matches!(action, RelayAction::Launch));
    let (relay, action) = relay.step(RelayEvent::Launched(Ok(())));
    match action {
        RelayAction::Write(bytes) => assert_eq!(bytes, b"diff".to_vec()),
        other => panic!("unexpected {:?}", other),
    }
    let (relay, action) = relay.step(RelayEvent::Written(Ok(())));
    assert!(matches!(action, RelayAction::Wait));
    let (relay, action) = relay.step(RelayEvent::Waited(Ok(())));
    assert!(matches!(relay, Relay::Done));
    assert!(matches!(action, RelayAction::Finish(Ok(true))));
}

#[test]
fn relay_write_failure_wins_over_wait_failure() {
    let (relay, _) = Relay::start();
    let (relay, _) = relay.step(RelayEvent::Produced(Ok(b"x".to_vec())));
    let (relay, _) = relay.step(RelayEvent::Launched(Ok(())));
    let broken = std::io::Error::new(std::io::ErrorKind::BrokenPipe, "closed");
    let (relay, action) = relay.step(RelayEvent::Written(Err(broken)));
    assert!(matches!(action, RelayAction::Wait));
    let (_, action) = relay.step(RelayEvent::Waited(Err(command_error())));
    match action {
        RelayAction::Finish(Err(PipeError::PipeFailed(e))) => {
            assert_eq!(e.kind(), std::io::ErrorKind::BrokenPipe)
        }
        other => panic!("unexpected {:?}", other),
    }
}

#[test]
fn relay_wait_failure_alone() {
    let (relay, _) = Relay::start();
    let (relay, _) = relay.step(RelayEvent::Produced(Ok(b"x".to_vec())));
    let (relay, _) = relay.step(RelayEvent::Launched(Ok(())));
    let (relay, _) = relay.step(RelayEvent::Written(Ok(())));
    let (_, action) = relay.step(RelayEvent::Waited(Err(command_error())));
    assert!(matches!(action, RelayAction::Finish(Err(PipeError::WaitFailed(_)))));
}

#[test]
fn relay_launch_failures() {
    let (relay, _) = Relay::start();
    let (_, action) = relay.step(RelayEvent::Produced(Err(command_error())));
    assert!(matches!(action, RelayAction::Finish(Err(PipeError::TxCommandFailed(_)))));
    let (relay, _) = Relay::start();
    let (relay, _) = relay.step(RelayEvent::Produced(Ok(b"x".to_vec())));
    let (relay, action) = relay.step(RelayEvent::Launched(Err(command_error())));
    assert!(matches!(relay, Relay::Done));
    assert!(matches!(action, RelayAction::Finish(Err(PipeError::RxCommandFailed(_)))));
}

#[test]
fn relay_accepts_only_the_awaited_event() {
    let (relay, _) = Relay::start();
    assert!(relay.accepts(&RelayEvent::Produced(Ok(Vec::new()))));
    assert!(!relay.accepts(&RelayEvent::Waited(Ok(()))));
}

#[test]
fn compatibility_window_per_platform() {
    assert_eq!(
        compatibility_window(HostOs::MacOs),
        Some(CompatibilityWindow {
            last_good_stable: (1, 45, 2),
            next_good_stable: (1, 49, 0),
            first_good_nightly: (2020, 10, 24),
        })
    );
    assert_eq!(compatibility_window(HostOs::Other), None);
}

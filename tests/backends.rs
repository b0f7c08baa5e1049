use cleanup::{
    DeviceEntry, DeviceGroup, MeasuredRuntime, ReleaseEntry, Rust, RuntimeEntry, Simulator,
    SimulatorKind, Solana, Status, ToolchainEntry,
};

fn toolchain(name: &str, size: u64, out: Option<&str>) -> ToolchainEntry {
    ToolchainEntry {
        name: name.to_string(),
        size,
        version_output: out.map(|s| s.to_string()),
    }
}

fn release(name: &str, size: u64) -> ReleaseEntry {
    ReleaseEntry {
        name: name.to_string(),
        path: format!("/releases/{}", name),
        size,
        version_output: Some(format!("solana-cli {} (src:abc)", name)),
    }
}

#[test]
fn active_toolchain_is_first_token() {
    assert_eq!(
        Rust::active_toolchain("stable-aarch64-apple-darwin (default)\n"),
        Some("stable-aarch64-apple-darwin".to_string())
    );
    assert_eq!(Rust::active_toolchain(""), None);
}

#[test]
fn missing_manager_gives_no_toolchains() {
    let entries = vec![toolchain("stable-x86_64", 4096, Some("rustc 1.75.0 (x)"))];
    let list = Rust::get_rust_versions(false, &Some("stable".to_string()), &entries);
    assert!(list.is_empty());
    let summary = Status::summarize(&list, &Vec::new(), &Vec::new());
    assert_eq!(summary.rust_count, 0);
    assert_eq!(summary.total_bytes, 0);
}

#[test]
fn toolchains_are_marked_by_loose_match() {
    let entries = vec![
        toolchain("stable-x86_64-unknown-linux-gnu", 4096, Some("rustc 1.75.0 (x)")),
        toolchain("nightly-x86_64-unknown-linux-gnu", 2048, None),
    ];
    let list = Rust::get_rust_versions(true, &Some("stable".to_string()), &entries);
    assert_eq!(list.len(), 2);
    assert!(list[0].is_active);
    assert_eq!(list[0].version, Some("1.75.0".to_string()));
    assert!(!list[1].is_active);
    assert_eq!(list[1].version, None);
    assert_eq!(list[1].size, 2048);
    let none_active = Rust::get_rust_versions(true, &None, &entries);
    assert!(!none_active[0].is_active);
}

#[test]
fn selection_labels_show_size() {
    let list = Rust::get_rust_versions(true, &None, &vec![toolchain("beta", 2048, None)]);
    assert_eq!(Rust::selection_label(&list[0]), "beta (2.00 KB)");
    let rel = Solana::get_solana_versions(&None, &vec![release("stable-1.18.4", 5_242_880)]);
    assert_eq!(Solana::selection_label(&rel[0]), "stable-1.18.4 (5.00 MB)");
}

#[test]
fn active_release_from_link_target() {
    assert_eq!(
        Solana::active_release("/home/u/.local/share/solana/install/releases/stable-abc123/solana-release"),
        Some("stable-abc123".to_string())
    );
    assert_eq!(Solana::active_release("stable-first/stable-second"), Some("stable-first".to_string()));
    assert_eq!(Solana::active_release("/opt/releases/1.18.4/solana-release"), None);
    assert_eq!(Solana::active_release("/opt/unstable-1/x"), None);
    assert_eq!(Solana::active_release(""), None);
}

#[test]
fn active_release_is_not_a_candidate() {
    let entries = vec![release("stable-a", 10), release("stable-b", 20), release("1.17.0", 30)];
    let list = Solana::get_solana_versions(&Some("stable-b".to_string()), &entries);
    assert_eq!(list[1].version, Some("stable-b".to_string()));
    assert!(list[1].is_active);
    assert_eq!(Solana::cleanup_candidates(&list), vec![0, 2]);
    let undetected = Solana::get_solana_versions(&None, &entries);
    assert_eq!(Solana::cleanup_candidates(&undetected), vec![0, 1, 2]);
}

fn runtime(name: &str, id: &str) -> RuntimeEntry {
    RuntimeEntry {
        name: name.to_string(),
        identifier: id.to_string(),
        path: format!("/rt/{}", name),
        is_available: true,
        version: Some("17.0".to_string()),
    }
}

fn device(name: &str, udid: &str, size: u64, ok: bool) -> DeviceEntry {
    DeviceEntry {
        name: name.to_string(),
        identifier: udid.to_string(),
        path: format!("/dev/{}", udid),
        is_available: ok,
        size,
    }
}

#[test]
fn runtimes_are_followed_by_their_devices() {
    let runtimes = vec![
        MeasuredRuntime { entry: runtime("iOS 17", "rt.ios17"), size: 100 },
        MeasuredRuntime { entry: runtime("iOS 16", "rt.ios16"), size: 50 },
    ];
    let groups = vec![
        DeviceGroup {
            runtime_identifier: "rt.ios16".to_string(),
            devices: vec![device("iPhone 8", "U3", 7, false)],
        },
        DeviceGroup {
            runtime_identifier: "rt.ios17".to_string(),
            devices: vec![device("iPhone 15", "U1", 5, true), device("iPad", "U2", 6, true)],
        },
    ];
    let sims = Simulator::get_simulators(&runtimes, &groups);
    let names: Vec<&str> = sims.iter().map(|s| s.name.as_str()).collect();
    assert_eq!(names, vec!["iOS 17", "iPhone 15", "iPad", "iOS 16", "iPhone 8"]);
    assert_eq!(sims[0].simulator_type, SimulatorKind::Runtime);
    assert_eq!(sims[0].size, 100);
    assert_eq!(sims[0].version, Some("17.0".to_string()));
    assert_eq!(sims[1].simulator_type, SimulatorKind::Device);
    assert_eq!(sims[1].size, 5);
    assert_eq!(sims[1].version, None);
    assert_eq!(sims[0].delete_target(), "iOS 17");
    assert_eq!(sims[1].delete_target(), "U1");

    let summary = Status::summarize(&Vec::new(), &Vec::new(), &sims);
    assert_eq!(summary.simulator_count, 5);
    assert_eq!(summary.simulator_unavailable, 1);
    assert_eq!(summary.simulator_bytes, 168);
    assert_eq!(summary.total_bytes, 168);
}

#[test]
fn missing_registry_gives_no_simulators() {
    let sims = Simulator::get_simulators(&Vec::new(), &Vec::new());
    assert!(sims.is_empty());
}

#[test]
fn summary_adds_backends() {
    let rusts = Rust::get_rust_versions(true, &None, &vec![toolchain("a", 1000, None), toolchain("b", 24, None)]);
    let sols = Solana::get_solana_versions(&None, &vec![release("stable-a", 2048)]);
    let summary = Status::summarize(&rusts, &sols, &Vec::new());
    assert_eq!(summary.rust_count, 2);
    assert_eq!(summary.rust_bytes, 1024);
    assert_eq!(summary.solana_count, 1);
    assert_eq!(summary.solana_bytes, 2048);
    assert_eq!(summary.total_bytes, 3072);
}

#[test]
fn summary_totals_hold_at_largest_count() {
    let rusts = Rust::get_rust_versions(true, &None, &vec![toolchain("a", u64::MAX, None)]);
    let sols = Solana::get_solana_versions(&None, &vec![release("stable-a", 10)]);
    let summary = Status::summarize(&rusts, &sols, &Vec::new());
    assert_eq!(summary.total_bytes, u64::MAX);
    assert_eq!(summary.solana_bytes, 10);
}

#[test]
fn release_is_active_only_by_exact_name() {
    let entries = vec![release("stable-abc", 1), release("stable-abcd", 2)];
    let list = Solana::get_solana_versions(&Some("stable-abc".to_string()), &entries);
    assert!(list[0].is_active);
    assert!(!list[1].is_active);
    assert_eq!(Solana::cleanup_candidates(&list), vec![1]);
}

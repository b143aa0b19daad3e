//! The supporting pieces: the shutdown signal, allocation metering, the
//! write adaptor, and version data.

use cli_batteries::metered_allocator::{start_metering, MeteredAllocator};
use cli_batteries::shutdown::{is_shutting_down, reset_shutdown, shutdown, ShutdownSignal};
use cli_batteries::version::{base_app_crates, underscored};
use cli_batteries::write_adaptor::{WriteAdaptor, WriteError};
use cli_batteries::Version;

#[test]
fn shutdown_signal_round_trip() {
    let mut signal = ShutdownSignal::new();
    assert!(!is_shutting_down(&signal));
    shutdown(&mut signal);
    assert!(is_shutting_down(&signal));
    reset_shutdown(&mut signal);
    assert!(!is_shutting_down(&signal));
}

#[test]
fn metering_counts_only_once_started() {
    let mut alloc = MeteredAllocator::new(());
    alloc.count_alloc(100);
    assert_eq!(alloc.allocated, 0);
    start_metering(&mut alloc);
    alloc.count_alloc(100);
    alloc.count_dealloc(30);
    assert_eq!(alloc.allocated, 100);
    assert_eq!(alloc.freed, 30);
    alloc.count_realloc(10, 25);
    assert_eq!(alloc.allocated, 115);
    alloc.count_realloc(25, 10);
    assert_eq!(alloc.freed, 45);
}

#[test]
fn metering_counters_wrap() {
    let mut alloc = MeteredAllocator::new(());
    alloc.start_metering();
    alloc.count_alloc(usize::MAX);
    alloc.count_alloc(2);
    assert_eq!(alloc.allocated, (usize::MAX as u64).wrapping_add(2));
}

#[test]
fn write_adaptor_accepts_utf8_and_refuses_the_rest() {
    let mut sink = WriteAdaptor::new();
    assert_eq!(sink.write(b"hello "), Ok(6));
    assert_eq!(sink.write("wörld".as_bytes()), Ok(6));
    assert_eq!(sink.contents(), "hello wörld");
    assert_eq!(sink.write(&[0xff, 0xfe]), Err(WriteError::InvalidUtf8));
    assert_eq!(sink.contents(), "hello wörld");
    assert_eq!(sink.flush(), Ok(()));
}

#[test]
fn version_crate_names() {
    assert_eq!(underscored("my-app"), "my_app");
    assert_eq!(underscored("plain"), "plain");
    let crates = base_app_crates("my-app", "my_app_bin");
    assert_eq!(crates, vec!["my_app", "my_app_bin", "cli_batteries"]);
    let version = Version {
        pkg_name: "my-app".to_string(),
        pkg_version: "0.1.0".to_string(),
        pkg_repo: "https://example.invalid/my-app".to_string(),
        crate_name: "my_app".to_string(),
        commit_hash: "0123456789abcdef".to_string(),
        long_version: "0.1.0".to_string(),
        target: "x86_64-unknown-linux-gnu".to_string(),
        app_crates: crates,
    };
    assert_eq!(version.app_crates.len(), 3);
}

use yeet::{
    next_phase, should_exit, DaemonEvent, DaemonPhase,
    advance_frame, classify_record, contains_text, decimal, file_name, format_bytes, format_size,
    handshake_step, link_path, listing_items, local_url, lookup_outcome, name_precedes, plan_kill,
    plan_launch, plan_status, public_url, resolve_within, route_request, sort_listing,
    split_slashes, state_dir, state_file, tunnel_client_args, HandshakeAction, KillAction,
    LaunchStep, ListingEntry, LookupOutcome, RecordStatus, RetroTheme, Rgb, Route, StatusReport,
    TunnelBroker, TunnelState,
};

fn record(port: u16) -> TunnelState {
    TunnelState::new(
        "https://abc.trycloudflare.com/cat.jpg".to_string(),
        4242,
        port,
        "/tmp/cat.jpg".to_string(),
        1_700_000_000,
    )
}

#[test]
fn live_record_on_same_port_is_reused() {
    let existing = Some(record(8000));
    assert_eq!(
        classify_record(&existing, true, 8000),
        RecordStatus::LiveRecordSamePort
    );
    let steps = plan_launch(&existing, true, 8000);
    assert_eq!(steps, vec![LaunchStep::Present]);
    assert!(!steps.contains(&LaunchStep::SpawnDaemon));
}

#[test]
fn stale_record_is_removed_before_spawn() {
    let existing = Some(record(8000));
    let expected = vec![
        LaunchStep::DeleteRecord,
        LaunchStep::SpawnDaemon,
        LaunchStep::AwaitRecord,
        LaunchStep::Present,
    ];
    assert_eq!(classify_record(&existing, false, 8000), RecordStatus::StaleRecord);
    assert_eq!(plan_launch(&existing, false, 8000), expected);
    assert_eq!(plan_launch(&existing, false, 9000), expected);
}

#[test]
fn live_record_on_other_port_is_replaced() {
    let existing = Some(record(8000));
    assert_eq!(
        classify_record(&existing, true, 9000),
        RecordStatus::LiveRecordOtherPort
    );
    assert_eq!(plan_launch(&existing, true, 9000)[0], LaunchStep::DeleteRecord);
}

#[test]
fn no_record_spawns_without_delete() {
    assert_eq!(classify_record(&None, false, 8000), RecordStatus::NoRecord);
    assert_eq!(
        plan_launch(&None, false, 8000),
        vec![LaunchStep::SpawnDaemon, LaunchStep::AwaitRecord, LaunchStep::Present]
    );
}

#[test]
fn kill_twice_leaves_no_record() {
    let mut store = Some(record(8000));
    let first = plan_kill(&store, true);
    assert_eq!(first, KillAction::KillGroupAndDelete { pid: 4242 });
    store = None;
    let second = plan_kill(&store, false);
    assert_eq!(second, KillAction::NothingToKill);
    assert_eq!(plan_kill(&Some(record(8000)), false), KillAction::DeleteStale);
}

#[test]
fn status_reports_and_heals() {
    assert_eq!(plan_status(&None, false), StatusReport::NoState);
    assert_eq!(plan_status(&Some(record(1)), true), StatusReport::Alive);
    assert_eq!(plan_status(&Some(record(1)), false), StatusReport::Dead);
}

#[test]
fn handshake_waits_then_times_out() {
    assert_eq!(handshake_step(0, false), HandshakeAction::Wait { millis: 500 });
    assert_eq!(handshake_step(29_999, false), HandshakeAction::Wait { millis: 500 });
    assert_eq!(handshake_step(30_000, false), HandshakeAction::TimedOut);
    assert_eq!(handshake_step(30_000, true), HandshakeAction::Ready);
    assert_eq!(handshake_step(1_000, true), HandshakeAction::Ready);
}

#[test]
fn traversal_out_of_base_is_not_found() {
    assert_eq!(resolve_within("/srv/share", "/../../etc/passwd"), None);
    assert_eq!(
        route_request("/../../etc/passwd", "/srv/share", true),
        Route::NotFound
    );
    assert_eq!(resolve_within("/srv/share", "/a/../../b"), None);
}

#[test]
fn paths_inside_base_resolve() {
    assert_eq!(resolve_within("/srv/share", "/"), Some("/srv/share".to_string()));
    assert_eq!(resolve_within("/srv/share", ""), Some("/srv/share".to_string()));
    assert_eq!(
        resolve_within("/srv/share", "/docs/./a.txt"),
        Some("/srv/share/docs/a.txt".to_string())
    );
    assert_eq!(
        resolve_within("/srv/share", "/docs/../b.txt"),
        Some("/srv/share/b.txt".to_string())
    );
    assert_eq!(
        resolve_within("/srv/share", "//x//y/"),
        Some("/srv/share/x/y".to_string())
    );
    assert_eq!(
        route_request("/docs/a.txt", "/srv/share", true),
        Route::Lookup { path: "/srv/share/docs/a.txt".to_string() }
    );
}

#[test]
fn single_file_routes() {
    let served = Route::File { path: "/tmp/cat.jpg".to_string() };
    assert_eq!(route_request("/", "/tmp/cat.jpg", false), served);
    assert_eq!(route_request("/cat.jpg", "/tmp/cat.jpg", false), served);
    assert_eq!(route_request("/dog.jpg", "/tmp/cat.jpg", false), Route::NotFound);
    assert_eq!(route_request("/admin", "/tmp/cat.jpg", false), Route::Admin);
}

#[test]
fn lookup_outcomes() {
    assert_eq!(lookup_outcome(true, false), LookupOutcome::Download);
    assert_eq!(lookup_outcome(false, true), LookupOutcome::Listing);
    assert_eq!(lookup_outcome(false, false), LookupOutcome::Missing);
}

#[test]
fn public_url_for_directory_and_file() {
    let base = "https://abc.trycloudflare.com";
    assert_eq!(public_url(base, true, "/srv/share"), base);
    assert_eq!(
        public_url(base, false, "/tmp/cat.jpg"),
        "https://abc.trycloudflare.com/cat.jpg"
    );
}

#[test]
fn end_to_end_broker_and_handshake() {
    let steps = plan_launch(&None, false, 9001);
    assert_eq!(steps[0], LaunchStep::SpawnDaemon);
    let mut broker = TunnelBroker::new("/tmp/yeet-e2e/sample.bin".to_string(), false, 777, 9001);
    assert_eq!(format_size(10), "10 B");
    assert_eq!(
        broker.scan_line("INF Requesting new quick Tunnel on trycloudflare.com...", 10),
        None
    );
    assert!(!broker.url_saved());
    let rec = broker
        .scan_line("INF |  ...https://fake123.trycloudflare.com...  |", 11)
        .expect("the address line yields the record");
    assert_eq!(rec.port, 9001);
    assert_eq!(rec.pid, 777);
    assert_eq!(rec.url, "https://fake123.trycloudflare.com/sample.bin");
    assert!(rec.url.ends_with("/sample.bin"));
    assert_eq!(rec.file_path, "/tmp/yeet-e2e/sample.bin");
    assert_eq!(rec.created_at, 11);
    assert!(broker.url_saved());
    assert_eq!(handshake_step(2_000, true), HandshakeAction::Ready);
}

#[test]
fn broker_writes_only_once() {
    let mut broker = TunnelBroker::new("/srv/share".to_string(), true, 1, 8000);
    let first = broker.scan_line("https://one.trycloudflare.com", 5);
    assert_eq!(first.map(|r| r.url), Some("https://one.trycloudflare.com".to_string()));
    assert_eq!(broker.scan_line("https://two.trycloudflare.com", 6), None);
    assert_eq!(broker.accept_match(Some("https://three.trycloudflare.com".to_string()), 7), None);
}

#[test]
fn accept_match_builds_the_record() {
    let mut broker = TunnelBroker::new("/tmp/cat.jpg".to_string(), false, 9, 8080);
    assert_eq!(broker.accept_match(None, 1), None);
    assert!(!broker.url_saved());
    let rec = broker.accept_match(Some("https://abc.trycloudflare.com".to_string()), 2);
    assert_eq!(
        rec,
        Some(TunnelState::new(
            "https://abc.trycloudflare.com/cat.jpg".to_string(),
            9,
            8080,
            "/tmp/cat.jpg".to_string(),
            2
        ))
    );
}

#[test]
fn line_without_address_yields_nothing() {
    let mut broker = TunnelBroker::new("/srv/share".to_string(), true, 1, 8000);
    assert_eq!(broker.scan_line("http://localhost:8000", 1), None);
    assert_eq!(broker.scan_line("see trycloudflare.com docs", 1), None);
    assert!(!broker.url_saved());
}

#[test]
fn tunnel_command_line() {
    assert_eq!(local_url(9001), "http://localhost:9001");
    assert_eq!(
        tunnel_client_args(8000),
        vec!["tunnel".to_string(), "--url".to_string(), "http://localhost:8000".to_string()]
    );
}

#[test]
fn bytes_formatting_edges() {
    assert_eq!(format_bytes(1023), "1023 B");
    assert_eq!(format_bytes(1024), "1.00 KB");
    assert_eq!(format_bytes(1152), "1.12 KB");
    assert_eq!(format_bytes(5_000_000), "4.77 MB");
    assert_eq!(format_bytes(1 << 30), "1.00 GB");
    assert_eq!(format_bytes(u64::MAX), "17179869184.00 GB");
    assert_eq!(format_bytes(1_288_490_189), "1.20 GB");
}

#[test]
fn size_formatting_edges() {
    assert_eq!(format_size(0), "0 B");
    assert_eq!(format_size(1023), "1023 B");
    assert_eq!(format_size(1536), "1.5 KB");
    assert_eq!(format_size(2_359_296), "2.2 MB");
    assert_eq!(format_size(3 << 30), "3.0 GB");
}

#[test]
fn decimal_digits() {
    assert_eq!(decimal(0), "0");
    assert_eq!(decimal(9001), "9001");
    assert_eq!(decimal(u64::MAX as u128), "18446744073709551615");
}

#[test]
fn file_names() {
    assert_eq!(file_name("/tmp/cat.jpg"), Some("cat.jpg".to_string()));
    assert_eq!(file_name("/srv/share/"), Some("share".to_string()));
    assert_eq!(file_name("a/."), Some("a".to_string()));
    assert_eq!(file_name("/"), None);
    assert_eq!(file_name("a/.."), None);
    assert_eq!(file_name(""), None);
}

#[test]
fn listing_is_sorted_by_name() {
    let entries = vec![
        ListingEntry::new("zeta.txt".to_string(), 10, true),
        ListingEntry::new("Alpha".to_string(), 0, false),
        ListingEntry::new("beta".to_string(), 2048, true),
        ListingEntry::new("alpha".to_string(), 1, true),
    ];
    let sorted = sort_listing(&entries);
    let names: Vec<&str> = sorted.iter().map(|e| e.name.as_str()).collect();
    assert_eq!(names, vec!["Alpha", "alpha", "beta", "zeta.txt"]);
    assert!(name_precedes("ab", "abc"));
    assert!(!name_precedes("b", "a"));
    assert!(name_precedes("é", "é"));
}

#[test]
fn listing_items_describe_entries() {
    let entries = vec![
        ListingEntry::new("it's.txt".to_string(), 1536, true),
        ListingEntry::new("docs".to_string(), 4096, false),
    ];
    let items = listing_items(&entries, "/sub/");
    assert_eq!(
        items,
        "{ name: 'it\\'s.txt', path: '/sub/it\\'s.txt', size: '1.50 KB', sizeBytes: 1536, icon: '📄', isFile: true },\
{ name: 'docs', path: '/sub/docs', size: '-', sizeBytes: 4096, icon: '📁', isFile: false },"
    );
    assert_eq!(link_path("/", "a"), "/a");
    assert_eq!(link_path("", "a"), "/a");
    assert_eq!(link_path("/x//", "a"), "/x/a");
}

#[test]
fn state_paths() {
    assert_eq!(state_dir(None), "./.yeet");
    assert_eq!(state_dir(Some("/root/".to_string())), "/root/.yeet");
    assert_eq!(state_dir(Some(String::new())), ".yeet");
    assert_eq!(state_file(None), "./.yeet/tunnel.state");
}

#[test]
fn record_age() {
    let r = record(1);
    assert_eq!(r.age_secs(1_700_003_600), 3600);
    assert_eq!(r.age_secs(1_600_000_000), -100_000_000);
    assert_eq!(r.age_secs(1_700_000_000), 0);
}

#[test]
fn frame_counter_refreshes_every_thirty() {
    assert_eq!(advance_frame(0), (1, false));
    assert_eq!(advance_frame(29), (30, true));
    assert_eq!(advance_frame(u32::MAX), (0, true));
}

#[test]
fn text_helpers() {
    assert!(contains_text("abc trycloudflare.com x", "trycloudflare.com"));
    assert!(!contains_text("trycloudflare.co", "trycloudflare.com"));
    assert!(contains_text("", ""));
    assert_eq!(split_slashes("/a//b"), vec!["", "a", "", "b"]);
}

#[test]
fn theme_colours() {
    assert_eq!(RetroTheme::cyan(), Rgb { r: 0, g: 255, b: 255 });
    assert_eq!(RetroTheme::green(), Rgb { r: 0, g: 255, b: 159 });
}

#[test]
fn daemon_lifecycle() {
    let serving = next_phase(DaemonPhase::Spawning, DaemonEvent::ServerBound);
    assert_eq!(serving, DaemonPhase::Serving);
    assert_eq!(
        next_phase(DaemonPhase::Spawning, DaemonEvent::BindFailed),
        DaemonPhase::Failed
    );
    assert_eq!(
        next_phase(serving, DaemonEvent::ClientSpawnFailed),
        DaemonPhase::Failed
    );
    let known = next_phase(serving, DaemonEvent::RecordWritten);
    assert_eq!(known, DaemonPhase::UrlKnown);
    assert_eq!(next_phase(known, DaemonEvent::RecordWritten), DaemonPhase::UrlKnown);
    assert_eq!(next_phase(known, DaemonEvent::ClientExited), DaemonPhase::Exited);
    assert_eq!(
        next_phase(DaemonPhase::Failed, DaemonEvent::ServerBound),
        DaemonPhase::Failed
    );
    assert!(should_exit(DaemonPhase::Failed));
    assert!(should_exit(DaemonPhase::Exited));
    assert!(!should_exit(known));
}

fn float_bytes(bytes: u64) -> String {
    const KB: u64 = 1024;
    const MB: u64 = KB * 1024;
    const GB: u64 = MB * 1024;
    if bytes >= GB {
        format!("{:.2} GB", bytes as f64 / GB as f64)
    } else if bytes >= MB {
        format!("{:.2} MB", bytes as f64 / MB as f64)
    } else if bytes >= KB {
        format!("{:.2} KB", bytes as f64 / KB as f64)
    } else {
        format!("{} B", bytes)
    }
}

fn float_size(bytes: u64) -> String {
    let size = bytes as f64;
    if size < 1024.0 {
        format!("{:.0} B", size)
    } else if size < 1024.0 * 1024.0 {
        format!("{:.1} KB", size / 1024.0)
    } else if size < 1024.0 * 1024.0 * 1024.0 {
        format!("{:.1} MB", size / (1024.0 * 1024.0))
    } else {
        format!("{:.1} GB", size / (1024.0 * 1024.0 * 1024.0))
    }
}

#[test]
fn formatting_agrees_with_float_rounding() {
    let mut samples: Vec<u64> = (0..20_000).collect();
    for k in 0..4000u64 {
        samples.push((1 << 20) + k * 1283);
        samples.push((1 << 30) + k * 1_310_719);
        samples.push(k * 128 + (1 << 20) * 3);
    }
    samples.extend([u64::MAX, 1 << 40, (1 << 30) * 5 / 2, 2_359_296, 1152, 1_000_000_000_000]);
    for b in samples {
        assert_eq!(format_bytes(b), float_bytes(b), "bytes {}", b);
        assert_eq!(format_size(b), float_size(b), "size {}", b);
    }
}

#[test]
fn kill_command_arguments() {
    assert_eq!(yeet::liveness_probe_args(4242), vec!["-0", "4242"]);
    assert_eq!(yeet::group_kill_args(4242), vec!["-9", "-4242"]);
}

#[test]
fn file_named_like_a_status_page_is_served() {
    let served = Route::File { path: "/tmp/admin".to_string() };
    assert_eq!(route_request("/admin", "/tmp/admin", false), served);
    assert_eq!(route_request("/", "/tmp/admin", false), served);
    assert_eq!(route_request("/api/stats", "/tmp/admin", false), Route::Stats);
    assert_eq!(route_request("/admin", "/tmp/cat.jpg", false), Route::Admin);
}

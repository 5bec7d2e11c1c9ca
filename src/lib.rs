//! Share a local file or directory through a short-lived background job.
//!
//! The library holds the decisions of the tool: how a launcher reconciles
//! the persisted tunnel record with a new request, how the tunnel broker
//! scans the tunnel client's diagnostics for the public address, how
//! requested paths are resolved inside a shared directory and listed, and
//! how sizes are shown.

pub mod broker;
pub mod launcher;
pub mod listing;
pub mod paths;
pub mod presenter;
pub mod record;
pub mod server;
pub mod shared;
pub mod supervisor;
pub mod text;
pub mod theme;
pub mod units;

pub use broker::{
    TUNNEL_CLIENT, TUNNEL_HOST_MARKER, TUNNEL_URL_PATTERN, TunnelBroker, local_url, public_url,
    tunnel_client_args,
};
pub use launcher::{
    HANDSHAKE_TIMEOUT_MS, POLL_INTERVAL_MS, HandshakeAction, KillAction, LaunchStep, RecordStatus,
    StatusReport, classify_record, group_kill_args, handshake_step, liveness_probe_args, plan_kill,
    plan_launch, plan_status,
};
pub use listing::{ListingEntry, name_precedes, sort_listing};
pub use paths::{file_name, link_path, resolve_within};
pub use presenter::{REFRESH_EVERY_FRAMES, advance_frame};
pub use record::{TunnelState, state_dir, state_file};
pub use server::{
    LookupOutcome, Route, content_disposition, escape_quotes, listing_items, lookup_outcome,
    route_request,
};
pub use shared::{FileStats, RequestLog, ServerConfig, ServerStats, recent_logs, stats_snapshot};
pub use supervisor::{DaemonEvent, DaemonPhase, next_phase, should_exit};
pub use text::{contains_text, split_slashes};
pub use theme::{RetroTheme, Rgb};
pub use units::{GB, KB, MB, decimal, format_bytes, format_size};

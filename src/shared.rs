use vstd::prelude::*;

verus! {

/// Traffic figures of the local server.
#[derive(Debug, Clone, PartialEq, Eq, Structural)]
pub struct ServerStats {
    pub uptime_secs: u64,
    pub total_requests: u64,
    pub total_bytes_sent: u64,
    pub current_speed_bps: u64,
    pub active_connections: u32,
    pub unique_ips: u32,
    pub requests_per_minute: u32,
}

/// One request as the request log shows it.
#[derive(Debug, Clone, PartialEq, Eq)]
pub struct RequestLog {
    pub timestamp: u64,
    pub method: String,
    pub path: String,
    pub status: u16,
    pub size_bytes: u64,
    pub user_agent: String,
    pub ip: String,
}

/// Traffic figures of one file in directory mode.
#[derive(Debug, Clone, PartialEq, Eq)]
pub struct FileStats {
    pub name: String,
    pub requests: u64,
    pub bytes_sent: u64,
}

/// What the local server serves, and where.
#[derive(Debug, Clone, PartialEq, Eq)]
pub struct ServerConfig {
    pub file_path: String,
    pub is_directory: bool,
    pub port: u16,
    pub tunnel_url: Option<String>,
}

/// The figures that the statistics endpoint reports. No traffic is
/// counted yet, so they are fixed sample values.
pub fn stats_snapshot() -> (r: ServerStats)
    ensures
        r == (ServerStats {
            uptime_secs: 3600,
            total_requests: 42,
            total_bytes_sent: 5_000_000,
            current_speed_bps: 1_200_000,
            active_connections: 2,
            unique_ips: 7,
            requests_per_minute: 15,
        }),
{
    ServerStats {
        uptime_secs: 3600,
        total_requests: 42,
        total_bytes_sent: 5_000_000,
        current_speed_bps: 1_200_000,
        active_connections: 2,
        unique_ips: 7,
        requests_per_minute: 15,
    }
}

/// A log entry for a `GET` of `/cat.jpg` with status 200 and 2.4 MB sent.
fn sample_log(timestamp: u64, user_agent: &str, ip: &str) -> (r: RequestLog)
    ensures
        r.timestamp == timestamp,
        r.method@ == "GET"@,
        r.path@ == "/cat.jpg"@,
        r.status == 200,
        r.size_bytes == 2_400_000,
        r.user_agent@ == user_agent@,
        r.ip@ == ip@,
{
    RequestLog {
        timestamp,
        method: String::from_str("GET"),
        path: String::from_str("/cat.jpg"),
        status: 200,
        size_bytes: 2_400_000,
        user_agent: String::from_str(user_agent),
        ip: String::from_str(ip),
    }
}

/// The entries that the request log endpoint reports. No requests are
/// recorded yet, so they are two fixed sample entries, newest first.
pub fn recent_logs() -> (r: Vec<RequestLog>)
    ensures
        r@.len() == 2,
        r@[0].timestamp == 1234567890,
        r@[0].user_agent@ == "Chrome"@,
        r@[0].ip@ == "192.168.1.5"@,
        r@[1].timestamp == 1234567888,
        r@[1].user_agent@ == "Safari"@,
        r@[1].ip@ == "10.0.1.23"@,
        forall|i: int|
            0 <= i < 2 ==> {
                &&& (#[trigger] r@[i]).method@ == "GET"@
                &&& r@[i].path@ == "/cat.jpg"@
                &&& r@[i].status == 200
                &&& r@[i].size_bytes == 2_400_000
            },
{
    let mut logs: Vec<RequestLog> = Vec::new();
    logs.push(sample_log(1234567890, "Chrome", "192.168.1.5"));
    logs.push(sample_log(1234567888, "Safari", "10.0.1.23"));
    logs
}

} // verus!

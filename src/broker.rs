use vstd::prelude::*;
use crate::text::{occurs_in, contains_text, joined};
use crate::paths::{file_name, file_name_of};
use crate::record::{TunnelState, TunnelStateView, record_view};
use crate::units::{decimal, decimal_text};

verus! {

/// The program that opens the tunnel.
pub const TUNNEL_CLIENT: &'static str = "cloudflared";

/// The host suffix that marks a line of the tunnel client's diagnostics as
/// one that may carry the public address.
pub const TUNNEL_HOST_MARKER: &'static str = "trycloudflare.com";

/// The pattern of the public address in the tunnel client's diagnostics.
pub const TUNNEL_URL_PATTERN: &'static str = "https://[^\\s]+\\.trycloudflare\\.com";

/// The first match of the regular expression `pattern` in `text`, in the
/// leftmost-first order of the `regex` crate; none where nothing matches or
/// the pattern does not compile.
pub uninterp spec fn first_match_of(pattern: Seq<char>, text: Seq<char>) -> Option<Seq<char>>;

/// Relies on `regex::Regex::new` to compile `pattern` and on
/// `regex::Regex::find` for its first match in `text`; a match is a part of
/// `text` (`Match::as_str`).
#[verifier::external_body]
fn find_first_match(pattern: &str, text: &str) -> (r: Option<String>)
    ensures
        r.deep_view() == first_match_of(pattern@, text@),
        r matches Some(m) ==> occurs_in(m@, text@),
{
    match regex::Regex::new(pattern) {
        Ok(re) => match re.find(text) {
            Some(m) => Some(m.as_str().to_string()),
            None => None,
        },
        Err(_) => None,
    }
}

/// The address that the public tunnel address `base` is published as:
/// unchanged for a directory, followed by `/` and the file's name for a
/// single file.
pub open spec fn public_url_for(base: Seq<char>, is_dir: bool, resource: Seq<char>) -> Seq<char> {
    if is_dir {
        base
    } else {
        match file_name_of(resource) {
            Some(name) => base + seq!['/'] + name,
            None => base,
        }
    }
}

/// The local address that the tunnel client forwards to.
pub open spec fn local_url_of(port: u16) -> Seq<char> {
    seq!['h', 't', 't', 'p', ':', '/', '/', 'l', 'o', 'c', 'a', 'l', 'h', 'o', 's', 't', ':']
        + decimal_text(port as nat)
}

/// The public address of a job that shares `resource` once the tunnel
/// reported the base address `base`.
pub fn public_url(base: &str, is_dir: bool, resource: &str) -> (r: String)
    ensures
        r@ == public_url_for(base@, is_dir, resource@),
{
    if is_dir {
        return String::from_str(base);
    }
    match file_name(resource) {
        Some(name) => {
            proof {
                reveal_strlit("/");
            }
            let mut s = joined(base, "/");
            s.append(name.as_str());
            s
        },
        None => String::from_str(base),
    }
}

/// The address of the local server on `port`.
pub fn local_url(port: u16) -> (r: String)
    ensures
        r@ == local_url_of(port),
{
    proof {
        reveal_strlit("http://localhost:");
    }
    let digits = decimal(port as u128);
    joined("http://localhost:", digits.as_str())
}

/// The arguments that start the tunnel client for the local server on
/// `port`: `tunnel --url http://localhost:<port>`.
pub fn tunnel_client_args(port: u16) -> (r: Vec<String>)
    ensures
        r@.len() == 3,
        r@[0]@ == "tunnel"@,
        r@[1]@ == "--url"@,
        r@[2]@ == local_url_of(port),
{
    let mut args: Vec<String> = Vec::new();
    args.push(String::from_str("tunnel"));
    args.push(String::from_str("--url"));
    args.push(local_url(port));
    args
}

/// The broker of one job: it watches the tunnel client's diagnostics and
/// yields the job's record once, for the first line that carries the
/// public address.
pub struct TunnelBroker {
    resource_path: String,
    is_dir: bool,
    pid: u32,
    port: u16,
    url_saved: bool,
}

/// The value of a `TunnelBroker`.
pub struct TunnelBrokerView {
    pub resource_path: Seq<char>,
    pub is_dir: bool,
    pub pid: u32,
    pub port: u16,
    pub url_saved: bool,
}

impl View for TunnelBroker {
    type V = TunnelBrokerView;

    closed spec fn view(&self) -> TunnelBrokerView {
        TunnelBrokerView {
            resource_path: self.resource_path@,
            is_dir: self.is_dir,
            pid: self.pid,
            port: self.port,
            url_saved: self.url_saved,
        }
    }
}

/// The base address that a line yields to a broker whose record is
/// written (`saved`) or not: only a line with the host marker is searched,
/// and only while no record was written.
pub open spec fn found_on_line(saved: bool, line: Seq<char>) -> Option<Seq<char>> {
    if !saved && occurs_in(TUNNEL_HOST_MARKER@, line) {
        first_match_of(TUNNEL_URL_PATTERN@, line)
    } else {
        None
    }
}

/// The record that the base address `found` yields to the broker `b` at
/// the time `now`.
pub open spec fn record_for(b: TunnelBrokerView, found: Option<Seq<char>>, now: u64) -> Option<
    TunnelStateView,
> {
    match found {
        Some(base) if !b.url_saved => Some(
            TunnelStateView {
                url: public_url_for(base, b.is_dir, b.resource_path),
                pid: b.pid,
                port: b.port,
                file_path: b.resource_path,
                created_at: now,
            },
        ),
        _ => None,
    }
}

/// The broker `b` after the base address `found`.
pub open spec fn broker_after(b: TunnelBrokerView, found: Option<Seq<char>>) -> TunnelBrokerView {
    if found is Some {
        TunnelBrokerView { url_saved: true, ..b }
    } else {
        b
    }
}

/// How many records the broker `b` yields over the lines `lines`.
pub open spec fn records_over(b: TunnelBrokerView, lines: Seq<Seq<char>>) -> nat
    decreases lines.len(),
{
    if lines.len() == 0 {
        0
    } else {
        let found = found_on_line(b.url_saved, lines[0]);
        (if record_for(b, found, 0) is Some {
            1nat
        } else {
            0nat
        }) + records_over(broker_after(b, found), lines.drop_first())
    }
}

impl TunnelBroker {
    /// The broker of the daemon `pid` that serves `resource_path` on
    /// `port`; no record is written yet.
    pub fn new(resource_path: String, is_dir: bool, pid: u32, port: u16) -> (r: Self)
        ensures
            r@ == (TunnelBrokerView {
                resource_path: resource_path@,
                is_dir,
                pid,
                port,
                url_saved: false,
            }),
    {
        TunnelBroker { resource_path, is_dir, pid, port, url_saved: false }
    }

    /// Whether the job's record was written.
    pub fn url_saved(&self) -> (r: bool)
        ensures
            r == self@.url_saved,
    {
        self.url_saved
    }

    /// Takes the result of the address search on one line, at the time
    /// `now`: the first address found yields the job's record, and every
    /// later one is passed over.
    pub fn accept_match(&mut self, found: Option<String>, now: u64) -> (r: Option<TunnelState>)
        ensures
            record_view(r) == record_for(old(self)@, found.deep_view(), now),
            final(self)@ == (if old(self)@.url_saved {
                old(self)@
            } else {
                broker_after(old(self)@, found.deep_view())
            }),
    {
        if self.url_saved {
            return None;
        }
        match found {
            Some(base) => {
                let url = public_url(base.as_str(), self.is_dir, self.resource_path.as_str());
                let record = TunnelState::new(
                    url,
                    self.pid,
                    self.port,
                    self.resource_path.clone(),
                    now,
                );
                self.url_saved = true;
                Some(record)
            },
            None => None,
        }
    }

    /// Scans one line of the tunnel client's diagnostics at the time `now`
    /// and yields the job's record where this line is the first to carry
    /// the public address.
    pub fn scan_line(&mut self, line: &str, now: u64) -> (r: Option<TunnelState>)
        ensures
            record_view(r) == record_for(old(self)@, found_on_line(old(self)@.url_saved, line@), now),
            final(self)@ == broker_after(old(self)@, found_on_line(old(self)@.url_saved, line@)),
    {
        if self.url_saved || !contains_text(line, TUNNEL_HOST_MARKER) {
            return None;
        }
        let found = find_first_match(TUNNEL_URL_PATTERN, line);
        self.accept_match(found, now)
    }
}

/// A job's record is written at most once: over any run of lines the
/// broker yields one record at most, and none once it has written one.
pub proof fn lemma_record_written_once(b: TunnelBrokerView, lines: Seq<Seq<char>>)
    ensures
        records_over(b, lines) <= 1,
        b.url_saved ==> records_over(b, lines) == 0,
    decreases lines.len(),
{
    if lines.len() > 0 {
        let found = found_on_line(b.url_saved, lines[0]);
        lemma_record_written_once(broker_after(b, found), lines.drop_first());
    }
}

} // verus!

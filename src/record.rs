use vstd::prelude::*;

verus! {

/// The persisted description of the current tunnel job.
#[derive(Clone, Debug, PartialEq, Eq)]
pub struct TunnelState {
    /// The public address, once the tunnel client reported it.
    pub url: String,
    /// The daemon's process id, which leads the job's process group.
    pub pid: u32,
    /// The local port that the resource is served on.
    pub port: u16,
    /// The absolute path of the shared file or directory.
    pub file_path: String,
    /// When the record was written, in seconds since the Unix epoch.
    pub created_at: u64,
}

/// The value of a `TunnelState`, with its strings as character sequences.
pub struct TunnelStateView {
    pub url: Seq<char>,
    pub pid: u32,
    pub port: u16,
    pub file_path: Seq<char>,
    pub created_at: u64,
}

impl View for TunnelState {
    type V = TunnelStateView;

    open spec fn view(&self) -> TunnelStateView {
        TunnelStateView {
            url: self.url@,
            pid: self.pid,
            port: self.port,
            file_path: self.file_path@,
            created_at: self.created_at,
        }
    }
}

/// The value of an optional record.
pub open spec fn record_view(r: Option<TunnelState>) -> Option<TunnelStateView> {
    match r {
        Some(s) => Some(s@),
        None => None,
    }
}

/// Seconds from `created_at` to `now`, the wall-clock difference: negative
/// where the clock reads earlier than the record.
pub open spec fn age_between(created_at: u64, now: u64) -> int {
    now as int - created_at as int
}

impl TunnelState {
    /// A record from its fields.
    pub fn new(url: String, pid: u32, port: u16, file_path: String, created_at: u64) -> (r: Self)
        ensures
            r@ == (TunnelStateView { url: url@, pid, port, file_path: file_path@, created_at }),
    {
        TunnelState { url, pid, port, file_path, created_at }
    }

    /// How many seconds old the record is at the time `now`.
    pub fn age_secs(&self, now: u64) -> (r: i128)
        ensures
            r == age_between(self.created_at, now),
    {
        now as i128 - self.created_at as i128
    }
}

/// The directory that holds the state file, under the home directory
/// `home` as `Path::join` places it: relative to the working directory
/// where `home` is empty.
pub open spec fn state_dir_of(home: Seq<char>) -> Seq<char> {
    let name = seq!['.', 'y', 'e', 'e', 't'];
    if home.len() == 0 {
        name
    } else if home.last() == '/' {
        home + name
    } else {
        home + seq!['/'] + name
    }
}

/// The state file inside the directory `dir`.
pub open spec fn state_file_of(dir: Seq<char>) -> Seq<char> {
    dir + seq!['/', 't', 'u', 'n', 'n', 'e', 'l', '.', 's', 't', 'a', 't', 'e']
}

/// The directory of the state file for the home directory `home`; the
/// working directory stands in where none is known.
pub fn state_dir(home: Option<String>) -> (r: String)
    ensures
        r@ == state_dir_of(
            match home {
                Some(h) => h@,
                None => seq!['.'],
            },
        ),
{
    proof {
        reveal_strlit(".");
        reveal_strlit(".yeet");
        reveal_strlit("/.yeet");
    }
    let base = match home {
        Some(h) => h,
        None => String::from_str("."),
    };
    let n = base.unicode_len();
    if n == 0 {
        String::from_str(".yeet")
    } else if base.get_char(n - 1) == '/' {
        let mut s = base;
        s.append(".yeet");
        s
    } else {
        let mut s = base;
        s.append("/.yeet");
        s
    }
}

/// The state file for the home directory `home`.
pub fn state_file(home: Option<String>) -> (r: String)
    ensures
        r@ == state_file_of(
            state_dir_of(
                match home {
                    Some(h) => h@,
                    None => seq!['.'],
                },
            ),
        ),
{
    let mut s = state_dir(home);
    proof {
        reveal_strlit("/tunnel.state");
    }
    s.append("/tunnel.state");
    s
}

} // verus!

use vstd::prelude::*;
use crate::text::same_text;
use crate::paths::{file_name, file_name_of, resolve_within, resolved_path, link_path, link_target};
use crate::listing::ListingEntry;
use crate::units::{format_bytes, bytes_text, decimal, decimal_text};

verus! {

/// Where the local server sends a request.
#[derive(Clone, Debug, PartialEq, Eq)]
pub enum Route {
    /// The statistics endpoint.
    Stats,
    /// The request log endpoint.
    Logs,
    /// The dashboard page.
    Admin,
    /// The shared file at `path`, sent as a download.
    File { path: String },
    /// The entry at `path` inside the shared directory, a file or a
    /// directory or nothing, which only the file system can tell.
    Lookup { path: String },
    /// Nothing is served here.
    NotFound,
}

/// The value of a `Route`.
pub enum RouteView {
    Stats,
    Logs,
    Admin,
    File { path: Seq<char> },
    Lookup { path: Seq<char> },
    NotFound,
}

/// What the file system holds at a looked-up path.
#[derive(PartialEq, Eq, Structural, Clone, Copy, Debug)]
pub enum LookupOutcome {
    /// A file: send it as a download.
    Download,
    /// A directory: send its listing.
    Listing,
    /// Nothing readable: answer "not found".
    Missing,
}

impl View for Route {
    type V = RouteView;

    open spec fn view(&self) -> RouteView {
        match self {
            Route::Stats => RouteView::Stats,
            Route::Logs => RouteView::Logs,
            Route::Admin => RouteView::Admin,
            Route::File { path } => RouteView::File { path: path@ },
            Route::Lookup { path } => RouteView::Lookup { path: path@ },
            Route::NotFound => RouteView::NotFound,
        }
    }
}

/// The request names the single shared file at `resource`: `/` or `/`
/// followed by the file's name.
pub open spec fn names_shared_file(request: Seq<char>, resource: Seq<char>) -> bool {
    request == seq!['/'] || (file_name_of(resource) matches Some(n) && request == seq!['/'] + n)
}

/// The route of a request for `request` to a server that shares the
/// directory (`is_dir`) or the single file at `resource`. In single-file
/// mode the file's own paths come first, so a file named like a status
/// page is still served.
pub open spec fn route_of(request: Seq<char>, resource: Seq<char>, is_dir: bool) -> RouteView {
    if !is_dir && names_shared_file(request, resource) {
        RouteView::File { path: resource }
    } else if request == "/api/stats"@ {
        RouteView::Stats
    } else if request == "/api/logs"@ {
        RouteView::Logs
    } else if request == "/admin"@ {
        RouteView::Admin
    } else if is_dir {
        match resolved_path(resource, request) {
            Some(p) => RouteView::Lookup { path: p },
            None => RouteView::NotFound,
        }
    } else {
        RouteView::NotFound
    }
}

/// What a lookup finds, given what the file system reports of the path.
pub open spec fn lookup_of(is_file: bool, is_dir: bool) -> LookupOutcome {
    if is_file {
        LookupOutcome::Download
    } else if is_dir {
        LookupOutcome::Listing
    } else {
        LookupOutcome::Missing
    }
}

/// `s` with each `'` preceded by a backslash, to stand inside a quoted
/// script string.
pub open spec fn quote_escaped(s: Seq<char>) -> Seq<char>
    decreases s.len(),
{
    if s.len() == 0 {
        s
    } else {
        quote_escaped(s.drop_last()) + if s.last() == '\'' {
            seq!['\\', '\'']
        } else {
            seq![s.last()]
        }
    }
}

/// The size column of a listing entry: the formatted size of a file, a
/// dash for a directory.
pub open spec fn size_label(e: ListingEntry) -> Seq<char> {
    if e.is_file {
        bytes_text(e.size as nat)
    } else {
        "-"@
    }
}

/// The icon of a listing entry.
pub open spec fn icon_of(e: ListingEntry) -> Seq<char> {
    if e.is_file {
        "📄"@
    } else {
        "📁"@
    }
}

/// The script literal that describes the entry `e` of the directory
/// requested as `current` to the listing page.
pub open spec fn entry_item(e: ListingEntry, current: Seq<char>) -> Seq<char> {
    "{ name: '"@ + quote_escaped(e.name@) + "', path: '"@ + quote_escaped(
        link_target(current, e.name@),
    ) + "', size: '"@ + size_label(e) + "', sizeBytes: "@ + decimal_text(e.size as nat)
        + ", icon: '"@ + icon_of(e) + "', isFile: "@ + (if e.is_file {
        "true"@
    } else {
        "false"@
    }) + " },"@
}

/// The script literals of all of `entries`, in their order.
pub open spec fn entry_items(entries: Seq<ListingEntry>, current: Seq<char>) -> Seq<char>
    decreases entries.len(),
{
    if entries.len() == 0 {
        Seq::empty()
    } else {
        entry_items(entries.drop_last(), current) + entry_item(entries.last(), current)
    }
}

/// The header value that offers a file named `name` as a download.
pub open spec fn disposition_of(name: Seq<char>) -> Seq<char> {
    "attachment; filename=\""@ + name + "\""@
}

/// Routes a request for `request` on a server that shares the directory
/// (`is_dir`) or the single file at `resource`. A directory request that
/// would climb out of the directory is not found.
pub fn route_request(request: &str, resource: &str, is_dir: bool) -> (r: Route)
    ensures
        r@ == route_of(request@, resource@, is_dir),
{
    if !is_dir && names_file(request, resource) {
        return Route::File { path: String::from_str(resource) };
    }
    if same_text(request, "/api/stats") {
        return Route::Stats;
    }
    if same_text(request, "/api/logs") {
        return Route::Logs;
    }
    if same_text(request, "/admin") {
        return Route::Admin;
    }
    if is_dir {
        match resolve_within(resource, request) {
            Some(path) => Route::Lookup { path },
            None => Route::NotFound,
        }
    } else {
        Route::NotFound
    }
}

fn names_file(request: &str, resource: &str) -> (r: bool)
    ensures
        r == names_shared_file(request@, resource@),
{
    proof {
        reveal_strlit("/");
    }
    let at_root = same_text(request, "/");
    assert("/"@ =~= seq!['/']);
    assert(at_root == (request@ == seq!['/']));
    let at_name = match file_name(resource) {
        Some(name) => {
            let mut s = String::from_str("/");
            s.append(name.as_str());
            assert(s@ == seq!['/'] + name@);
            same_text(request, s.as_str())
        },
        None => false,
    };
    at_root || at_name
}

/// What a looked-up path holds, given what the file system reports of it.
pub fn lookup_outcome(is_file: bool, is_dir: bool) -> (r: LookupOutcome)
    ensures
        r == lookup_of(is_file, is_dir),
{
    if is_file {
        LookupOutcome::Download
    } else if is_dir {
        LookupOutcome::Listing
    } else {
        LookupOutcome::Missing
    }
}

/// The `Content-Disposition` value that offers a file named `name` as a
/// download.
pub fn content_disposition(name: &str) -> (r: String)
    ensures
        r@ == disposition_of(name@),
{
    let mut s = String::from_str("attachment; filename=\"");
    s.append(name);
    s.append("\"");
    s
}

/// `s` with each `'` preceded by a backslash.
pub fn escape_quotes(s: &str) -> (r: String)
    ensures
        r@ == quote_escaped(s@),
{
    let n = s.unicode_len();
    let mut out = String::new();
    let mut i: usize = 0;
    assert(s@.subrange(0, 0) =~= Seq::<char>::empty());
    while i < n
        invariant
            n == s@.len(),
            i <= n,
            out@ == quote_escaped(s@.subrange(0, i as int)),
        decreases n - i,
    {
        let c = s.get_char(i);
        let ghost pre = s@.subrange(0, i + 1);
        assert(pre.drop_last() =~= s@.subrange(0, i as int));
        if c == '\'' {
            out.append("\\");
            out.append(s.substring_char(i, i + 1));
            proof {
                reveal_strlit("\\");
            }
            assert(s@.subrange(i as int, i + 1) =~= seq![c]);
            assert("\\"@ =~= seq!['\\']);
        } else {
            out.append(s.substring_char(i, i + 1));
            assert(s@.subrange(i as int, i + 1) =~= seq![c]);
        }
        i = i + 1;
        assert(out@ =~= quote_escaped(s@.subrange(0, i as int)));
    }
    assert(s@.subrange(0, n as int) =~= s@);
    out
}

fn entry_item_text(e: &ListingEntry, current: &str) -> (r: String)
    ensures
        r@ == entry_item(*e, current@),
{
    let mut s = String::from_str("{ name: '");
    s.append(escape_quotes(e.name.as_str()).as_str());
    s.append("', path: '");
    s.append(escape_quotes(link_path(current, e.name.as_str()).as_str()).as_str());
    s.append("', size: '");
    if e.is_file {
        s.append(format_bytes(e.size).as_str());
    } else {
        s.append("-");
    }
    s.append("', sizeBytes: ");
    s.append(decimal(e.size as u128).as_str());
    s.append(", icon: '");
    if e.is_file {
        s.append("📄");
    } else {
        s.append("📁");
    }
    s.append("', isFile: ");
    if e.is_file {
        s.append("true");
    } else {
        s.append("false");
    }
    s.append(" },");
    s
}

/// The script literals that describe `entries`, children of the directory
/// requested as `current`, to the listing page, one after another.
pub fn listing_items(entries: &Vec<ListingEntry>, current: &str) -> (r: String)
    ensures
        r@ == entry_items(entries@, current@),
{
    let mut out = String::new();
    let mut i: usize = 0;
    assert(entries@.subrange(0, 0) =~= Seq::<ListingEntry>::empty());
    while i < entries.len()
        invariant
            i <= entries@.len(),
            out@ == entry_items(entries@.subrange(0, i as int), current@),
        decreases entries@.len() - i,
    {
        let item = entry_item_text(&entries[i], current);
        out.append(item.as_str());
        assert(entries@.subrange(0, i + 1).drop_last() =~= entries@.subrange(0, i as int));
        i = i + 1;
    }
    assert(entries@.subrange(0, i as int) =~= entries@);
    out
}

} // verus!

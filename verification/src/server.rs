//! The configured server and its URLs. The member's bearer token rides on these, so it goes to the
//! server's own origin and is taken from nowhere else.

use crate::protocol;
use crate::text;
use crate::text::{joined, split_first, str_eq, strip_prefix, trim_end_char};
use vstd::prelude::*;

verus! {

/// The parts of a URL that the overlay reads.
#[derive(Debug, Clone, PartialEq, Eq)]
pub struct UrlParts {
    /// The whole URL, written out in ASCII.
    pub href: String,
    pub scheme: String,
    /// The host as it is written out, an IPv6 address in brackets.
    pub host: Option<String>,
    /// The port, or the one that goes with the scheme.
    pub port: Option<u16>,
    pub path: String,
    pub fragment: Option<String>,
    /// The decoded pairs of the query, in order.
    pub query: Vec<(String, String)>,
}

/// What [`UrlParts`] hold, with their strings as characters.
pub struct UrlView {
    pub href: Seq<char>,
    pub scheme: Seq<char>,
    pub host: Option<Seq<char>>,
    pub port: Option<u16>,
    pub path: Seq<char>,
    pub fragment: Option<Seq<char>>,
    pub query: Seq<(Seq<char>, Seq<char>)>,
}

impl View for UrlParts {
    type V = UrlView;

    open spec fn view(&self) -> UrlView {
        UrlView {
            href: self.href@,
            scheme: self.scheme@,
            host: protocol::text_of(self.host),
            port: self.port,
            path: self.path@,
            fragment: protocol::text_of(self.fragment),
            query: Seq::new(
                self.query@.len(),
                |i: int| (self.query@[i].0@, self.query@[i].1@),
            ),
        }
    }
}

/// An origin that can be compared: a scheme, a host and a port.
#[derive(Debug, Clone, PartialEq, Eq)]
pub struct UrlOrigin {
    pub scheme: String,
    pub host: String,
    pub port: u16,
}

impl View for UrlOrigin {
    type V = (Seq<char>, Seq<char>, u16);

    open spec fn view(&self) -> (Seq<char>, Seq<char>, u16) {
        (self.scheme@, self.host@, self.port)
    }
}

/// What an optional origin is.
pub open spec fn origin_view(origin: Option<UrlOrigin>) -> Option<(Seq<char>, Seq<char>, u16)> {
    match origin {
        Some(o) => Some(o@),
        None => None,
    }
}

/// A text or an error, with the characters of either.
pub open spec fn text_result(r: Result<String, String>) -> Result<Seq<char>, Seq<char>> {
    match r {
        Ok(t) => Ok(t@),
        Err(e) => Err(e@),
    }
}

/// A URL or an error, with the characters of either.
pub open spec fn url_result(r: Result<UrlParts, String>) -> Result<UrlView, Seq<char>> {
    match r {
        Ok(u) => Ok(u@),
        Err(e) => Err(e@),
    }
}

/// An optional URL.
pub open spec fn url_of(r: Option<UrlParts>) -> Option<UrlView> {
    match r {
        Some(u) => Some(u@),
        None => None,
    }
}

/// The number of colons in a text.
pub open spec fn colons(s: Seq<char>) -> nat
    decreases s.len(),
{
    if s.len() == 0 {
        0
    } else {
        colons(s.drop_last()) + (if s.last() == ':' {
            1nat
        } else {
            0nat
        })
    }
}

/// How many characters a text may have to be read as a URL, and how many bytes a URL may take that
/// is changed: a reader counts the former, and indexes the latter, within 32 bits.
pub const URL_LIMIT: u64 = 0x7FFF_FFFF;

/// What is said of a text that is longer than the limit.
pub const TOO_LONG: &'static str = "URL too long";

/// A text that is short enough to be read as a URL.
pub open spec fn fits(s: Seq<char>) -> bool {
    s.len() <= URL_LIMIT
}

/// A URL, written out, leaves this many bytes of the limit.
pub open spec fn room(u: UrlView, bytes: nat) -> bool {
    u.href.len() + bytes <= URL_LIMIT
}

/// An absolute path of lower-case letters and slashes with a single leading slash, such as an
/// endpoint of the server.
pub open spec fn plain_path(path: Seq<char>) -> bool {
    &&& path.len() > 0
    &&& path[0] == '/'
    &&& forall|i: int|
        1 <= i < path.len() ==> 'a' <= #[trigger] path[i] <= 'z' || (path[i] == '/' && i > 1)
}

/// The schemes a server may have.
pub open spec fn web_scheme(scheme: Seq<char>) -> bool {
    scheme == "http"@ || scheme == "https"@
}

/// The schemes whose URLs have a host and a port.
pub open spec fn net_scheme(scheme: Seq<char>) -> bool {
    web_scheme(scheme) || scheme == "ws"@ || scheme == "wss"@ || scheme == "ftp"@
}

/// Two URLs have the same scheme, host and port.
pub open spec fn same_place(a: UrlView, b: UrlView) -> bool {
    a.scheme == b.scheme && a.host == b.host && a.port == b.port
}

/// What `url::Url::parse` makes of a text: the parts of the URL, or the words of the error.
pub uninterp spec fn parsed_url(s: Seq<char>) -> Result<UrlView, Seq<char>>;

/// What `url::Url::join` makes of a path on a base: the parts of the URL, or the words of the error.
pub uninterp spec fn joined_url(base: Seq<char>, path: Seq<char>) -> Result<UrlView, Seq<char>>;

/// What `url::Url::set_scheme`, `set_path` and `set_query`, one after the other, make of a URL; none
/// for a text that is no URL or cannot have that scheme.
pub uninterp spec fn rewritten_url(
    s: Seq<char>,
    scheme: Seq<char>,
    path: Seq<char>,
    query: Option<Seq<char>>,
) -> Option<UrlView>;

/// What appending a pair through `url::Url::query_pairs_mut` makes of a path joined to a base.
pub uninterp spec fn paired_url(
    base: Seq<char>,
    path: Seq<char>,
    name: Seq<char>,
    value: Seq<char>,
) -> Result<UrlView, Seq<char>>;

/// Reads a text with `url::Url::parse`, and hands out the URL written out, its `scheme`, `host_str`,
/// `port_or_known_default`, `path`, `fragment` and `query_pairs`. A text is not longer than what the
/// reader can count.
///
/// The contract claims that the outcome depends on the text alone; that a URL of the network schemes
/// has a host and a port; and that the path of a `blob` URL has fewer colons than the text, since
/// one stands behind the scheme and none is added.
#[verifier::external_body]
fn read_url(s: &str) -> (r: Result<UrlParts, String>)
    requires
        fits(s@),
    ensures
        url_result(r) == parsed_url(s@),
        r matches Ok(u) ==> (net_scheme(u.scheme@) ==> u.host is Some && u.port is Some),
        r matches Ok(u) ==> (u.scheme@ == "blob"@ ==> colons(u.path@) < colons(s@)),
{
    let u = url::Url::parse(s).map_err(|e| e.to_string())?;
    Ok(UrlParts {
        href: u.to_string(),
        scheme: u.scheme().to_string(),
        host: u.host_str().map(str::to_string),
        port: u.port_or_known_default(),
        path: u.path().to_string(),
        fragment: u.fragment().map(str::to_string),
        query: u.query_pairs().map(|(k, v)| (k.into_owned(), v.into_owned())).collect(),
    })
}

/// A path resolved against a base, by `url::Url::parse` of the base and `url::Url::join`, with the
/// parts of the outcome handed out as in [`read_url`].
///
/// The contract claims that the outcome depends on the two texts alone; that a base that cannot be
/// read is an error; and that a plain path on a web server resolves, as long as there is room for
/// it, to just that path at the server's place, without a query.
#[verifier::external_body]
fn join_url(base: &str, path: &str) -> (r: Result<UrlParts, String>)
    requires
        fits(base@),
        fits(path@),
    ensures
        url_result(r) == joined_url(base@, path@),
        parsed_url(base@) matches Err(e) ==> r is Err && r->Err_0@ == e,
        parsed_url(base@) matches Ok(b) ==> (web_scheme(b.scheme) && plain_path(path@) && room(
            b,
            path@.len() + 8,
        ) ==> {
            &&& r is Ok
            &&& same_place(r->Ok_0@, b)
            &&& r->Ok_0.path@ == path@
            &&& r->Ok_0.query@.len() == 0
        }),
{
    let base = url::Url::parse(base).map_err(|e| e.to_string())?;
    let u = base.join(path).map_err(|e| e.to_string())?;
    Ok(UrlParts {
        href: u.to_string(),
        scheme: u.scheme().to_string(),
        host: u.host_str().map(str::to_string),
        port: u.port_or_known_default(),
        path: u.path().to_string(),
        fragment: u.fragment().map(str::to_string),
        query: u.query_pairs().map(|(k, v)| (k.into_owned(), v.into_owned())).collect(),
    })
}

/// A URL with another scheme, path and query, by `url::Url::parse`, `set_scheme`, `set_path` and
/// `set_query` on one URL, with the parts of the outcome handed out as in [`read_url`]. A character
/// of the path or the query takes up to twelve bytes.
///
/// The contract claims that the outcome depends on the texts alone, and that a web URL can become a
/// socket URL with the same security, a plain path and no query, which keeps its host and port (the
/// two schemes have the same default port) and its fragment.
#[verifier::external_body]
fn rewrite_url(s: &str, scheme: &str, path: &str, query: Option<&str>) -> (r: Option<UrlParts>)
    requires
        fits(s@),
        parsed_url(s@) matches Ok(u) ==> room(u, scheme@.len() + 12 * path@.len() + 16),
        parsed_url(s@) matches Ok(u) ==> (query matches Some(q) ==> room(
            u,
            scheme@.len() + 12 * (path@.len() + q@.len()) + 16,
        )),
    ensures
        url_of(r) == rewritten_url(s@, scheme@, path@, protocol::str_of(query)),
        parsed_url(s@) matches Ok(u) ==> (((u.scheme == "http"@ && scheme@ == "ws"@) || (u.scheme
            == "https"@ && scheme@ == "wss"@)) && plain_path(path@) && query is None ==> {
            &&& r is Some
            &&& same_place(r->0@, (UrlView { scheme: scheme@, ..u }))
            &&& r->0.path@ == path@
            &&& r->0.query@.len() == 0
            &&& r->0@.fragment == u.fragment
        }),
{
    let mut u = url::Url::parse(s).ok()?;
    u.set_scheme(scheme).ok()?;
    u.set_path(path);
    u.set_query(query);
    Some(UrlParts {
        href: u.to_string(),
        scheme: u.scheme().to_string(),
        host: u.host_str().map(str::to_string),
        port: u.port_or_known_default(),
        path: u.path().to_string(),
        fragment: u.fragment().map(str::to_string),
        query: u.query_pairs().map(|(k, v)| (k.into_owned(), v.into_owned())).collect(),
    })
}

/// A path resolved against a base, with a pair appended to its query, by `url::Url::parse`, `join`
/// and `query_pairs_mut` on one URL, with the parts of the outcome handed out as in [`read_url`]. A
/// character of the pair takes up to twelve bytes.
///
/// The contract claims that the outcome depends on the texts alone, and that it is the path resolved
/// as in [`join_url`], with the pair as the last of its query and its other parts kept.
#[verifier::external_body]
fn join_with_pair(base: &str, path: &str, name: &str, value: &str) -> (r: Result<UrlParts, String>)
    requires
        fits(base@),
        fits(path@),
        joined_url(base@, path@) matches Ok(u) ==> room(
            u,
            12 * (name@.len() + value@.len()) + 8,
        ),
    ensures
        url_result(r) == paired_url(base@, path@, name@, value@),
        joined_url(base@, path@) matches Err(e) ==> r is Err && r->Err_0@ == e,
        joined_url(base@, path@) matches Ok(u) ==> {
            &&& r is Ok
            &&& r->Ok_0@ == (UrlView {
                href: r->Ok_0.href@,
                query: u.query.push((name@, value@)),
                ..u
            })
        },
{
    let base = url::Url::parse(base).map_err(|e| e.to_string())?;
    let mut u = base.join(path).map_err(|e| e.to_string())?;
    u.query_pairs_mut().append_pair(name, value);
    Ok(UrlParts {
        href: u.to_string(),
        scheme: u.scheme().to_string(),
        host: u.host_str().map(str::to_string),
        port: u.port_or_known_default(),
        path: u.path().to_string(),
        fragment: u.fragment().map(str::to_string),
        query: u.query_pairs().map(|(k, v)| (k.into_owned(), v.into_owned())).collect(),
    })
}

/// What a text is read as: a URL, or why it is none. One that is longer than the limit is none.
pub open spec fn read(s: Seq<char>) -> Result<UrlView, Seq<char>> {
    if fits(s) {
        parsed_url(s)
    } else {
        Err(TOO_LONG@)
    }
}

/// What a path leads to on a server, or why it leads nowhere.
pub open spec fn resolved(server: Seq<char>, path: Seq<char>) -> Result<UrlView, Seq<char>> {
    if fits(server) && fits(path) {
        joined_url(server, path)
    } else {
        Err(TOO_LONG@)
    }
}

/// Whether a text is short enough to be read as a URL.
fn text_fits(s: &str) -> (r: bool)
    ensures
        r == fits(s@),
{
    s.unicode_len() as u64 <= URL_LIMIT
}

impl UrlParts {
    /// The parts of a URL, or why the text is none.
    pub fn parse(s: &str) -> (r: Result<UrlParts, String>)
        ensures
            url_result(r) == read(s@),
            r matches Ok(u) ==> (net_scheme(u.scheme@) ==> u.host is Some && u.port is Some),
            r matches Ok(u) ==> (u.scheme@ == "blob"@ ==> colons(u.path@) < colons(s@)),
    {
        if text_fits(s) {
            read_url(s)
        } else {
            Err(TOO_LONG.to_string())
        }
    }

    /// Whether the URL leaves this many bytes of the limit, and twelve for each character of a
    /// text.
    pub fn leaves_room(&self, bytes: u64, text: &str) -> (r: bool)
        ensures
            r == room(self@, bytes as nat + 12 * text@.len()),
    {
        let n: u128 = self.href.as_str().unicode_len() as u128;
        let k: u128 = text.unicode_len() as u128;
        n + bytes as u128 + 12 * k <= URL_LIMIT as u128
    }
}

/// What a path leads to on a server.
fn resolve(server: &str, path: &str) -> (r: Result<UrlParts, String>)
    ensures
        url_result(r) == resolved(server@, path@),
        read(server@) matches Ok(b) ==> (web_scheme(b.scheme) && plain_path(path@) && room(
            b,
            path@.len() + 8,
        ) ==> {
            &&& r is Ok
            &&& same_place(r->Ok_0@, b)
            &&& r->Ok_0.path@ == path@
            &&& r->Ok_0.query@.len() == 0
        }),
{
    if text_fits(server) && text_fits(path) {
        join_url(server, path)
    } else {
        Err(TOO_LONG.to_string())
    }
}

/// The origin of a URL of the network schemes; others have none of their own.
pub open spec fn own_origin(u: UrlView) -> Option<(Seq<char>, Seq<char>, u16)> {
    match (u.host, u.port) {
        (Some(host), Some(port)) if net_scheme(u.scheme) => Some((u.scheme, host, port)),
        _ => None,
    }
}

/// The origin of a text that stands inside a `blob` URL: that of the URL it is, or of the one inside
/// that, however deep.
pub open spec fn inner_origin(s: Seq<char>) -> Option<(Seq<char>, Seq<char>, u16)>
    decreases colons(s),
{
    match read(s) {
        Err(_) => None,
        Ok(u) => if u.scheme != "blob"@ {
            own_origin(u)
        } else if colons(u.path) < colons(s) {
            inner_origin(u.path)
        } else {
            None
        },
    }
}

/// The origin of a URL: its own, or for a `blob` URL that of the URL inside.
pub open spec fn origin_of(u: UrlView) -> Option<(Seq<char>, Seq<char>, u16)> {
    if u.scheme == "blob"@ {
        inner_origin(u.path)
    } else {
        own_origin(u)
    }
}

/// The origin of a URL of the network schemes.
fn network_origin(u: &UrlParts) -> (r: Option<UrlOrigin>)
    ensures
        origin_view(r) == own_origin(u@),
{
    let scheme = u.scheme.as_str();
    if !(str_eq(scheme, "http") || str_eq(scheme, "https") || str_eq(scheme, "ws") || str_eq(
        scheme,
        "wss",
    ) || str_eq(scheme, "ftp")) {
        return None;
    }
    match (&u.host, u.port) {
        (Some(host), Some(port)) => Some(
            UrlOrigin { scheme: scheme.to_string(), host: host.as_str().to_string(), port },
        ),
        _ => None,
    }
}

/// The origin of a URL.
pub fn find_origin(u: &UrlParts) -> (r: Option<UrlOrigin>)
    ensures
        origin_view(r) == origin_of(u@),
{
    if !str_eq(u.scheme.as_str(), "blob") {
        return network_origin(u);
    }
    let mut inner: String = u.path.as_str().to_string();
    loop
        invariant
            origin_of(u@) == inner_origin(inner@),
        decreases colons(inner@),
    {
        match UrlParts::parse(inner.as_str()) {
            Err(_) => return None,
            Ok(v) => {
                if !str_eq(v.scheme.as_str(), "blob") {
                    return network_origin(&v);
                }
                inner = v.path;
            },
        }
    }
}

proof fn lemma_blob_is_no_net_scheme()
    ensures
        !net_scheme("blob"@),
{
    reveal_strlit("blob");
    reveal_strlit("http");
    reveal_strlit("https");
    reveal_strlit("ws");
    reveal_strlit("wss");
    reveal_strlit("ftp");
    assert("blob"@[0] != "http"@[0] && "blob"@[0] != "https"@[0] && "blob"@[0] != "ws"@[0]
        && "blob"@[0] != "wss"@[0] && "blob"@[0] != "ftp"@[0]);
}

/// A server is acceptable when it has a web scheme and a host.
pub open spec fn acceptable(u: UrlView) -> bool {
    web_scheme(u.scheme) && u.host is Some
}

/// A text that is an acceptable server.
pub open spec fn server_ok(s: Seq<char>) -> bool {
    read(s) matches Ok(u) && acceptable(u)
}

/// Whether a URL is an acceptable server: `http` or `https`, with a host.
pub fn acceptable_server(u: &UrlParts) -> (r: bool)
    ensures
        r == acceptable(u@),
{
    (str_eq(u.scheme.as_str(), "http") || str_eq(u.scheme.as_str(), "https"))
        && u.host.is_some()
}

/// Whether a text is an acceptable server.
pub fn valid_server(s: &str) -> (r: bool)
    ensures
        r == server_ok(s@),
{
    match UrlParts::parse(s) {
        Ok(u) => acceptable_server(&u),
        Err(_) => false,
    }
}

/// The socket scheme with the security of a web scheme, or why there is none.
pub open spec fn socket_of(scheme: Seq<char>) -> Result<Seq<char>, Seq<char>> {
    if scheme == "http"@ {
        Ok("ws"@)
    } else if scheme == "https"@ {
        Ok("wss"@)
    } else {
        Err("unsupported scheme: "@ + scheme)
    }
}

/// The socket scheme with the security of a web scheme, or why there is none.
pub fn socket_scheme(scheme: &str) -> (r: Result<&'static str, String>)
    ensures
        match r {
            Ok(t) => socket_of(scheme@) == Ok::<Seq<char>, Seq<char>>(t@),
            Err(e) => socket_of(scheme@) == Err::<Seq<char>, Seq<char>>(e@),
        },
{
    if str_eq(scheme, "http") {
        Ok("ws")
    } else if str_eq(scheme, "https") {
        Ok("wss")
    } else {
        Err(joined("unsupported scheme: ", scheme))
    }
}

/// The path of the member socket.
pub const MEMBER_PATH: &'static str = "/ws/member";

/// A server's URL turned into that of the member socket: another scheme, the socket's path and no
/// query.
pub open spec fn socket_of_server(server: Seq<char>, scheme: Seq<char>) -> UrlView {
    rewritten_url(server, scheme, MEMBER_PATH@, None)->0
}

/// The URL of the member socket of a server, or why there is none.
pub open spec fn member_socket(server: Seq<char>) -> Result<Seq<char>, Seq<char>> {
    match read(server) {
        Err(e) => Err(e),
        Ok(u) => match socket_of(u.scheme) {
            Err(e) => Err(e),
            Ok(scheme) => Ok(text::without_trailing(socket_of_server(server, scheme).href, '/')),
        },
    }
}

/// How many bytes turning a URL into that of the member socket may need.
pub const SOCKET_BYTES: u64 = 256;

/// There is room to turn a server's URL into that of the member socket.
pub open spec fn socket_room(server: Seq<char>) -> bool {
    read(server) matches Ok(u) ==> room(u, SOCKET_BYTES as nat)
}

/// The URL of the member socket: that of the server, with the socket scheme of the same security,
/// the path `/ws/member` and no query. It leads to the host and port of the server.
pub fn member_ws_url(server: &str) -> (r: Result<String, String>)
    requires
        socket_room(server@),
    ensures
        text_result(r) == member_socket(server@),
        r is Ok ==> ({
            let u = read(server@)->Ok_0;
            let scheme = socket_of(u.scheme)->Ok_0;
            let socket = socket_of_server(server@, scheme);
            &&& same_place(socket, (UrlView { scheme, ..u }))
            &&& socket.path == MEMBER_PATH@
            &&& socket.query.len() == 0
            &&& socket.fragment == u.fragment
        }),
{
    let u = match UrlParts::parse(server) {
        Ok(u) => u,
        Err(e) => return Err(e),
    };
    let scheme = match socket_scheme(u.scheme.as_str()) {
        Ok(scheme) => scheme,
        Err(e) => return Err(e),
    };
    proof {
        reveal_strlit("http");
        reveal_strlit("https");
        reveal_strlit("ws");
        reveal_strlit("wss");
        reveal_strlit("/ws/member");
        assert("http"@.len() != "https"@.len());
    }
    socket_text(rewrite_url(server, scheme, MEMBER_PATH, None))
}

/// The text of a socket URL: without trailing slashes, where the URL could become one.
pub fn socket_text(socket: Option<UrlParts>) -> (r: Result<String, String>)
    ensures
        match socket {
            Some(u) => r matches Ok(s) && s@ == text::without_trailing(u@.href, '/'),
            None => r matches Err(e) && e@ == "set_scheme failed"@,
        },
{
    match socket {
        Some(u) => Ok(trim_end_char(u.href.as_str(), '/').to_string()),
        None => Err("set_scheme failed".to_string()),
    }
}

/// The URL of the member socket of any server; none where the server's own URL fills the limit.
pub fn member_ws_url_within(server: &str) -> (r: Option<Result<String, String>>)
    ensures
        r is Some == socket_room(server@),
        r matches Some(url) ==> text_result(url) == member_socket(server@),
{
    if let Ok(u) = UrlParts::parse(server) {
        proof {
            reveal_strlit("");
        }
        if !u.leaves_room(SOCKET_BYTES, "") {
            return None;
        }
    }
    Some(member_ws_url(server))
}

/// Two origins are the same. Opaque ones never are.
pub open spec fn origins_equal(
    a: Option<(Seq<char>, Seq<char>, u16)>,
    b: Option<(Seq<char>, Seq<char>, u16)>,
) -> bool {
    a is Some && a == b
}

/// Whether two origins are the same.
pub fn origins_match(a: &Option<UrlOrigin>, b: &Option<UrlOrigin>) -> (r: bool)
    ensures
        r == origins_equal(origin_view(*a), origin_view(*b)),
{
    match (a, b) {
        (Some(x), Some(y)) => str_eq(x.scheme.as_str(), y.scheme.as_str()) && str_eq(
            x.host.as_str(),
            y.host.as_str(),
        ) && x.port == y.port,
        _ => false,
    }
}

/// Whether two URLs have the same origin.
pub fn same_origin(u: &UrlParts, base: &UrlParts) -> (r: bool)
    ensures
        r == origins_equal(origin_of(u@), origin_of(base@)),
{
    origins_match(&find_origin(u), &find_origin(base))
}

/// The value of the first `token=` part of a fragment.
pub open spec fn fragment_token(s: Seq<char>) -> Option<Seq<char>>
    decreases s.len(),
{
    let part = text::before(s, '&');
    if text::occurs_at(part, "token="@, 0) {
        Some(part.skip("token="@.len() as int))
    } else {
        match text::after(s, '&') {
            Some(rest) => {
                proof {
                    text::lemma_first_index(s, '&');
                }
                fragment_token(rest)
            },
            None => None,
        }
    }
}

/// The value of the first pair named `token`.
pub open spec fn query_token(query: Seq<(Seq<char>, Seq<char>)>) -> Option<Seq<char>>
    decreases query.len(),
{
    if query.len() == 0 {
        None
    } else if query[0].0 == "token"@ {
        Some(query[0].1)
    } else {
        query_token(query.skip(1))
    }
}

/// The token of a completion URL: from the fragment, which servers never see, else from the query.
pub open spec fn completion_token(u: UrlView) -> Option<Seq<char>> {
    match u.fragment {
        Some(f) if fragment_token(f) is Some => fragment_token(f),
        _ => query_token(u.query),
    }
}

/// The value of the first `token=` part of a fragment.
fn token_in_fragment(fragment: &str) -> (r: Option<String>)
    ensures
        protocol::text_of(r) == fragment_token(fragment@),
{
    let mut rest = fragment;
    loop
        invariant
            fragment_token(fragment@) == fragment_token(rest@),
        decreases rest@.len(),
    {
        let (part, next) = split_first(rest, '&');
        if let Some(value) = strip_prefix(part, "token=") {
            return Some(value.to_string());
        }
        match next {
            Some(more) => {
                proof {
                    text::lemma_first_index(rest@, '&');
                }
                rest = more;
            },
            None => return None,
        }
    }
}

/// The token of a completion URL.
pub fn token_from_url(u: &UrlParts) -> (r: Option<String>)
    ensures
        protocol::text_of(r) == completion_token(u@),
{
    if let Some(fragment) = &u.fragment {
        if let Some(token) = token_in_fragment(fragment.as_str()) {
            return Some(token);
        }
    }
    let ghost all = u@.query;
    let mut i: usize = 0;
    assert(all.skip(0) =~= all);
    while i < u.query.len()
        invariant
            i <= u.query@.len(),
            all == u@.query,
            completion_token(u@) == query_token(all),
            query_token(all) == query_token(all.skip(i as int)),
        decreases u.query@.len() - i,
    {
        assert(all.skip(i as int)[0] == all[i as int]);
        if str_eq(u.query[i].0.as_str(), "token") {
            return Some(u.query[i].1.clone());
        }
        assert(all.skip(i as int).skip(1) =~= all.skip(i + 1));
        i += 1;
    }
    None
}

/// The page on which signing in completes.
pub const COMPLETION_PATH: &'static str = "/auth/desktop/complete";

/// The token that a page which the sign-in window navigates to hands over: only the completion page
/// of the server itself does, so that no foreign page can plant one.
pub open spec fn captured(page: UrlView, server: UrlView) -> Option<Seq<char>> {
    if page.path == COMPLETION_PATH@ && origins_equal(origin_of(page), origin_of(server)) {
        completion_token(page)
    } else {
        None
    }
}

/// The token to take from a page that the sign-in window navigates to.
pub fn capture_token(page: &UrlParts, server: &UrlParts) -> (r: Option<String>)
    ensures
        protocol::text_of(r) == captured(page@, server@),
{
    if str_eq(page.path.as_str(), COMPLETION_PATH) && same_origin(page, server) {
        token_from_url(page)
    } else {
        None
    }
}

/// The page that starts signing in on a server, or why either is no URL.
pub open spec fn login_page(server: Seq<char>) -> Result<Seq<char>, Seq<char>> {
    let page = server + "/auth/login?desktop=1"@;
    match (read(server), read(page)) {
        (Err(e), _) => Err(e),
        (Ok(_), Err(e)) => Err(e),
        (Ok(_), Ok(_)) => Ok(page),
    }
}

/// The page that starts signing in on a server, or why either is no URL.
pub fn login_url(server: &str) -> (r: Result<String, String>)
    ensures
        ({
            let page = server@ + "/auth/login?desktop=1"@;
            match (read(server@), read(page)) {
                (Err(e), _) => r matches Err(why) && why@ == e,
                (Ok(_), Err(e)) => r matches Err(why) && why@ == e,
                (Ok(_), Ok(_)) => r matches Ok(t) && t@ == page,
            }
        }),
        text_result(r) == login_page(server@),
{
    match UrlParts::parse(server) {
        Ok(_) => {},
        Err(e) => return Err(e),
    }
    let page = joined(server, "/auth/login?desktop=1");
    match UrlParts::parse(page.as_str()) {
        Ok(_) => Ok(page),
        Err(e) => Err(e),
    }
}

/// What may be asked of the server: a resolved path on its own origin, else a refusal.
pub open spec fn guarded(
    target: Result<UrlView, Seq<char>>,
    server: UrlView,
    refusal: Seq<char>,
) -> Result<Seq<char>, Seq<char>> {
    match target {
        Err(e) => Err(e),
        Ok(u) => if origins_equal(origin_of(u), origin_of(server)) {
            Ok(u.href)
        } else {
            Err(refusal)
        },
    }
}

/// The URL for a path on a server, or why there is none: one of them cannot be read, or the path
/// leads off the server.
pub open spec fn guarded_path(
    server: Seq<char>,
    path: Seq<char>,
    refusal: Seq<char>,
) -> Result<Seq<char>, Seq<char>> {
    match read(server) {
        Err(e) => Err(e),
        Ok(base) => guarded(resolved(server, path), base, refusal),
    }
}

/// The text of a target on the server's own origin, else a refusal.
pub fn guard_target(
    target: Result<UrlParts, String>,
    server: &UrlParts,
    refusal: &str,
) -> (r: Result<String, String>)
    ensures
        text_result(r) == guarded(url_result(target), server@, refusal@),
{
    match target {
        Err(e) => Err(e),
        Ok(u) => if same_origin(&u, server) {
            Ok(u.href)
        } else {
            Err(refusal.to_string())
        },
    }
}

/// The URL for a path on a server.
fn resolve_path(server: &str, path: &str, refusal: &str) -> (r: Result<String, String>)
    ensures
        text_result(r) == guarded_path(server@, path@, refusal@),
        server_ok(server@) && plain_path(path@) && room(
            read(server@)->Ok_0,
            path@.len() + 8,
        ) ==> r is Ok,
{
    proof {
        lemma_blob_is_no_net_scheme();
    }
    match UrlParts::parse(server) {
        Err(e) => Err(e),
        Ok(base) => guard_target(resolve(server, path), &base, refusal),
    }
}

/// The URL to fetch with the bearer token for a path. A path that leads off the server, such as
/// `//elsewhere` or a whole URL, is refused.
pub fn fetch_target(server: &str, path: &str) -> (r: Result<String, String>)
    ensures
        text_result(r) == guarded_path(server@, path@, "refusing cross-origin request"@),
        server_ok(server@) && plain_path(path@) && room(
            read(server@)->Ok_0,
            path@.len() + 8,
        ) ==> r is Ok,
{
    resolve_path(server, path, "refusing cross-origin request")
}

/// The URL to open in the browser for a path. A path that leads off the server is refused.
pub fn open_target(server: &str, path: &str) -> (r: Result<String, String>)
    ensures
        text_result(r) == guarded_path(server@, path@, "refusing cross-origin open"@),
        server_ok(server@) && plain_path(path@) && room(
            read(server@)->Ok_0,
            path@.len() + 8,
        ) ==> r is Ok,
{
    resolve_path(server, path, "refusing cross-origin open")
}

/// The endpoint that serves cover art.
pub const COVER_PATH: &'static str = "/api/voice/bed/cover";

/// How many bytes asking for a cover may need, apart from its key.
pub const COVER_BYTES: u64 = 256;

/// There is room to ask a server for the cover with this key.
pub open spec fn cover_room(server: Seq<char>, key: Seq<char>) -> bool {
    &&& read(server) matches Ok(u) ==> room(u, COVER_BYTES as nat)
    &&& resolved(server, COVER_PATH@) matches Ok(u) ==> room(
        u,
        COVER_BYTES as nat + 12 * key.len(),
    )
}

/// The URL of a bed's cover art: the endpoint on the server, with the bed's key in the query.
pub open spec fn cover_of(server: Seq<char>, key: Seq<char>) -> Result<UrlView, Seq<char>> {
    match resolved(server, COVER_PATH@) {
        Err(e) => Err(e),
        Ok(_) => paired_url(server, COVER_PATH@, "key"@, key),
    }
}

/// The text of the URL of a bed's cover art, or why there is none.
pub open spec fn cover_text(server: Seq<char>, key: Seq<char>) -> Result<Seq<char>, Seq<char>> {
    match cover_of(server, key) {
        Err(e) => Err(e),
        Ok(u) => Ok(u.href),
    }
}

/// The URL of a bed's cover art. There is one wherever the endpoint can be resolved, and on an
/// acceptable server it is the endpoint at the server's own place, with the key and no other query.
pub fn cover_target(server: &str, key: &str) -> (r: Result<String, String>)
    requires
        cover_room(server@, key@),
    ensures
        text_result(r) == cover_text(server@, key@),
        r is Ok == resolved(server@, COVER_PATH@) is Ok,
        server_ok(server@) ==> ({
            let u = cover_of(server@, key@)->Ok_0;
            &&& r is Ok
            &&& same_place(u, read(server@)->Ok_0)
            &&& u.path == COVER_PATH@
            &&& u.query == seq![("key"@, key@)]
        }),
{
    proof {
        reveal_strlit("/api/voice/bed/cover");
        reveal_strlit("key");
    }
    match resolve(server, COVER_PATH) {
        Err(e) => Err(e),
        Ok(endpoint) => match join_with_pair(server, COVER_PATH, "key", key) {
            Err(e) => Err(e),
            Ok(u) => {
                proof {
                    if server_ok(server@) {
                        assert(endpoint@.query =~= Seq::empty());
                        assert(u@.query =~= seq![("key"@, key@)]);
                    }
                }
                Ok(u.href)
            },
        },
    }
}

/// The URL of a bed's cover art on any server; none where it would not fit the limit.
pub fn cover_target_within(server: &str, key: &str) -> (r: Option<Result<String, String>>)
    ensures
        r is Some == cover_room(server@, key@),
        r matches Some(url) ==> text_result(url) == cover_text(server@, key@),
{
    proof {
        reveal_strlit("");
    }
    if let Ok(u) = UrlParts::parse(server) {
        if !u.leaves_room(COVER_BYTES, "") {
            return None;
        }
    }
    if let Ok(u) = resolve(server, COVER_PATH) {
        if !u.leaves_room(COVER_BYTES, key) {
            return None;
        }
    }
    Some(cover_target(server, key))
}

/// No foreign page hands over a token: what is captured comes from the completion page of the
/// server's own origin.
pub proof fn law_no_planted_token(page: UrlView, server: UrlView)
    requires
        captured(page, server) is Some,
    ensures
        origin_of(page) is Some,
        origin_of(page) == origin_of(server),
        page.path == COMPLETION_PATH@,
        captured(page, server) == completion_token(page),
{
}

/// The bearer token never leaves the server: a guarded request goes out only to the server's own
/// origin, and what is refused gets no URL at all. Where the text of a URL reads as that URL, the
/// text leads there too.
pub proof fn law_token_stays_home(server: Seq<char>, path: Seq<char>, refusal: Seq<char>)
    ensures
        guarded_path(server, path, refusal) matches Ok(href) ==> ({
            let target = resolved(server, path)->Ok_0;
            let home = origin_of(read(server)->Ok_0);
            &&& read(server) is Ok && resolved(server, path) is Ok
            &&& href == target.href
            &&& origin_of(target) is Some
            &&& origin_of(target) == home
            &&& read(href) == Ok::<UrlView, Seq<char>>(target) ==> origin_of(read(href)->Ok_0)
                == home
        }),
        read(server) matches Ok(base) ==> (resolved(server, path) matches Ok(target) ==> (
        origins_equal(origin_of(target), origin_of(base)) ==> guarded_path(server, path, refusal)
            == Ok::<Seq<char>, Seq<char>>(target.href))),
{
}

/// A server is acceptable exactly with a web scheme and a host.
pub proof fn law_acceptable_servers(u: UrlView)
    ensures
        u.host is None ==> !acceptable(u),
        u.host is Some ==> (acceptable(u) <==> u.scheme == "http"@ || u.scheme == "https"@),
{
}

/// The socket of a server is as secure as the server, and only a web server has one.
pub proof fn law_socket_is_as_secure(scheme: Seq<char>)
    ensures
        (socket_of(scheme) == Ok::<Seq<char>, Seq<char>>("ws"@)) == (scheme == "http"@),
        (socket_of(scheme) == Ok::<Seq<char>, Seq<char>>("wss"@)) == (scheme == "https"@),
        socket_of(scheme) is Ok == web_scheme(scheme),
        socket_of(scheme) matches Err(e) ==> scheme.is_suffix_of(e) && e
            == "unsupported scheme: "@ + scheme,
{
    reveal_strlit("http");
    reveal_strlit("https");
    reveal_strlit("ws");
    reveal_strlit("wss");
    assert("http"@.len() != "https"@.len());
    assert("ws"@.len() != "wss"@.len());
    let e = "unsupported scheme: "@ + scheme;
    assert(e.subrange(e.len() - scheme.len(), e.len() as int) =~= scheme);
}

/// The member socket of a server has its own path, is given out without slashes at the end, and
/// exists exactly for a web server.
pub proof fn law_member_socket(server: Seq<char>)
    ensures
        member_socket(server) is Ok <==> read(server) is Ok && web_scheme(
            read(server)->Ok_0.scheme,
        ),
        member_socket(server) matches Ok(t) ==> t.len() > 0 ==> t.last() != '/',
        read(server) matches Err(e) ==> member_socket(server) == Err::<Seq<char>, Seq<char>>(e),
        read(server) matches Ok(u) ==> (!web_scheme(u.scheme) ==> member_socket(server) == Err::<
            Seq<char>,
            Seq<char>,
        >("unsupported scheme: "@ + u.scheme)),
        read(server) matches Ok(u) ==> (u.scheme == "https"@ ==> (member_socket(server) matches Ok(t)
            && t.is_prefix_of(rewritten_url(server, "wss"@, "/ws/member"@, None)->0.href))),
        read(server) matches Ok(u) ==> (u.scheme == "http"@ ==> (member_socket(server) matches Ok(t)
            && t.is_prefix_of(rewritten_url(server, "ws"@, "/ws/member"@, None)->0.href))),
{
    if read(server) is Ok {
        let scheme = read(server)->Ok_0.scheme;
        law_socket_is_as_secure(scheme);
        if socket_of(scheme) is Ok {
            text::law_trailing_run(
                socket_of_server(server, socket_of(scheme)->Ok_0).href,
                '/',
            );
        }
    }
}

/// A URL of the network schemes has the origin it is written with, and no other URL has one of its
/// own. What stands inside a `blob` URL decides for it.
pub proof fn law_origin(u: UrlView, v: UrlView, host: Seq<char>, port: u16)
    ensures
        u.host == Some(host) && u.port == Some(port) && (u.scheme == "http"@ || u.scheme
            == "https"@ || u.scheme == "ws"@ || u.scheme == "wss"@ || u.scheme == "ftp"@)
            ==> origin_of(u) == Some((u.scheme, host, port)),
        !net_scheme(u.scheme) && u.scheme != "blob"@ ==> origin_of(u) is None,
        u.scheme == "blob"@ && read(u.path) == Ok::<UrlView, Seq<char>>(v) && v.scheme != "blob"@
            ==> origin_of(u) == origin_of(v),
        u.scheme == "blob"@ && read(u.path) is Err ==> origin_of(u) is None,
{
    lemma_blob_is_no_net_scheme();
}

/// Two URLs have the same origin exactly when scheme, host and port are the same; one without an
/// origin shares it with none, not even with itself.
pub proof fn law_same_origin(a: UrlView, b: UrlView)
    requires
        net_scheme(a.scheme),
        net_scheme(b.scheme),
        a.host is Some && a.port is Some && b.host is Some && b.port is Some,
    ensures
        origins_equal(origin_of(a), origin_of(b)) <==> a.scheme == b.scheme && a.host == b.host
            && a.port == b.port,
        forall|o: Option<(Seq<char>, Seq<char>, u16)>| !#[trigger] origins_equal(None, o),
        forall|o: Option<(Seq<char>, Seq<char>, u16)>| !#[trigger] origins_equal(o, None),
{
    lemma_blob_is_no_net_scheme();
}

/// The token of a fragment is the value of its first part that is named so: a part of another name
/// is passed over, and a fragment without such a part has none.
pub proof fn law_fragment_token(part: Seq<char>, value: Seq<char>, rest: Seq<char>)
    requires
        !part.contains('&'),
        !value.contains('&'),
        !"token="@.is_prefix_of(part),
    ensures
        fragment_token("token="@ + value) == Some(value),
        fragment_token(("token="@ + value).push('&') + rest) == Some(value),
        fragment_token(part) is None,
        fragment_token(part.push('&') + rest) == fragment_token(rest),
{
    reveal_strlit("token=");
    let named = "token="@ + value;
    assert(named.subrange(0, "token="@.len() as int) =~= "token="@);
    assert(named.skip("token="@.len() as int) =~= value);
    assert forall|j: int| 0 <= j < named.len() implies named[j] != '&' by {
        if j >= 6 {
            assert(named[j] == value[j - 6]);
        }
    }
    assert forall|j: int| 0 <= j < part.len() implies part[j] != '&' by {}
    let longer = named.push('&') + rest;
    let passed = part.push('&') + rest;
    text::lemma_first_index_is(named, '&', named.len() as int);
    text::lemma_first_index_is(longer, '&', named.len() as int);
    text::lemma_first_index_is(part, '&', part.len() as int);
    text::lemma_first_index_is(passed, '&', part.len() as int);
    assert(text::before(named, '&') =~= named);
    assert(text::before(longer, '&') =~= named);
    assert(text::before(part, '&') =~= part);
    assert(text::before(passed, '&') =~= part);
    assert(passed.skip(part.len() as int + 1) =~= rest);
}

/// The token of a query is the value of its first pair of that name, wherever it stands.
pub proof fn law_query_token(query: Seq<(Seq<char>, Seq<char>)>, i: int)
    ensures
        query_token(query) is Some <==> exists|k: int|
            0 <= k < query.len() && #[trigger] query[k].0 == "token"@,
        0 <= i < query.len() && query[i].0 == "token"@ && (forall|j: int|
            0 <= j < i ==> #[trigger] query[j].0 != "token"@) ==> query_token(query) == Some(
            query[i].1,
        ),
    decreases query.len(),
{
    if query.len() > 0 {
        let rest = query.skip(1);
        law_query_token(rest, i - 1);
        assert forall|j: int| 0 <= j < rest.len() implies rest[j] == query[j + 1] by {}
        if query[0].0 != "token"@ {
            if query_token(rest) is Some {
                let k = choose|k: int| 0 <= k < rest.len() && #[trigger] rest[k].0 == "token"@;
                assert(query[k + 1].0 == "token"@);
            }
            if exists|k: int| 0 <= k < query.len() && #[trigger] query[k].0 == "token"@ {
                let k = choose|k: int| 0 <= k < query.len() && #[trigger] query[k].0 == "token"@;
                assert(rest[k - 1].0 == "token"@);
            }
            if 0 < i < query.len() && (forall|j: int|
                0 <= j < i ==> #[trigger] query[j].0 != "token"@) {
                assert forall|j: int| 0 <= j < i - 1 implies #[trigger] rest[j].0 != "token"@ by {
                    assert(query[j + 1].0 != "token"@);
                }
                assert(rest[i - 1] == query[i]);
            }
        } else {
            assert(query[0].0 == "token"@);
        }
    }
}

/// The fragment speaks before the query: a token in it is the one, and only without one is the
/// query's. The completion page of the server's own origin hands over just that; any other page
/// hands over nothing.
pub proof fn law_capture(page: UrlView, server: UrlView)
    ensures
        page.fragment matches Some(f) ==> (fragment_token(f) is Some ==> completion_token(page)
            == fragment_token(f)),
        page.fragment is None || fragment_token(page.fragment->0) is None ==> completion_token(page)
            == query_token(page.query),
        page.path == "/auth/desktop/complete"@ && origin_of(page) is Some && origin_of(page)
            == origin_of(server) ==> captured(page, server) == completion_token(page),
        page.path != "/auth/desktop/complete"@ ==> captured(page, server) is None,
        origin_of(page) != origin_of(server) || origin_of(page) is None ==> captured(page, server)
            is None,
{
}

/// A target is given out as it was resolved, or refused in the given words; an error stays as it is.
pub proof fn law_guard(u: UrlView, server: UrlView, e: Seq<char>, refusal: Seq<char>)
    ensures
        guarded(Err(e), server, refusal) == Err::<Seq<char>, Seq<char>>(e),
        origin_of(u) is Some && origin_of(u) == origin_of(server) ==> guarded(
            Ok(u),
            server,
            refusal,
        ) == Ok::<Seq<char>, Seq<char>>(u.href),
        origin_of(u) != origin_of(server) || origin_of(u) is None ==> guarded(
            Ok(u),
            server,
            refusal,
        ) == Err::<Seq<char>, Seq<char>>(refusal),
{
}

/// The cover that is asked for is the one with this key, at the one endpoint, and errors are those of
/// resolving it.
pub proof fn law_cover(server: Seq<char>, key: Seq<char>)
    ensures
        resolved(server, "/api/voice/bed/cover"@) matches Err(e) ==> cover_text(server, key)
            == Err::<Seq<char>, Seq<char>>(e),
        resolved(server, "/api/voice/bed/cover"@) is Ok ==> (match paired_url(
            server,
            "/api/voice/bed/cover"@,
            "key"@,
            key,
        ) {
            Ok(u) => cover_text(server, key) == Ok::<Seq<char>, Seq<char>>(u.href),
            Err(e) => cover_text(server, key) == Err::<Seq<char>, Seq<char>>(e),
        }),
{
}

/// A URL, its parts and its origin read as they are.
pub proof fn law_url_reads_as_it_is(u: UrlParts, o: UrlOrigin, i: int)
    ensures
        u@.href == u.href@,
        u@.scheme == u.scheme@,
        u@.port == u.port,
        u@.path == u.path@,
        u@.host is Some == u.host is Some,
        u.host matches Some(h) ==> u@.host == Some(h@),
        u@.fragment is Some == u.fragment is Some,
        u.fragment matches Some(f) ==> u@.fragment == Some(f@),
        u@.query.len() == u.query@.len(),
        0 <= i < u.query@.len() ==> u@.query[i].0 == u.query@[i].0@ && u@.query[i].1
            == u.query@[i].1@,
        o@ == (o.scheme@, o.host@, o.port),
{
}

/// Signing in starts on the server itself: its own text, and the page behind it. Where either is no
/// URL there is no page, and the error is the first one's.
pub proof fn law_login(server: Seq<char>)
    ensures
        read(server) matches Err(e) ==> login_page(server) == Err::<Seq<char>, Seq<char>>(e),
        login_page(server) matches Ok(page) ==> {
            &&& server.is_prefix_of(page)
            &&& "/auth/login?desktop=1"@.is_suffix_of(page)
            &&& page.len() == server.len() + "/auth/login?desktop=1"@.len()
            &&& read(page) is Ok
        },
        read(server) is Ok && read(server + "/auth/login?desktop=1"@) is Ok ==> login_page(server)
            is Ok,
{
    let tail = "/auth/login?desktop=1"@;
    let page = server + tail;
    assert(page.subrange(0, server.len() as int) =~= server);
    assert(page.subrange(page.len() - tail.len(), page.len() as int) =~= tail);
}

/// Any text within the limit is read for what it is, and any path that is within it is resolved; only
/// past the limit is it refused for its length.
pub proof fn law_reading(s: Seq<char>, path: Seq<char>)
    ensures
        s.len() <= 0x7FFF_FFFF ==> read(s) == parsed_url(s),
        s.len() > 0x7FFF_FFFF ==> read(s) is Err,
        s.len() <= 0x7FFF_FFFF && path.len() <= 0x7FFF_FFFF ==> resolved(s, path) == joined_url(
            s,
            path,
        ),
{
}

} // verus!

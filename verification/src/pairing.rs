//! Who may reach the local API: the handshake rules and the pairing token.
//!
//! A loopback port is reachable by every process on the machine and by any web page its user
//! visits, so binding to it is not access control. Two rules are: a token is always required, and a
//! handshake that carries an `Origin` header, which a browser always sends and a native client does
//! not, is refused whatever its token.

use crate::protocol;
use crate::text;
use crate::text::{split_first, str_eq, strip_prefix, trim};
use vstd::prelude::*;

verus! {

/// Why a connection was refused.
#[derive(Debug, Clone, Copy, PartialEq, Eq, Structural)]
pub enum Denial {
    /// No token, or the wrong one.
    BadToken,
    /// The handshake carried an `Origin` header.
    BrowserOrigin,
    /// There is no token yet, so the API is closed.
    NotPaired,
}

/// The verdict on a handshake.
#[derive(Debug, Clone, Copy, PartialEq, Eq, Structural)]
pub enum Auth {
    Allow,
    Deny(Denial),
}

/// The subprotocol a local tool offers, with the token as a second entry.
pub const SUBPROTOCOL: &'static str = "orghud.v1";

/// The verdict on a token: an API without one is closed, a browser is refused, and any other client
/// gets in exactly with the right token.
pub open spec fn verdict(
    token: Option<Seq<char>>,
    origin: Option<Seq<char>>,
    expected: Seq<char>,
) -> Auth {
    if expected.len() == 0 {
        Auth::Deny(Denial::NotPaired)
    } else if origin is Some {
        Auth::Deny(Denial::BrowserOrigin)
    } else if token == Some(expected) {
        Auth::Allow
    } else {
        Auth::Deny(Denial::BadToken)
    }
}

/// The token of a subprotocol header: its second entry, when the first is [`SUBPROTOCOL`] and the
/// second is not empty. Entries are separated by commas and may be padded with white space.
pub open spec fn subprotocol_token(header: Option<Seq<char>>) -> Option<Seq<char>> {
    match header {
        None => None,
        Some(raw) => if text::trimmed(text::before(raw, ',')) != SUBPROTOCOL@ {
            None
        } else {
            match text::after(raw, ',') {
                None => None,
                Some(rest) => {
                    let token = text::trimmed(text::before(rest, ','));
                    if token.len() == 0 {
                        None
                    } else {
                        Some(token)
                    }
                },
            }
        },
    }
}

/// A subprotocol header offers [`SUBPROTOCOL`] as its first entry.
pub open spec fn offers_ours(header: Option<Seq<char>>) -> bool {
    header matches Some(raw) && text::trimmed(text::before(raw, ',')) == SUBPROTOCOL@
}

/// The token of an `Authorization` header with the `Bearer` scheme.
pub open spec fn bearer_token(header: Option<Seq<char>>) -> Option<Seq<char>> {
    match header {
        None => None,
        Some(value) => if text::occurs_at(value, "Bearer "@, 0) {
            Some(text::trimmed(value.skip("Bearer "@.len() as int)))
        } else {
            None
        },
    }
}

/// The token a handshake presents: that of its `Authorization` header, else that of its subprotocol.
pub open spec fn presented_token(
    authorization: Option<Seq<char>>,
    offered: Option<Seq<char>>,
) -> Option<Seq<char>> {
    match bearer_token(authorization) {
        Some(token) => Some(token),
        None => subprotocol_token(offered),
    }
}

/// Compares without an early return on the first differing byte, so that the time taken tells
/// nothing of a token's prefix.
fn constant_time_eq(a: &str, b: &str) -> (r: bool)
    ensures
        r == (a@ == b@),
{
    proof {
        text::lemma_same_bytes(a@, b@);
    }
    let (x, y) = (a.as_bytes(), b.as_bytes());
    if x.len() != y.len() {
        return false;
    }
    let mut acc: u8 = 0;
    let mut i: usize = 0;
    while i < x.len()
        invariant
            i <= x@.len(),
            x@.len() == y@.len(),
            (acc == 0) == (forall|j: int| 0 <= j < i ==> x@[j] == y@[j]),
        decreases x@.len() - i,
    {
        let (p, q): (u8, u8) = (x[i], y[i]);
        assert(((acc | (p ^ q)) == 0) == (acc == 0 && p == q)) by (bit_vector);
        acc = acc | (p ^ q);
        i += 1;
    }
    assert((acc == 0) == (x@ =~= y@));
    acc == 0
}

/// Decides whether a handshake may proceed. An empty `expected` means that there is no token, and
/// the API stays closed rather than open.
pub fn authorize(token: Option<&str>, origin: Option<&str>, expected: &str) -> (r: Auth)
    ensures
        r == verdict(protocol::str_of(token), protocol::str_of(origin), expected@),
{
    if expected.is_empty() {
        return Auth::Deny(Denial::NotPaired);
    }
    if origin.is_some() {
        return Auth::Deny(Denial::BrowserOrigin);
    }
    match token {
        Some(t) => if constant_time_eq(t, expected) {
            Auth::Allow
        } else {
            Auth::Deny(Denial::BadToken)
        },
        None => Auth::Deny(Denial::BadToken),
    }
}

/// The token of a `Sec-WebSocket-Protocol` header.
///
/// A client that cannot set request headers offers the token as a second subprotocol, which keeps it
/// out of the URL. A header with a single entry carries no token, which is not a token of `""`.
pub fn token_from_subprotocol<'a>(header: Option<&'a str>) -> (r: Option<&'a str>)
    ensures
        protocol::str_of(r) == subprotocol_token(protocol::str_of(header)),
{
    let raw = match header {
        Some(raw) => raw,
        None => return None,
    };
    let (first, rest) = split_first(raw, ',');
    if !str_eq(trim(first), SUBPROTOCOL) {
        return None;
    }
    match rest {
        Some(rest) => {
            let (second, _) = split_first(rest, ',');
            let token = trim(second);
            if token.is_empty() {
                None
            } else {
                Some(token)
            }
        },
        None => None,
    }
}

/// Whether a `Sec-WebSocket-Protocol` header offers [`SUBPROTOCOL`] as its first entry, with a token
/// or without one.
pub fn offers_subprotocol(header: Option<&str>) -> (r: bool)
    ensures
        r == offers_ours(protocol::str_of(header)),
{
    match header {
        Some(raw) => {
            let (first, _) = split_first(raw, ',');
            str_eq(trim(first), SUBPROTOCOL)
        },
        None => false,
    }
}

/// The answer to a handshake.
#[derive(Debug, Clone, Copy, PartialEq, Eq, Structural)]
pub struct Handshake {
    pub verdict: Auth,
    /// Whether the reply selects [`SUBPROTOCOL`].
    pub select: bool,
}

/// The answer to a handshake with these headers.
pub open spec fn answered(
    authorization: Option<Seq<char>>,
    offered: Option<Seq<char>>,
    origin: Option<Seq<char>>,
    expected: Seq<char>,
) -> Handshake {
    let verdict = verdict(presented_token(authorization, offered), origin, expected);
    Handshake { verdict, select: verdict == Auth::Allow && offers_ours(offered) }
}

/// Answers a handshake from its `Authorization`, `Sec-WebSocket-Protocol` and `Origin` headers.
///
/// The reply selects the subprotocol exactly when the client offered it, whichever header its token
/// came in: a client whose offer is not answered drops the connection, and one that is told it
/// selected a subprotocol it never offered must fail it.
pub fn handshake(
    authorization: Option<&str>,
    offered: Option<&str>,
    origin: Option<&str>,
    expected: &str,
) -> (r: Handshake)
    ensures
        r.verdict == verdict(
            presented_token(protocol::str_of(authorization), protocol::str_of(offered)),
            protocol::str_of(origin),
            expected@,
        ),
        r.select == (r.verdict == Auth::Allow && offers_ours(protocol::str_of(offered))),
        r == answered(
            protocol::str_of(authorization),
            protocol::str_of(offered),
            protocol::str_of(origin),
            expected@,
        ),
{
    let bearer = match authorization {
        Some(value) => match strip_prefix(value, "Bearer ") {
            Some(rest) => Some(trim(rest)),
            None => None,
        },
        None => None,
    };
    let token = match bearer {
        Some(t) => Some(t),
        None => token_from_subprotocol(offered),
    };
    let verdict = authorize(token, origin, expected);
    Handshake { verdict, select: matches!(verdict, Auth::Allow) && offers_subprotocol(offered) }
}

/// What the keyring answered when asked for the pairing token.
#[derive(Debug, Clone, PartialEq, Eq)]
pub enum Stored {
    /// The keyring cannot be reached, or the entry cannot be read.
    Unavailable,
    /// It holds no token.
    Missing,
    /// It holds this one.
    Found(String),
}

/// What [`Stored`] says, with the token as characters.
pub enum StoredView {
    Unavailable,
    Missing,
    Found(Seq<char>),
}

impl View for Stored {
    type V = StoredView;

    open spec fn view(&self) -> StoredView {
        match *self {
            Stored::Unavailable => StoredView::Unavailable,
            Stored::Missing => StoredView::Missing,
            Stored::Found(t) => StoredView::Found(t@),
        }
    }
}

/// What to do about the pairing token.
#[derive(Debug, Clone, PartialEq, Eq)]
pub enum Pairing {
    /// Use this token; an empty one keeps the API closed.
    Use(String),
    /// Store this new token, and use it once stored.
    Store(String),
}

/// What [`Pairing`] says, with the token as characters.
pub enum PairingView {
    Use(Seq<char>),
    Store(Seq<char>),
}

impl View for Pairing {
    type V = PairingView;

    open spec fn view(&self) -> PairingView {
        match *self {
            Pairing::Use(t) => PairingView::Use(t@),
            Pairing::Store(t) => PairingView::Store(t@),
        }
    }
}

/// What to do about the pairing token, with a new one at hand: without a keyring there is none, a
/// stored one is used, and where none is stored the new one is.
pub open spec fn chosen(stored: StoredView, fresh: Seq<char>) -> PairingView {
    match stored {
        StoredView::Unavailable => PairingView::Use(Seq::empty()),
        StoredView::Found(t) if t.len() > 0 => PairingView::Use(t),
        _ => PairingView::Store(fresh),
    }
}

/// The token in use after a plan was carried out. `written` says whether a token that was to be
/// stored could be.
pub open spec fn token_in_use(plan: PairingView, written: bool) -> Seq<char> {
    match plan {
        PairingView::Use(t) => t,
        PairingView::Store(t) => if written {
            t
        } else {
            Seq::empty()
        },
    }
}

/// What the keyring answers after a plan was carried out.
pub open spec fn keyring_after(
    stored: StoredView,
    plan: PairingView,
    written: bool,
) -> StoredView {
    match plan {
        PairingView::Store(t) if written => StoredView::Found(t),
        _ => stored,
    }
}

/// A lower-case hexadecimal digit.
pub open spec fn hex_digit(c: char) -> bool {
    '0' <= c <= '9' || 'a' <= c <= 'f'
}

/// A random token: the 32 lower-case hexadecimal digits of a version 4 UUID, whose digit 12 is the
/// version and whose digit 16 holds the variant.
pub open spec fn random_token(s: Seq<char>) -> bool {
    &&& s.len() == 32
    &&& forall|i: int| 0 <= i < 32 ==> hex_digit(#[trigger] s[i])
    &&& s[12] == '4'
    &&& s[16] == '8' || s[16] == '9' || s[16] == 'a' || s[16] == 'b'
}

/// A new token from `uuid::Uuid::new_v4`, written by `Uuid::simple`.
///
/// The contract claims the form of every outcome: 32 lower-case hexadecimal digits with the version
/// and variant digits of a random UUID. Which token comes out is left to chance. The call panics
/// when the machine has no source of randomness.
#[verifier::external_body]
fn fresh_token() -> (r: String)
    ensures
        random_token(r@),
{
    uuid::Uuid::new_v4().simple().to_string()
}

/// Whether a new token has to be drawn: the keyring works and holds none.
fn needs_token(stored: &Stored) -> (r: bool)
    ensures
        r == match *stored {
            Stored::Unavailable => false,
            Stored::Missing => true,
            Stored::Found(t) => t@.len() == 0,
        },
{
    match stored {
        Stored::Unavailable => false,
        Stored::Missing => true,
        Stored::Found(existing) => existing.as_str().is_empty(),
    }
}

/// What to do about the pairing token, with a new one at hand: use the stored one, or store the new
/// one when there is none. Without a keyring there is no token.
pub fn pairing_choice(stored: Stored, fresh: String) -> (r: Pairing)
    ensures
        match stored {
            Stored::Unavailable => r matches Pairing::Use(t) && t@.len() == 0,
            Stored::Found(t) if t@.len() > 0 => r == Pairing::Use(t),
            _ => r == Pairing::Store(fresh),
        },
        r@ == chosen(stored@, fresh@),
{
    if needs_token(&stored) {
        return Pairing::Store(fresh);
    }
    match stored {
        Stored::Found(existing) => Pairing::Use(existing),
        _ => Pairing::Use(String::new()),
    }
}

/// What to do about the pairing token: use the stored one, or store a new one when there is none.
/// Without a keyring there is no token. Which token a new one is, is left to chance.
pub fn pairing_plan(stored: Stored) -> (r: Pairing)
    ensures
        match stored {
            Stored::Unavailable => r matches Pairing::Use(t) && t@.len() == 0,
            Stored::Found(t) if t@.len() > 0 => r == Pairing::Use(t),
            _ => r matches Pairing::Store(t) && random_token(t@),
        },
{
    let fresh = if needs_token(&stored) {
        fresh_token()
    } else {
        String::new()
    };
    pairing_choice(stored, fresh)
}

/// The token to use after trying to store a new one. One that could not be stored would be gone
/// after a restart, so the API stays closed instead.
pub fn pairing_stored(fresh: String, stored: bool) -> (r: String)
    ensures
        stored ==> r == fresh,
        r@ == token_in_use(PairingView::Store(fresh@), stored),
{
    if stored {
        fresh
    } else {
        String::new()
    }
}

/// How deleting a keyring entry went.
#[derive(Debug, Clone, PartialEq, Eq)]
pub enum Deletion {
    Deleted,
    /// There was no such entry.
    NoEntry,
    Failed(String),
}

/// What the keyring answers after a deletion.
pub open spec fn keyring_after_deletion(stored: StoredView, deletion: Deletion) -> StoredView {
    match deletion {
        Deletion::Failed(_) => stored,
        _ => StoredView::Missing,
    }
}

/// The token is gone after a deletion.
pub open spec fn gone(deletion: Deletion) -> bool {
    !(deletion is Failed)
}

/// Whether a token is gone from the keyring after deleting it. One that was never there is.
pub fn deletion_outcome(deletion: Deletion) -> (r: Result<(), String>)
    ensures
        match deletion {
            Deletion::Failed(e) => r == Err::<(), String>(e),
            _ => r is Ok,
        },
        r is Ok == gone(deletion),
{
    match deletion {
        Deletion::Deleted => Ok(()),
        Deletion::NoEntry => Ok(()),
        Deletion::Failed(e) => Err(e),
    }
}

/// A pairing token lasts: once one is in use, the next time it is asked for the same one comes back
/// and nothing is written, whatever token was at hand.
pub proof fn law_pairing_token_lasts(
    stored: StoredView,
    fresh: Seq<char>,
    written: bool,
    next_fresh: Seq<char>,
    next_written: bool,
)
    ensures
        ({
            let plan = chosen(stored, fresh);
            let token = token_in_use(plan, written);
            let after = keyring_after(stored, plan, written);
            let next = chosen(after, next_fresh);
            token.len() > 0 ==> {
                &&& next == PairingView::Use(token)
                &&& token_in_use(next, next_written) == token
                &&& keyring_after(after, next, next_written) == after
            }
        }),
{
}

/// A token that could not be stored is not used: the API stays closed, and the keyring is as it was.
pub proof fn law_unstored_token_is_unused(stored: StoredView, fresh: Seq<char>)
    requires
        chosen(stored, fresh) is Store,
    ensures
        token_in_use(chosen(stored, fresh), false).len() == 0,
        keyring_after(stored, chosen(stored, fresh), false) == stored,
{
}

/// A revoked token is gone: after a deletion that succeeded the next token is the one newly drawn,
/// or none if that cannot be stored. So the old one is back in use only if it is drawn again.
pub proof fn law_revoked_token_is_gone(
    stored: StoredView,
    deletion: Deletion,
    old_token: Seq<char>,
    fresh: Seq<char>,
    written: bool,
)
    requires
        !(deletion is Failed),
        old_token.len() > 0,
    ensures
        ({
            let plan = chosen(keyring_after_deletion(stored, deletion), fresh);
            &&& plan == PairingView::Store(fresh)
            &&& token_in_use(plan, true) == fresh
            &&& token_in_use(plan, false).len() == 0
            &&& token_in_use(plan, written) == old_token ==> fresh == old_token
        }),
{
}

/// No browser gets in: with an `Origin` header every handshake is refused, whatever its token.
pub proof fn law_no_browser(
    token: Option<Seq<char>>,
    origin: Option<Seq<char>>,
    expected: Seq<char>,
)
    requires
        origin is Some,
    ensures
        verdict(token, origin, expected) is Deny,
{
}

/// Without a token the API is closed to everyone: an empty expected token admits nothing, not even
/// an empty one.
pub proof fn law_unpaired_is_closed(token: Option<Seq<char>>, origin: Option<Seq<char>>)
    ensures
        verdict(token, origin, Seq::empty()) == Auth::Deny(Denial::NotPaired),
{
}

/// A paired API admits a native client with its token, presented either way, and no other token.
/// A token keeps its characters on the way as long as it has no comma and no white space at its
/// ends.
pub proof fn law_right_token_admits(expected: Seq<char>)
    requires
        expected.len() > 0,
        forall|i: int| 0 <= i < expected.len() ==> expected[i] != ',',
        text::trimmed(expected) == expected,
    ensures
        verdict(
            presented_token(Some("Bearer "@ + expected), None),
            None,
            expected,
        ) == Auth::Allow,
        verdict(
            presented_token(None, Some(SUBPROTOCOL@ + ","@ + expected)),
            None,
            expected,
        ) == Auth::Allow,
{
    let value = "Bearer "@ + expected;
    assert(value.subrange(0, "Bearer "@.len() as int) =~= "Bearer "@);
    assert(value.skip("Bearer "@.len() as int) =~= expected);
    assert(text::occurs_at(value, "Bearer "@, 0));
    let raw = SUBPROTOCOL@ + ","@ + expected;
    reveal_strlit("orghud.v1");
    reveal_strlit(",");
    text::lemma_first_index_is(raw, ',', SUBPROTOCOL@.len() as int);
    assert(text::before(raw, ',') =~= SUBPROTOCOL@);
    assert(text::after(raw, ',')->0 =~= expected);
    text::lemma_first_index_is(expected, ',', expected.len() as int);
    assert(text::before(expected, ',') =~= expected);
    assert(text::trimmed(SUBPROTOCOL@) =~= SUBPROTOCOL@);
}

/// Every token that pairing generates admits the client that presents it, either way.
pub proof fn law_generated_token_admits(token: Seq<char>)
    requires
        random_token(token),
    ensures
        verdict(presented_token(Some("Bearer "@ + token), None), None, token) == Auth::Allow,
        verdict(presented_token(None, Some(SUBPROTOCOL@ + ","@ + token)), None, token)
            == Auth::Allow,
{
    assert(hex_digit(token[0]) && hex_digit(token[31]));
    assert forall|i: int| 0 <= i < token.len() implies token[i] != ',' by {
        assert(hex_digit(token[i]));
    }
    law_right_token_admits(token);
}

/// Each verdict is given exactly where its reason holds: an API without a token is closed before
/// anything else is looked at, a browser is refused before its token is, and of the others exactly
/// the right token gets in.
pub proof fn law_each_verdict_has_its_reason(
    token: Option<Seq<char>>,
    origin: Option<Seq<char>>,
    expected: Seq<char>,
)
    ensures
        ({
            let v = verdict(token, origin, expected);
            &&& (v == Auth::Allow) == (expected.len() > 0 && origin is None && token is Some
                && token->0 == expected)
            &&& (v == Auth::Deny(Denial::NotPaired)) == (expected.len() == 0)
            &&& (v == Auth::Deny(Denial::BrowserOrigin)) == (expected.len() > 0 && origin is Some)
            &&& (v == Auth::Deny(Denial::BadToken)) == (expected.len() > 0 && origin is None && (
            token is None || token->0 != expected))
        }),
{
}

/// A subprotocol header is read by its entries. The first, up to the first comma, says whether ours
/// is offered, and only where it is does the second, up to the next comma, hold the token; white
/// space around either does not count. Later entries do not matter.
pub proof fn law_subprotocol_header(first: Seq<char>, second: Seq<char>, later: Seq<char>)
    requires
        !first.contains(','),
        !second.contains(','),
    ensures
        ({
            let ours = text::trimmed(first) == "orghud.v1"@;
            let token = text::trimmed(second);
            let two = first.push(',') + second;
            let more = two.push(',') + later;
            &&& subprotocol_token(None) is None
            &&& subprotocol_token(Some(first)) is None
            &&& offers_ours(Some(first)) == ours
            &&& offers_ours(Some(two)) == ours
            &&& offers_ours(Some(more)) == ours
            &&& !offers_ours(None)
            &&& subprotocol_token(Some(two)) == (if ours && token.len() > 0 {
                Some(token)
            } else {
                None
            })
            &&& subprotocol_token(Some(more)) == subprotocol_token(Some(two))
        }),
{
    let two = first.push(',') + second;
    let more = two.push(',') + later;
    let n = first.len() as int;
    assert forall|j: int| 0 <= j < n implies first[j] != ',' by {}
    assert forall|j: int| 0 <= j < second.len() implies second[j] != ',' by {}
    text::lemma_first_index_is(first, ',', n);
    text::lemma_first_index_is(two, ',', n);
    text::lemma_first_index_is(more, ',', n);
    assert(text::before(first, ',') =~= first);
    assert(text::before(two, ',') =~= first);
    assert(text::before(more, ',') =~= first);
    let rest = second.push(',') + later;
    assert(two.skip(n + 1) =~= second);
    assert(more.skip(n + 1) =~= rest);
    text::lemma_first_index_is(second, ',', second.len() as int);
    text::lemma_first_index_is(rest, ',', second.len() as int);
    assert(text::before(second, ',') =~= second);
    assert(text::before(rest, ',') =~= second);
}

/// An `Authorization` header holds a token exactly where it begins with `Bearer `: what follows,
/// without white space around it. Where it does, it outranks the subprotocol.
pub proof fn law_bearer_header(rest: Seq<char>, value: Seq<char>, offered: Option<Seq<char>>)
    ensures
        bearer_token(None) is None,
        bearer_token(Some("Bearer "@ + rest)) == Some(text::trimmed(rest)),
        bearer_token(Some(value)) is Some == "Bearer "@.is_prefix_of(value),
        presented_token(Some("Bearer "@ + rest), offered) == Some(text::trimmed(rest)),
        !"Bearer "@.is_prefix_of(value) ==> presented_token(Some(value), offered)
            == subprotocol_token(offered),
        presented_token(None, offered) == subprotocol_token(offered),
{
    let v = "Bearer "@ + rest;
    assert(v.subrange(0, "Bearer "@.len() as int) =~= "Bearer "@);
    assert(v.skip("Bearer "@.len() as int) =~= rest);
}

/// The answer selects our subprotocol exactly for a client that is let in and offered it, and the
/// verdict is the one on the token that was presented.
pub proof fn law_answer(
    authorization: Option<Seq<char>>,
    offered: Option<Seq<char>>,
    origin: Option<Seq<char>>,
    expected: Seq<char>,
)
    ensures
        ({
            let r = answered(authorization, offered, origin, expected);
            &&& r.verdict == verdict(presented_token(authorization, offered), origin, expected)
            &&& r.verdict != Auth::Allow ==> !r.select
            &&& r.verdict == Auth::Allow ==> r.select == offers_ours(offered)
            &&& origin is Some ==> r.verdict != Auth::Allow
            &&& authorization is None && r.verdict == Auth::Allow ==> r.select
        }),
{
}

/// A stored token is used as it is and nothing is stored; a new one is stored exactly where the
/// keyring works and holds none; without a keyring there is no token.
pub proof fn law_pairing_choice(token: Seq<char>, fresh: Seq<char>)
    ensures
        token.len() > 0 ==> chosen(StoredView::Found(token), fresh) == PairingView::Use(token),
        token.len() == 0 ==> chosen(StoredView::Found(token), fresh) == PairingView::Store(fresh),
        chosen(StoredView::Missing, fresh) == PairingView::Store(fresh),
        chosen(StoredView::Unavailable, fresh) matches PairingView::Use(t) && t.len() == 0,
{
}

/// A deletion counts as done exactly where nothing is left of the token.
pub proof fn law_deletion(deletion: Deletion)
    ensures
        deletion is Deleted ==> gone(deletion),
        deletion is NoEntry ==> gone(deletion),
        deletion is Failed ==> !gone(deletion),
        gone(deletion) ==> (forall|s: StoredView|
            #[trigger] keyring_after_deletion(s, deletion) is Missing),
        !gone(deletion) ==> (forall|s: StoredView|
            #[trigger] keyring_after_deletion(s, deletion) == s),
{
}

/// What the keyring answered, and what to do about it, read as they are.
pub proof fn law_pairing_reads_as_it_is(stored: Stored, pairing: Pairing)
    ensures
        stored is Unavailable == stored@ is Unavailable,
        stored is Missing == stored@ is Missing,
        stored matches Stored::Found(t) ==> stored@ == StoredView::Found(t@),
        pairing matches Pairing::Use(t) ==> pairing@ == PairingView::Use(t@),
        pairing matches Pairing::Store(t) ==> pairing@ == PairingView::Store(t@),
{
}

} // verus!

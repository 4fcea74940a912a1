//! The line classifier: a pure mapping from one line of process output to
//! zero or one status transition.
//!
//! The supervised binary emits unstructured human-readable diagnostics; the
//! rules here are a best-effort bridge from that text to a connection state.
//! Substring checks are case-insensitive, except for the quick-tunnel domain
//! markers and the URL prefix, which are matched on the raw line.

use vstd::prelude::*;

use crate::text::contains;
use crate::text::contains_seq;
use crate::text::find;
use crate::text::is_ws;
use crate::text::lower;
use crate::text::matches_at;
use crate::text::to_lower;
use crate::text::token_end;

verus! {

/// The byte sequence of `"registered"`.
pub open spec fn registered() -> Seq<u8> {
    seq![114u8, 101u8, 103u8, 105u8, 115u8, 116u8, 101u8, 114u8, 101u8, 100u8]
}

fn registered_bytes() -> (r: Vec<u8>)
    ensures
        r@ == registered(),
{
    let v: Vec<u8> = vec![114u8, 101u8, 103u8, 105u8, 115u8, 116u8, 101u8, 114u8, 101u8, 100u8];
    proof {
        assert(v@ =~= registered());
    }
    v
}

/// The byte sequence of `"connection"`.
pub open spec fn connection() -> Seq<u8> {
    seq![99u8, 111u8, 110u8, 110u8, 101u8, 99u8, 116u8, 105u8, 111u8, 110u8]
}

fn connection_bytes() -> (r: Vec<u8>)
    ensures
        r@ == connection(),
{
    let v: Vec<u8> = vec![99u8, 111u8, 110u8, 110u8, 101u8, 99u8, 116u8, 105u8, 111u8, 110u8];
    proof {
        assert(v@ =~= connection());
    }
    v
}

/// The byte sequence of `"connindex"`.
pub open spec fn connindex() -> Seq<u8> {
    seq![99u8, 111u8, 110u8, 110u8, 105u8, 110u8, 100u8, 101u8, 120u8]
}

fn connindex_bytes() -> (r: Vec<u8>)
    ensures
        r@ == connindex(),
{
    let v: Vec<u8> = vec![99u8, 111u8, 110u8, 110u8, 105u8, 110u8, 100u8, 101u8, 120u8];
    proof {
        assert(v@ =~= connindex());
    }
    v
}

/// The byte sequence of `"err "`.
pub open spec fn err_marker() -> Seq<u8> {
    seq![101u8, 114u8, 114u8, 32u8]
}

fn err_marker_bytes() -> (r: Vec<u8>)
    ensures
        r@ == err_marker(),
{
    let v: Vec<u8> = vec![101u8, 114u8, 114u8, 32u8];
    proof {
        assert(v@ =~= err_marker());
    }
    v
}

/// The byte sequence of `"failed"`.
pub open spec fn failed() -> Seq<u8> {
    seq![102u8, 97u8, 105u8, 108u8, 101u8, 100u8]
}

fn failed_bytes() -> (r: Vec<u8>)
    ensures
        r@ == failed(),
{
    let v: Vec<u8> = vec![102u8, 97u8, 105u8, 108u8, 101u8, 100u8];
    proof {
        assert(v@ =~= failed());
    }
    v
}

/// The byte sequence of `"failed to parse"`.
pub open spec fn failed_to_parse() -> Seq<u8> {
    seq![102u8, 97u8, 105u8, 108u8, 101u8, 100u8, 32u8, 116u8, 111u8, 32u8, 112u8, 97u8, 114u8, 115u8, 101u8]
}

fn failed_to_parse_bytes() -> (r: Vec<u8>)
    ensures
        r@ == failed_to_parse(),
{
    let v: Vec<u8> = vec![102u8, 97u8, 105u8, 108u8, 101u8, 100u8, 32u8, 116u8, 111u8, 32u8, 112u8, 97u8, 114u8, 115u8, 101u8];
    proof {
        assert(v@ =~= failed_to_parse());
    }
    v
}

/// The byte sequence of `"unable to"`.
pub open spec fn unable_to() -> Seq<u8> {
    seq![117u8, 110u8, 97u8, 98u8, 108u8, 101u8, 32u8, 116u8, 111u8]
}

fn unable_to_bytes() -> (r: Vec<u8>)
    ensures
        r@ == unable_to(),
{
    let v: Vec<u8> = vec![117u8, 110u8, 97u8, 98u8, 108u8, 101u8, 32u8, 116u8, 111u8];
    proof {
        assert(v@ =~= unable_to());
    }
    v
}

/// The byte sequence of `"initial protocol"`.
pub open spec fn initial_protocol() -> Seq<u8> {
    seq![105u8, 110u8, 105u8, 116u8, 105u8, 97u8, 108u8, 32u8, 112u8, 114u8, 111u8, 116u8, 111u8, 99u8, 111u8, 108u8]
}

fn initial_protocol_bytes() -> (r: Vec<u8>)
    ensures
        r@ == initial_protocol(),
{
    let v: Vec<u8> = vec![105u8, 110u8, 105u8, 116u8, 105u8, 97u8, 108u8, 32u8, 112u8, 114u8, 111u8, 116u8, 111u8, 99u8, 111u8, 108u8];
    proof {
        assert(v@ =~= initial_protocol());
    }
    v
}

/// The byte sequence of `"connection established"`.
pub open spec fn connection_established() -> Seq<u8> {
    seq![99u8, 111u8, 110u8, 110u8, 101u8, 99u8, 116u8, 105u8, 111u8, 110u8, 32u8, 101u8, 115u8, 116u8, 97u8, 98u8, 108u8, 105u8, 115u8, 104u8, 101u8, 100u8]
}

fn connection_established_bytes() -> (r: Vec<u8>)
    ensures
        r@ == connection_established(),
{
    let v: Vec<u8> = vec![99u8, 111u8, 110u8, 110u8, 101u8, 99u8, 116u8, 105u8, 111u8, 110u8, 32u8, 101u8, 115u8, 116u8, 97u8, 98u8, 108u8, 105u8, 115u8, 104u8, 101u8, 100u8];
    proof {
        assert(v@ =~= connection_established());
    }
    v
}

/// The byte sequence of `".trycloudflare.com"`.
pub open spec fn try_domain() -> Seq<u8> {
    seq![46u8, 116u8, 114u8, 121u8, 99u8, 108u8, 111u8, 117u8, 100u8, 102u8, 108u8, 97u8, 114u8, 101u8, 46u8, 99u8, 111u8, 109u8]
}

fn try_domain_bytes() -> (r: Vec<u8>)
    ensures
        r@ == try_domain(),
{
    let v: Vec<u8> = vec![46u8, 116u8, 114u8, 121u8, 99u8, 108u8, 111u8, 117u8, 100u8, 102u8, 108u8, 97u8, 114u8, 101u8, 46u8, 99u8, 111u8, 109u8];
    proof {
        assert(v@ =~= try_domain());
    }
    v
}

/// The byte sequence of `".cfargotunnel.com"`.
pub open spec fn cfargo_domain() -> Seq<u8> {
    seq![46u8, 99u8, 102u8, 97u8, 114u8, 103u8, 111u8, 116u8, 117u8, 110u8, 110u8, 101u8, 108u8, 46u8, 99u8, 111u8, 109u8]
}

fn cfargo_domain_bytes() -> (r: Vec<u8>)
    ensures
        r@ == cfargo_domain(),
{
    let v: Vec<u8> = vec![46u8, 99u8, 102u8, 97u8, 114u8, 103u8, 111u8, 116u8, 117u8, 110u8, 110u8, 101u8, 108u8, 46u8, 99u8, 111u8, 109u8];
    proof {
        assert(v@ =~= cfargo_domain());
    }
    v
}

/// The byte sequence of `"https://"`.
pub open spec fn https_prefix() -> Seq<u8> {
    seq![104u8, 116u8, 116u8, 112u8, 115u8, 58u8, 47u8, 47u8]
}

fn https_prefix_bytes() -> (r: Vec<u8>)
    ensures
        r@ == https_prefix(),
{
    let v: Vec<u8> = vec![104u8, 116u8, 116u8, 112u8, 115u8, 58u8, 47u8, 47u8];
    proof {
        assert(v@ =~= https_prefix());
    }
    v
}
/// Ghost meaning of one output line.
pub enum LineClass {
    /// A "registered ... connection" diagnostic: the tunnel is up.
    Registered,
    /// A quick-tunnel public URL was announced; the payload is the URL.
    QuickUrl(Seq<u8>),
    /// The line reports an error (non-fatal for the session).
    ErrorLine,
    /// A connector-established diagnostic: the tunnel is up.
    Established,
    /// No status transition.
    NoMatch,
}

/// First rule: the (lowercased) line mentions a registered connection.
pub open spec fn rule_registered(low: Seq<u8>) -> bool {
    contains_seq(low, registered()) && (contains_seq(low, connection()) || contains_seq(
        low,
        connindex(),
    ))
}

/// Second rule's guard: the raw line carries a quick-tunnel domain marker.
pub open spec fn rule_quick_domain(line: Seq<u8>) -> bool {
    contains_seq(line, try_domain()) || contains_seq(line, cfargo_domain())
}

/// Third rule: the (lowercased) line reports an error. Lines about a failure
/// to parse configuration are informational, not errors.
pub open spec fn rule_error(low: Seq<u8>) -> bool {
    contains_seq(low, err_marker()) || (contains_seq(low, failed()) && !contains_seq(
        low,
        failed_to_parse(),
    )) || contains_seq(low, unable_to())
}

/// Fourth rule: the (lowercased) line announces an established connector.
pub open spec fn rule_established(low: Seq<u8>) -> bool {
    contains_seq(low, initial_protocol()) || contains_seq(low, connection_established())
}

/// Position of the first occurrence of `needle` in `hay`.
pub open spec fn first_match(hay: Seq<u8>, needle: Seq<u8>) -> int {
    choose|i: int|
        matches_at(hay, needle, i) && (forall|j: int| 0 <= j < i ==> !matches_at(hay, needle, j))
}

/// End of the whitespace-free token starting at `start`: the first
/// whitespace position at or after `start`, or the end of `s`.
pub open spec fn spec_token_end(s: Seq<u8>, start: int) -> int
    recommends
        0 <= start <= s.len(),
    decreases s.len() - start,
{
    if start < 0 || start >= s.len() {
        s.len() as int
    } else if is_ws(s[start]) {
        start
    } else {
        spec_token_end(s, start + 1)
    }
}

/// The URL announced on `line`: the whitespace-delimited token that starts at
/// the first occurrence of `"https://"`.
pub open spec fn url_token(line: Seq<u8>) -> Seq<u8> {
    line.subrange(first_match(line, https_prefix()), spec_token_end(line, first_match(line, https_prefix())))
}

/// What the classifier yields for `line`, rule by rule in precedence order.
pub open spec fn classify_spec(line: Seq<u8>) -> LineClass {
    let low = lower(line);
    if rule_registered(low) {
        LineClass::Registered
    } else if rule_quick_domain(line) {
        if contains_seq(line, https_prefix()) {
            LineClass::QuickUrl(url_token(line))
        } else {
            LineClass::NoMatch
        }
    } else if rule_error(low) {
        LineClass::ErrorLine
    } else if rule_established(low) {
        LineClass::Established
    } else {
        LineClass::NoMatch
    }
}

/// Which classifier rule recognised a connection.
#[derive(Debug, Clone, Copy, PartialEq, Eq)]
pub enum ConnectKind {
    Registered,
    QuickUrl,
    Established,
}

/// One classified output line.
#[derive(Debug, Clone, PartialEq, Eq)]
pub enum Classification {
    /// The tunnel is up; `url` is set when the line announced a public URL.
    Connected { kind: ConnectKind, url: Option<Vec<u8>> },
    /// The line reports an error; the session emits it and carries on.
    ErrorDetected,
    /// No status transition.
    NoMatch,
}

/// The executable classification `c` means exactly the ghost class `m`.
pub open spec fn matches_class(c: Classification, m: LineClass) -> bool {
    match m {
        LineClass::Registered => c matches Classification::Connected {
            kind: ConnectKind::Registered,
            url: None,
        },
        LineClass::QuickUrl(u) => c matches Classification::Connected {
            kind: ConnectKind::QuickUrl,
            url: Some(v),
        } && v@ == u,
        LineClass::ErrorLine => c matches Classification::ErrorDetected,
        LineClass::Established => c matches Classification::Connected {
            kind: ConnectKind::Established,
            url: None,
        },
        LineClass::NoMatch => c matches Classification::NoMatch,
    }
}

proof fn lemma_first_match(hay: Seq<u8>, needle: Seq<u8>, i: int)
    requires
        matches_at(hay, needle, i),
        forall|j: int| 0 <= j < i ==> !matches_at(hay, needle, j),
    ensures
        first_match(hay, needle) == i,
{
    assert(matches_at(hay, needle, first_match(hay, needle)) && (forall|j: int|
        0 <= j < first_match(hay, needle) ==> !matches_at(hay, needle, j))) by {
        assert(exists|k: int|
            matches_at(hay, needle, k) && (forall|j: int|
                0 <= j < k ==> !matches_at(hay, needle, j)));
    }
}

proof fn lemma_token_end(s: Seq<u8>, start: int, e: int)
    requires
        0 <= start <= e <= s.len(),
        forall|j: int| start <= j < e ==> !is_ws(s[j]),
        e < s.len() ==> is_ws(s[e]),
    ensures
        spec_token_end(s, start) == e,
    decreases e - start,
{
    if start < e {
        lemma_token_end(s, start + 1, e);
    }
}

/// Classify one line of process output.
pub fn classify(line: &[u8]) -> (c: Classification)
    ensures
        matches_class(c, classify_spec(line@)),
{
    let low_v = to_lower(line);
    let low = low_v.as_slice();
    let p_registered = registered_bytes();
    let p_connection = connection_bytes();
    let p_connindex = connindex_bytes();
    if contains(low, p_registered.as_slice()) && (contains(low, p_connection.as_slice()) || contains(
        low,
        p_connindex.as_slice(),
    )) {
        return Classification::Connected { kind: ConnectKind::Registered, url: None };
    }
    let p_try = try_domain_bytes();
    let p_cfargo = cfargo_domain_bytes();
    if contains(line, p_try.as_slice()) || contains(line, p_cfargo.as_slice()) {
        let p_https = https_prefix_bytes();
        match find(line, p_https.as_slice()) {
            Some(st) => {
                proof {
                    lemma_first_match(line@, https_prefix(), st as int);
                }
                let end = token_end(line, st);
                proof {
                    lemma_token_end(line@, st as int, end as int);
                }
                let url = vstd::slice::slice_to_vec(vstd::slice::slice_subrange(line, st, end));
                return Classification::Connected { kind: ConnectKind::QuickUrl, url: Some(url) };
            },
            None => {
                return Classification::NoMatch;
            },
        }
    }
    let p_err = err_marker_bytes();
    let p_failed = failed_bytes();
    let p_ftp = failed_to_parse_bytes();
    let p_unable = unable_to_bytes();
    if contains(low, p_err.as_slice()) || (contains(low, p_failed.as_slice()) && !contains(
        low,
        p_ftp.as_slice(),
    )) || contains(low, p_unable.as_slice()) {
        return Classification::ErrorDetected;
    }
    let p_initial = initial_protocol_bytes();
    let p_ce = connection_established_bytes();
    if contains(low, p_initial.as_slice()) || contains(low, p_ce.as_slice()) {
        return Classification::Connected { kind: ConnectKind::Established, url: None };
    }
    Classification::NoMatch
}

} // verus!

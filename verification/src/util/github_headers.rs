//! Checking that a webhook request comes from GitHub: its body must carry
//! the HMAC-SHA1 signature, under the shared secret, that the
//! `X-Hub-Signature` header gives as `sha1=` and forty hexadecimal digits.

use crate::util::crypto::{
    SHA1_LEN, from_hex, generate_sha1_hmac, hex_decode, hex_encode, hmac_matches, hmac_sha1, lemma_hex_decode_len,
    lemma_hex_round_trip,
};
use vstd::utf8::encode_utf8;
use vstd::prelude::*;

verus! {

/// The signature that an `X-Hub-Signature` header value gives: the bytes
/// of the hexadecimal digits after its five-character prefix, when it has
/// exactly the right length.
pub open spec fn spec_parse_signature(header: Seq<u8>) -> Option<Seq<u8>> {
    if header.len() != SHA1_LEN + 5 {
        None
    } else {
        hex_decode(header.subrange(5, header.len() as int))
    }
}

/// Read the signature out of an `X-Hub-Signature` header value (empty when
/// the header is absent); see [`spec_parse_signature`].
pub fn parse_signature(header: &[u8]) -> (r: Option<Vec<u8>>)
    ensures
        match r {
            Some(v) => spec_parse_signature(header@) == Some(v@) && v@.len() == 20,
            None => spec_parse_signature(header@) is None,
        },
{
    if header.len() != SHA1_LEN + 5 {
        return None;
    }
    let mut digits: Vec<u8> = Vec::new();
    let mut i: usize = 5;
    while i < header.len()
        invariant
            5 <= i <= header@.len(),
            digits@ == header@.subrange(5, i as int),
        decreases header.len() - i,
    {
        digits.push(header[i]);
        proof {
            assert(header@.subrange(5, i + 1) =~= header@.subrange(5, i as int).push(header@[i as int]));
        }
        i = i + 1;
    }
    let r = from_hex(digits.as_slice());
    proof {
        lemma_hex_decode_len(digits@);
    }
    r
}

/// A webhook request as read off the wire: its `X-Github-Event` header, its
/// `X-Hub-Signature` header (each empty when absent), and its body.
pub struct WebhookRequest {
    pub event: Vec<u8>,
    pub signature: Vec<u8>,
    pub body: Vec<u8>,
}

/// Whether the `X-Hub-Signature` header value `header` gives the signature
/// `expected`, the HMAC computed of the body (`None` when none could be
/// computed).
pub open spec fn signature_accepted(header: Seq<u8>, expected: Option<Seq<u8>>) -> bool {
    spec_parse_signature(header) matches Some(s) && expected == Some(s)
}

/// The event and the body of `req` when its signature header gives
/// `expected`, the HMAC-SHA1 computed of its body; `None` otherwise.
pub fn accept_signed(req: WebhookRequest, expected: Option<Vec<u8>>) -> (r: Option<(Vec<u8>, Vec<u8>)>)
    ensures
        r is Some == signature_accepted(req.signature@, match expected { Some(e) => Some(e@), None => None }),
        r matches Some((event, body)) ==> event@ == req.event@ && body@ == req.body@,
{
    let signature = match parse_signature(req.signature.as_slice()) {
        Some(s) => s,
        None => return None,
    };
    if !hmac_matches(&expected, signature.as_slice()) {
        return None;
    }
    Some((req.event, req.body))
}

/// The event and the body of a request whose signature checks out under
/// `secret`; `None` for a request without a well-formed signature or with
/// one that does not match. The HMAC of the body is computed by OpenSSL
/// and checked by [`accept_signed`]; when OpenSSL fails, which nothing here
/// can rule out, the request is refused too.
pub fn parse(req: WebhookRequest, secret: &[u8]) -> (r: Option<(Vec<u8>, Vec<u8>)>)
    requires
        secret@.len() <= i32::MAX,
    ensures
        r matches Some((event, body)) ==> event@ == req.event@ && body@ == req.body@ && spec_parse_signature(
            req.signature@,
        ) == Some(hmac_sha1(secret@, req.body@)),
        spec_parse_signature(req.signature@) != Some(hmac_sha1(secret@, req.body@)) ==> r is None,
{
    let expected = generate_sha1_hmac(secret, req.body.as_slice());
    accept_signed(req, expected)
}

/// The answer to a webhook request.
#[derive(Clone, Copy, Debug, PartialEq, Eq, Structural)]
pub enum WebhookStatus {
    NoContent,
    BadRequest,
}

/// The kinds of event that GitHub's webhooks send, by their
/// `X-Github-Event` header.
#[derive(Clone, Copy, Debug, PartialEq, Eq, Structural)]
pub enum EventKind {
    IssueComment,
    PullRequest,
    Status,
    Ping,
    Other,
}

pub open spec fn issue_comment_bytes() -> Seq<u8> {
    seq![105u8, 115u8, 115u8, 117u8, 101u8, 95u8, 99u8, 111u8, 109u8, 109u8, 101u8, 110u8, 116u8]
}

pub open spec fn pull_request_bytes() -> Seq<u8> {
    seq![112u8, 117u8, 108u8, 108u8, 95u8, 114u8, 101u8, 113u8, 117u8, 101u8, 115u8, 116u8]
}

pub open spec fn status_bytes() -> Seq<u8> {
    seq![115u8, 116u8, 97u8, 116u8, 117u8, 115u8]
}

pub open spec fn ping_bytes() -> Seq<u8> {
    seq![112u8, 105u8, 110u8, 103u8]
}

/// The kind of event that an `X-Github-Event` header names: `issue_comment`,
/// `pull_request`, `status` or `ping`.
pub open spec fn spec_event_kind(header: Seq<u8>) -> EventKind {
    if header == issue_comment_bytes() {
        EventKind::IssueComment
    } else if header == pull_request_bytes() {
        EventKind::PullRequest
    } else if header == status_bytes() {
        EventKind::Status
    } else if header == ping_bytes() {
        EventKind::Ping
    } else {
        EventKind::Other
    }
}

/// Whether two byte strings are equal.
pub fn bytes_equal(a: &[u8], b: &[u8]) -> (r: bool)
    ensures
        r == (a@ == b@),
{
    if a.len() != b.len() {
        return false;
    }
    let mut i: usize = 0;
    while i < a.len()
        invariant
            i <= a@.len(),
            a@.len() == b@.len(),
            forall|j: int| 0 <= j < i ==> a@[j] == b@[j],
        decreases a.len() - i,
    {
        if a[i] != b[i] {
            return false;
        }
        i = i + 1;
    }
    assert(a@ =~= b@);
    true
}

/// The kind of event that an `X-Github-Event` header names; see
/// [`spec_event_kind`].
pub fn event_kind(header: &[u8]) -> (r: EventKind)
    ensures
        r == spec_event_kind(header@),
{
    let issue_comment: [u8; 13] = [105u8, 115u8, 115u8, 117u8, 101u8, 95u8, 99u8, 111u8, 109u8, 109u8, 101u8, 110u8, 116u8];
    let pull_request: [u8; 12] = [112u8, 117u8, 108u8, 108u8, 95u8, 114u8, 101u8, 113u8, 117u8, 101u8, 115u8, 116u8];
    let status: [u8; 6] = [115u8, 116u8, 97u8, 116u8, 117u8, 115u8];
    let ping: [u8; 4] = [112u8, 105u8, 110u8, 103u8];
    assert(issue_comment@ =~= issue_comment_bytes());
    assert(pull_request@ =~= pull_request_bytes());
    assert(status@ =~= status_bytes());
    assert(ping@ =~= ping_bytes());
    if bytes_equal(header, issue_comment.as_slice()) {
        EventKind::IssueComment
    } else if bytes_equal(header, pull_request.as_slice()) {
        EventKind::PullRequest
    } else if bytes_equal(header, status.as_slice()) {
        EventKind::Status
    } else if bytes_equal(header, ping.as_slice()) {
        EventKind::Ping
    } else {
        EventKind::Other
    }
}

/// A header value made of a five-byte prefix (such as `sha1=`) and the
/// hexadecimal text of a 20-byte signature reads back as that signature.
pub proof fn lemma_signature_header_round_trip(prefix: Seq<u8>, sig: Seq<u8>)
    requires
        prefix.len() == 5,
        sig.len() == 20,
    ensures
        spec_parse_signature(prefix + encode_utf8(hex_encode(sig))) == Some(sig),
{
    lemma_hex_round_trip(sig);
    let h = prefix + encode_utf8(hex_encode(sig));
    assert(h.subrange(5, h.len() as int) =~= encode_utf8(hex_encode(sig)));
}

} // verus!

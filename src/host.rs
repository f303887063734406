//! Reading the subdomain label from a request's `Host` header.
use vstd::prelude::*;
use crate::error::ParseError;
use crate::labels::{split_on, lemma_split_at_first, lemma_split_without_sep};

verus! {

/// What the routing logic reads of an incoming HTTP request: the raw bytes of its
/// `Host` header, if it has one.
#[derive(Debug, Clone)]
pub struct IncomingRequest {
    pub host: Option<Vec<u8>>,
}

/// True when every byte may stand in header text: a visible ASCII character, a space,
/// or a tab.
pub open spec fn is_header_text(b: Seq<u8>) -> bool {
    forall|i: int| 0 <= i < b.len() ==> (#[trigger] b[i] == 0x09 || 0x20 <= b[i] < 0x7f)
}

/// The characters that ASCII bytes stand for.
pub open spec fn ascii_chars(b: Seq<u8>) -> Seq<char> {
    Seq::new(b.len(), |i: int| b[i] as char)
}

/// True when every byte is an ASCII character.
pub open spec fn all_ascii(b: Seq<u8>) -> bool {
    forall|i: int| 0 <= i < b.len() ==> #[trigger] b[i] < 0x80
}

/// The leftmost dot-separated label of a host name.
pub open spec fn first_label(host: Seq<char>) -> Seq<char> {
    split_on(host, '.')[0]
}

/// The subdomain that a `Host` header names, given the base-domain label: none when
/// its first label is the base label, else that label.
pub open spec fn subdomain_of(header: Option<Seq<u8>>, base: Seq<char>) -> Result<
    Option<Seq<char>>,
    ParseError,
> {
    match header {
        None => Err(ParseError::MissingHost),
        Some(b) => if !is_header_text(b) {
            Err(ParseError::InvalidHeaderEncoding)
        } else if b.len() == 0 {
            Err(ParseError::EmptyHost)
        } else if first_label(ascii_chars(b)) == base {
            Ok(None)
        } else {
            Ok(Some(first_label(ascii_chars(b))))
        },
    }
}

/// The view of a request's `Host` header.
pub open spec fn host_view(req: &IncomingRequest) -> Option<Seq<u8>> {
    match req.host {
        None => None,
        Some(b) => Some(b@),
    }
}

/// The view of a subdomain decision.
pub open spec fn decision_view(d: Option<String>) -> Option<Seq<char>> {
    match d {
        None => None,
        Some(s) => Some(s@),
    }
}

/// The view of the result of reading a subdomain.
pub open spec fn extracted_view(r: Result<Option<String>, ParseError>) -> Result<
    Option<Seq<char>>,
    ParseError,
> {
    match r {
        Ok(d) => Ok(decision_view(d)),
        Err(e) => Err(e),
    }
}

/// Relies on std::str::from_utf8: ASCII bytes are valid UTF-8, and each encodes the
/// character of the same value.
#[verifier::external_body]
fn ascii_str(b: &[u8]) -> (r: Option<&str>)
    ensures
        all_ascii(b@) ==> r is Some && r->0@ == ascii_chars(b@),
{
    std::str::from_utf8(b).ok()
}

/// True when every byte of `b` may stand in header text.
pub fn check_header_text(b: &[u8]) -> (r: bool)
    ensures
        r == is_header_text(b@),
{
    let mut i: usize = 0;
    while i < b.len()
        invariant
            i <= b@.len(),
            is_header_text(b@.take(i as int)),
        decreases b@.len() - i,
    {
        let c = b[i];
        if !(c == 0x09 || (0x20 <= c && c < 0x7f)) {
            assert(b@.take(i as int + 1)[i as int] == c);
            assert(!is_header_text(b@)) by {
                assert(b@[i as int] == c);
            }
            return false;
        }
        assert forall|j: int| 0 <= j < i + 1 implies (#[trigger] b@.take(i as int + 1)[j] == 0x09
            || 0x20 <= b@.take(i as int + 1)[j] < 0x7f) by {
            if j < i {
                assert(b@.take(i as int + 1)[j] == b@.take(i as int)[j]);
            }
        }
        i = i + 1;
    }
    assert(b@.take(i as int) =~= b@);
    true
}

/// The subdomain named by the request's `Host` header: `None` when its first
/// dot-separated label equals `base_label` exactly, else that label.
pub fn extract_subdomain(req: &IncomingRequest, base_label: &str) -> (r: Result<
    Option<String>,
    ParseError,
>)
    ensures
        extracted_view(r) == subdomain_of(host_view(req), base_label@),
{
    let b: &Vec<u8> = match &req.host {
        None => {
            return Err(ParseError::MissingHost);
        },
        Some(b) => b,
    };
    if !check_header_text(b.as_slice()) {
        return Err(ParseError::InvalidHeaderEncoding);
    }
    if b.len() == 0 {
        return Err(ParseError::EmptyHost);
    }
    let ghost host = ascii_chars(b@);
    let k = crate::labels::find_byte(b.as_slice(), 0, b.len(), 0x2e);
    assert forall|j: int| 0 <= j < k implies host[j] != '.' by {
        assert(b@[j] != 0x2e);
    }
    proof {
        if k < b.len() {
            lemma_split_at_first(host, '.', k as int);
        } else {
            lemma_split_without_sep(host, '.');
            assert(host.take(k as int) =~= host);
        }
    }
    assert(first_label(host) == host.take(k as int));
    let text = match ascii_str(b.as_slice()) {
        Some(s) => s,
        None => {
            return Err(ParseError::InvalidHeaderEncoding);
        },
    };
    proof {
        assert(text.is_ascii());
    }
    let label = text.substring_ascii(0, k).to_owned();
    assert(label@ =~= first_label(host));
    let base = base_label.to_owned();
    if label == base {
        Ok(None)
    } else {
        Ok(Some(label))
    }
}

} // verus!

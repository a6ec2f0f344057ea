//! The answer to a WebTransport CONNECT request
//! (draft-ietf-webtrans-http3-15 Sections 3.2 and 3.3).

use vstd::prelude::*;
use vstd::utf8::encode_utf8;
use crate::qpack::header::{Header, HeaderError, built_from_pairs, pair_views, headers_from_pairs, name_status, lit_status};
use crate::webtransport::connect::request::{
    ConnectRequest, sf_quoted, push_escaped, bytes_wt_protocol, vec_wt_protocol,
};
use crate::webtransport::connect::sf_parser::{parse_sf_item_string, item_string_spec, string_views};

verus! {

/// A response to a WebTransport CONNECT request.
#[derive(Debug, Clone)]
pub struct ConnectResponse {
    /// The HTTP status code.
    pub status: u16,
    /// The protocol chosen for `WT-Protocol`.
    pub selected_protocol: Option<String>,
}

/// The decimal digits of `n`, without leading zeros.
pub open spec fn decimal_digits(n: nat) -> Seq<u8>
    decreases n,
{
    if n < 10 {
        seq![(0x30 + n) as u8]
    } else {
        decimal_digits(n / 10) + seq![(0x30 + n % 10) as u8]
    }
}

/// The header pairs of a response, in order.
pub open spec fn response_pairs(r: ConnectResponse) -> Seq<(Seq<u8>, Seq<u8>)> {
    seq![(name_status(), decimal_digits(r.status as nat))] + match r.selected_protocol {
        Some(p) => seq![(bytes_wt_protocol(), sf_quoted(encode_utf8(p@)))],
        None => seq![],
    }
}

/// The decimal digits of `n`.
fn digits_of(n: u16) -> (r: Vec<u8>)
    ensures
        r@ == decimal_digits(n as nat),
    decreases n,
{
    if n < 10 {
        vec![(0x30 + n) as u8]
    } else {
        let mut v = digits_of(n / 10);
        v.push((0x30 + n % 10) as u8);
        v
    }
}

impl ConnectResponse {
    /// A response with status `status` and no protocol chosen.
    pub fn new(status: u16) -> (r: ConnectResponse)
        ensures
            r.status == status,
            r.selected_protocol is None,
    {
        ConnectResponse { status, selected_protocol: None }
    }

    /// The same response choosing `protocol`.
    pub fn with_protocol(self, protocol: &str) -> (r: ConnectResponse)
        ensures
            r.status == self.status,
            r.selected_protocol matches Some(p) && p@ == protocol@,
    {
        ConnectResponse { selected_protocol: Some(protocol.to_owned()), ..self }
    }

    /// The header fields of this response, each checked by
    /// [`Header::new`]; the error of the first field that fails otherwise.
    pub fn to_headers(&self) -> (r: Result<Vec<Header>, HeaderError>)
        ensures
            built_from_pairs(response_pairs(*self), r),
    {
        let mut pairs: Vec<(Vec<u8>, Vec<u8>)> = Vec::new();
        pairs.push((lit_status(), digits_of(self.status)));
        match &self.selected_protocol {
            Some(p) => {
                let mut v: Vec<u8> = Vec::new();
                v.push(0x22);
                push_escaped(&mut v, p.as_str().as_bytes());
                v.push(0x22);
                assert(v@ =~= sf_quoted(encode_utf8(p@)));
                pairs.push((vec_wt_protocol(), v));
            },
            None => {},
        }
        assert(pair_views(pairs@) =~= response_pairs(*self));
        headers_from_pairs(pairs.as_slice())
    }

    /// Whether the session was established: a 2xx status.
    pub fn is_success(&self) -> (r: bool)
        ensures
            r == (200 <= self.status < 300),
    {
        let s = self.status;
        assert((s / 100 == 2) == (200 <= s < 300)) by (nonlinear_arith);
        s / 100 == 2
    }

    /// Whether `WT-Protocol` fits the request's `WT-Available-Protocols`:
    /// absent when none was offered, else one of those offered
    /// (draft-15 Section 3.3).
    pub fn is_protocol_valid(&self, request: &ConnectRequest) -> (r: bool)
        ensures
            r == match self.selected_protocol {
                None => request.available_protocols@.len() == 0,
                Some(p) => request.available_protocols@.len() > 0 && string_views(
                    request.available_protocols@,
                ).contains(p@),
            },
    {
        match &self.selected_protocol {
            None => request.available_protocols.len() == 0,
            Some(proto) => {
                if request.available_protocols.len() == 0 {
                    return false;
                }
                let ghost v = string_views(request.available_protocols@);
                let mut i: usize = 0;
                while i < request.available_protocols.len()
                    invariant
                        i <= request.available_protocols@.len(),
                        v == string_views(request.available_protocols@),
                        self.selected_protocol matches Some(sp) && sp@ == proto@,
                        request.available_protocols@.len() > 0,
                        forall|k: int| 0 <= k < i ==> v[k] != proto@,
                    decreases request.available_protocols.len() - i,
                {
                    if request.available_protocols[i] == *proto {
                        assert(v[i as int] == proto@);
                        return true;
                    }
                    i = i + 1;
                }
                false
            },
        }
    }

    /// The protocol of a `WT-Protocol` value: a Structured Fields string,
    /// parameters ignored; `None` for anything else (draft-15 Section 3.3).
    pub fn parse_protocol(header_value: &str) -> (r: Option<String>)
        ensures
            match item_string_spec(header_value@) {
                Some(x) => r matches Some(s) && s@ == x,
                None => r is None,
            },
    {
        parse_sf_item_string(header_value)
    }
}

} // verus!

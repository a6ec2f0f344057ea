//! The extended CONNECT request that opens a WebTransport session
//! (draft-ietf-webtrans-http3-15 Sections 3.2 and 3.3).

use vstd::prelude::*;
use vstd::utf8::{valid_utf8, decode_utf8, encode_utf8};
use vstd::string::StringSliceAdditionalSpecFns;
use crate::qpack::header::{
    Header, HeaderError, built_from_pairs, pair_views, headers_from_pairs, bytes_eq, name_method,
    name_scheme, name_authority, name_path, name_protocol, lit_method, lit_scheme, lit_authority,
    lit_path, lit_protocol,
};
use crate::validation::{word_connect, lit_connect, word_https, lit_https};
use crate::text::{str_from_utf8, chars_of};
use crate::webtransport::connect::connect_error::ConnectError;
use crate::webtransport::connect::draft::{DraftVersion, protocol_value_spec};
use crate::webtransport::connect::sf_parser::{
    parse_sf_list_strings, list_strings_spec, string_views,
};

verus! {

/// The bytes `origin`.
pub open spec fn bytes_origin() -> Seq<u8> {
    seq![111u8, 114u8, 105u8, 103u8, 105u8, 110u8]
}

/// The bytes `origin`, as a vector.
pub fn vec_origin() -> (r: Vec<u8>)
    ensures
        r@ == bytes_origin(),
{
    vec![111u8, 114u8, 105u8, 103u8, 105u8, 110u8]
}

/// The bytes `wt-available-protocols`.
pub open spec fn bytes_wt_available_protocols() -> Seq<u8> {
    seq![119u8, 116u8, 45u8, 97u8, 118u8, 97u8, 105u8, 108u8, 97u8, 98u8, 108u8, 101u8, 45u8, 112u8, 114u8, 111u8, 116u8, 111u8, 99u8, 111u8, 108u8, 115u8]
}

/// The bytes `wt-available-protocols`, as a vector.
pub fn vec_wt_available_protocols() -> (r: Vec<u8>)
    ensures
        r@ == bytes_wt_available_protocols(),
{
    vec![119u8, 116u8, 45u8, 97u8, 118u8, 97u8, 105u8, 108u8, 97u8, 98u8, 108u8, 101u8, 45u8, 112u8, 114u8, 111u8, 116u8, 111u8, 99u8, 111u8, 108u8, 115u8]
}

/// The bytes `webtransport-h3`.
pub open spec fn bytes_h3() -> Seq<u8> {
    seq![119u8, 101u8, 98u8, 116u8, 114u8, 97u8, 110u8, 115u8, 112u8, 111u8, 114u8, 116u8, 45u8, 104u8, 51u8]
}

/// The bytes `webtransport-h3`, as a vector.
pub fn vec_h3() -> (r: Vec<u8>)
    ensures
        r@ == bytes_h3(),
{
    vec![119u8, 101u8, 98u8, 116u8, 114u8, 97u8, 110u8, 115u8, 112u8, 111u8, 114u8, 116u8, 45u8, 104u8, 51u8]
}

/// The bytes `webtransport`.
pub open spec fn bytes_draft02() -> Seq<u8> {
    seq![119u8, 101u8, 98u8, 116u8, 114u8, 97u8, 110u8, 115u8, 112u8, 111u8, 114u8, 116u8]
}

/// The bytes `webtransport`, as a vector.
pub fn vec_draft02() -> (r: Vec<u8>)
    ensures
        r@ == bytes_draft02(),
{
    vec![119u8, 101u8, 98u8, 116u8, 114u8, 97u8, 110u8, 115u8, 112u8, 111u8, 114u8, 116u8]
}

/// The bytes `wt-protocol`.
pub open spec fn bytes_wt_protocol() -> Seq<u8> {
    seq![119u8, 116u8, 45u8, 112u8, 114u8, 111u8, 116u8, 111u8, 99u8, 111u8, 108u8]
}

/// The bytes `wt-protocol`, as a vector.
pub fn vec_wt_protocol() -> (r: Vec<u8>)
    ensures
        r@ == bytes_wt_protocol(),
{
    vec![119u8, 116u8, 45u8, 112u8, 114u8, 111u8, 116u8, 111u8, 99u8, 111u8, 108u8]
}


/// A CONNECT request for a WebTransport session.
#[derive(Debug, Clone)]
pub struct ConnectRequest {
    /// The draft the request follows (draft 15 unless set).
    pub draft_version: DraftVersion,
    /// `:scheme`; must be `https`.
    pub scheme: String,
    /// `:authority`; must be present.
    pub authority: String,
    /// `:path`; must be present.
    pub path: String,
    /// The `Origin` header (required of browsers).
    pub origin: Option<String>,
    /// The protocols of `WT-Available-Protocols`, in order of preference;
    /// empty when the client does not negotiate.
    pub available_protocols: Vec<String>,
}

/// Header pairs by view.
pub open spec fn header_pairs_view(hs: Seq<(&[u8], &[u8])>) -> Seq<(Seq<u8>, Seq<u8>)> {
    hs.map_values(|p: (&[u8], &[u8])| (p.0@, p.1@))
}

/// A name that starts with `:`.
pub open spec fn pair_is_pseudo(n: Seq<u8>) -> bool {
    n.len() > 0 && n[0] == 0x3a
}

/// The value of the last of the first `n` pairs named `name`.
pub open spec fn pair_value_of(hs: Seq<(Seq<u8>, Seq<u8>)>, n: int, name: Seq<u8>) -> Option<
    Seq<u8>,
>
    decreases n,
{
    if n <= 0 {
        None
    } else if hs[n - 1].0 == name {
        Some(hs[n - 1].1)
    } else {
        pair_value_of(hs, n - 1, name)
    }
}

/// A name whose value the request keeps as text.
pub open spec fn is_text_name(n: Seq<u8>) -> bool {
    n == name_scheme() || n == name_authority() || n == name_path() || n == bytes_origin() || n
        == bytes_wt_available_protocols()
}

/// A pseudo-header the request reads, which may appear once.
pub open spec fn is_single_pseudo(n: Seq<u8>) -> bool {
    n == name_method() || n == name_protocol() || n == name_scheme() || n == name_authority() || n
        == name_path()
}

/// The rules every pair meets among the first `n`: pseudo-headers first,
/// the pseudo-headers read at most once each, the text values UTF-8.
pub open spec fn pairs_well_formed(hs: Seq<(Seq<u8>, Seq<u8>)>, n: int) -> bool {
    &&& forall|a: int, b: int|
        #![trigger hs[a], hs[b]]
        0 <= a < b < n && !pair_is_pseudo(hs[a].0) ==> !pair_is_pseudo(hs[b].0)
    &&& forall|a: int, b: int|
        #![trigger hs[a], hs[b]]
        0 <= a < b < n && is_single_pseudo(hs[a].0) ==> hs[a].0 != hs[b].0
    &&& forall|a: int| 0 <= a < n && is_text_name(hs[a].0) ==> valid_utf8((#[trigger] hs[a]).1)
}

/// The draft a request's headers select, or the error it is refused with.
pub open spec fn request_draft_spec(hs: Seq<(Seq<u8>, Seq<u8>)>) -> Result<DraftVersion, ConnectError> {
    let n = hs.len() as int;
    if !pairs_well_formed(hs, n) {
        Err(ConnectError::InvalidEncoding)
    } else if pair_value_of(hs, n, name_method()) != Some(word_connect()) {
        Err(ConnectError::InvalidMethod)
    } else {
        match pair_value_of(hs, n, name_protocol()) {
            None => Err(ConnectError::InvalidProtocol),
            Some(p) => if !valid_utf8(p) {
                Err(ConnectError::InvalidEncoding)
            } else if p == bytes_h3() {
                Ok(DraftVersion::Draft15)
            } else if p == bytes_draft02() {
                Ok(DraftVersion::Draft02)
            } else {
                Err(ConnectError::InvalidProtocol)
            },
        }
    }
}

/// The text of an optional UTF-8 value; empty when absent.
pub open spec fn text_or_empty(o: Option<Seq<u8>>) -> Seq<char> {
    match o {
        Some(b) => decode_utf8(b),
        None => seq![],
    }
}

/// The escaping of a string inside a quoted Structured Fields string:
/// `\` and `"` get a backslash.
pub open spec fn sf_escape(b: Seq<u8>) -> Seq<u8>
    decreases b.len(),
{
    if b.len() == 0 {
        b
    } else {
        sf_escape(b.drop_last()) + if b.last() == 0x5c || b.last() == 0x22 {
            seq![0x5cu8, b.last()]
        } else {
            seq![b.last()]
        }
    }
}

/// A quoted Structured Fields string holding `b`.
pub open spec fn sf_quoted(b: Seq<u8>) -> Seq<u8> {
    seq![0x22u8] + sf_escape(b) + seq![0x22u8]
}

/// The quoted strings of `ps`, joined by `, `.
pub open spec fn sf_join(ps: Seq<Seq<char>>) -> Seq<u8>
    decreases ps.len(),
{
    if ps.len() == 0 {
        seq![]
    } else if ps.len() == 1 {
        sf_quoted(encode_utf8(ps[0]))
    } else {
        sf_join(ps.drop_last()) + seq![0x2cu8, 0x20u8] + sf_quoted(encode_utf8(ps.last()))
    }
}

/// The header pairs of a request, in order.
pub open spec fn request_pairs(r: ConnectRequest) -> Seq<(Seq<u8>, Seq<u8>)> {
    seq![
        (name_method(), word_connect()),
        (name_protocol(), encode_utf8(protocol_value_spec(r.draft_version))),
        (name_scheme(), encode_utf8(r.scheme@)),
        (name_authority(), encode_utf8(r.authority@)),
        (name_path(), encode_utf8(r.path@)),
    ] + match r.origin {
        Some(o) => seq![(bytes_origin(), encode_utf8(o@))],
        None => seq![],
    } + if r.available_protocols@.len() > 0 {
        seq![(bytes_wt_available_protocols(), sf_join(string_views(r.available_protocols@)))]
    } else {
        seq![]
    }
}

/// Appends the escaping of `b` to `out`.
pub(crate) fn push_escaped(out: &mut Vec<u8>, b: &[u8])
    ensures
        final(out)@ == old(out)@ + sf_escape(b@),
{
    let mut i: usize = 0;
    while i < b.len()
        invariant
            i <= b@.len(),
            out@ == old(out)@ + sf_escape(b@.take(i as int)),
        decreases b.len() - i,
    {
        let c = b[i];
        assert(b@.take(i + 1).drop_last() =~= b@.take(i as int));
        if c == 0x5c || c == 0x22 {
            out.push(0x5c);
        }
        out.push(c);
        assert(out@ =~= old(out)@ + sf_escape(b@.take(i + 1)));
        i = i + 1;
    }
    assert(b@.take(i as int) =~= b@);
}

/// The `WT-Available-Protocols` value of `ps`.
fn join_protocols(ps: &[String]) -> (r: Vec<u8>)
    ensures
        r@ == sf_join(string_views(ps@)),
{
    let ghost v = string_views(ps@);
    let mut out: Vec<u8> = Vec::new();
    let mut i: usize = 0;
    while i < ps.len()
        invariant
            i <= ps@.len(),
            v == string_views(ps@),
            out@ == sf_join(v.take(i as int)),
        decreases ps.len() - i,
    {
        if i > 0 {
            out.push(0x2c);
            out.push(0x20);
        }
        out.push(0x22);
        push_escaped(&mut out, ps[i].as_str().as_bytes());
        out.push(0x22);
        proof {
            let t = v.take(i + 1);
            assert(t.drop_last() =~= v.take(i as int));
            assert(t.last() == ps@[i as int]@);
        }
        assert(out@ =~= sf_join(v.take(i + 1)));
        i = i + 1;
    }
    assert(v.take(i as int) =~= v);
    out
}

/// The text of UTF-8 bytes known valid.
fn text_of(b: &[u8]) -> (r: Option<String>)
    ensures
        r is Some <==> valid_utf8(b@),
        r matches Some(s) ==> s@ == decode_utf8(b@),
{
    match str_from_utf8(b) {
        Some(s) => {
            proof {
                vstd::utf8::decode_utf8_encode_utf8(b@);
                vstd::utf8::encode_utf8_decode_utf8(s@);
            }
            Some(s.to_owned())
        },
        None => None,
    }
}

impl ConnectRequest {
    /// A draft-15 request for `scheme`, `authority` and `path`, without
    /// `Origin` or protocol negotiation.
    pub fn new(scheme: &str, authority: &str, path: &str) -> (r: ConnectRequest)
        ensures
            r.draft_version == DraftVersion::Draft15,
            r.scheme@ == scheme@,
            r.authority@ == authority@,
            r.path@ == path@,
            r.origin is None,
            r.available_protocols@.len() == 0,
    {
        ConnectRequest {
            draft_version: DraftVersion::Draft15,
            scheme: scheme.to_owned(),
            authority: authority.to_owned(),
            path: path.to_owned(),
            origin: None,
            available_protocols: Vec::new(),
        }
    }

    /// The same request following draft `version`.
    pub fn draft_version(self, version: DraftVersion) -> (r: ConnectRequest)
        ensures
            r.draft_version == version,
            r.scheme == self.scheme,
            r.authority == self.authority,
            r.path == self.path,
            r.origin == self.origin,
            r.available_protocols == self.available_protocols,
    {
        ConnectRequest { draft_version: version, ..self }
    }

    /// The same request with `Origin` set.
    pub fn origin(self, origin: &str) -> (r: ConnectRequest)
        ensures
            r.draft_version == self.draft_version,
            r.scheme == self.scheme,
            r.authority == self.authority,
            r.path == self.path,
            r.origin matches Some(o) && o@ == origin@,
            r.available_protocols == self.available_protocols,
    {
        ConnectRequest { origin: Some(origin.to_owned()), ..self }
    }

    /// The same request offering `protocols`.
    pub fn available_protocols(self, protocols: Vec<String>) -> (r: ConnectRequest)
        ensures
            r.draft_version == self.draft_version,
            r.scheme == self.scheme,
            r.authority == self.authority,
            r.path == self.path,
            r.origin == self.origin,
            r.available_protocols == protocols,
    {
        ConnectRequest { available_protocols: protocols, ..self }
    }

    /// Reads a CONNECT request from its header pairs. Only parses; the
    /// draft-15 checks are [`ConnectRequest::validate`].
    ///
    /// Pseudo-headers after regular fields, a repeated pseudo-header and
    /// text that is not UTF-8 give `InvalidEncoding`; a method other than
    /// CONNECT `InvalidMethod`; a `:protocol` other than `webtransport-h3`
    /// (draft 15) or `webtransport` (read as draft 02) `InvalidProtocol`.
    pub fn from_headers(headers: &[(&[u8], &[u8])]) -> (r: Result<ConnectRequest, ConnectError>)
        ensures
            ({
                let hs = header_pairs_view(headers@);
                let n = hs.len() as int;
                match request_draft_spec(hs) {
                    Err(e) => r == Err::<ConnectRequest, ConnectError>(e),
                    Ok(d) => r matches Ok(req) && req.draft_version == d && req.scheme@
                        == text_or_empty(pair_value_of(hs, n, name_scheme())) && req.authority@
                        == text_or_empty(pair_value_of(hs, n, name_authority())) && req.path@
                        == text_or_empty(pair_value_of(hs, n, name_path())) && (match pair_value_of(
                        hs,
                        n,
                        bytes_origin(),
                    ) {
                        Some(o) => req.origin matches Some(s) && s@ == decode_utf8(o),
                        None => req.origin is None,
                    }) && string_views(req.available_protocols@) == match pair_value_of(
                        hs,
                        n,
                        bytes_wt_available_protocols(),
                    ) {
                        Some(w) => list_strings_spec(decode_utf8(w), w.len()),
                        None => seq![],
                    },
                }
            }),
    {
        let ghost hs = header_pairs_view(headers@);
        let mut method: Option<&[u8]> = None;
        let mut protocol: Option<&[u8]> = None;
        let mut scheme: Option<String> = None;
        let mut authority: Option<String> = None;
        let mut path: Option<String> = None;
        let mut origin: Option<String> = None;
        let mut wt_ap: Option<&[u8]> = None;
        let mut seen_regular = false;
        let mut i: usize = 0;
        while i < headers.len()
            invariant
                i <= headers@.len(),
                hs == header_pairs_view(headers@),
                hs.len() == headers@.len(),
                pairs_well_formed(hs, i as int),
                seen_regular == exists|k: int| 0 <= k < i && !pair_is_pseudo(#[trigger] hs[k].0),
                match method {
                    Some(m) => pair_value_of(hs, i as int, name_method()) == Some(m@),
                    None => pair_value_of(hs, i as int, name_method()) is None,
                },
                match protocol {
                    Some(m) => pair_value_of(hs, i as int, name_protocol()) == Some(m@),
                    None => pair_value_of(hs, i as int, name_protocol()) is None,
                },
                match wt_ap {
                    Some(m) => pair_value_of(hs, i as int, bytes_wt_available_protocols()) == Some(
                        m@,
                    ),
                    None => pair_value_of(hs, i as int, bytes_wt_available_protocols()) is None,
                },
                match scheme {
                    Some(s) => pair_value_of(hs, i as int, name_scheme()) matches Some(b) && s@
                        == decode_utf8(b),
                    None => pair_value_of(hs, i as int, name_scheme()) is None,
                },
                match authority {
                    Some(s) => pair_value_of(hs, i as int, name_authority()) matches Some(b) && s@
                        == decode_utf8(b),
                    None => pair_value_of(hs, i as int, name_authority()) is None,
                },
                match path {
                    Some(s) => pair_value_of(hs, i as int, name_path()) matches Some(b) && s@
                        == decode_utf8(b),
                    None => pair_value_of(hs, i as int, name_path()) is None,
                },
                match origin {
                    Some(s) => pair_value_of(hs, i as int, bytes_origin()) matches Some(b) && s@
                        == decode_utf8(b),
                    None => pair_value_of(hs, i as int, bytes_origin()) is None,
                },
            decreases headers.len() - i,
        {
            let (name, value) = headers[i];
            let ghost ii = i as int;
            assert(hs[ii] == (name@, value@));
            proof {
                lemma_pair_value_of(hs, ii, name_method());
                lemma_pair_value_of(hs, ii, name_protocol());
                lemma_pair_value_of(hs, ii, name_scheme());
                lemma_pair_value_of(hs, ii, name_authority());
                lemma_pair_value_of(hs, ii, name_path());
            }
            let is_pseudo = name.len() > 0 && name[0] == 0x3a;
            if is_pseudo && seen_regular {
                let ghost k = choose|k: int| 0 <= k < i && !pair_is_pseudo(#[trigger] hs[k].0);
                assert(!pairs_well_formed(hs, hs.len() as int)) by {
                    assert(hs[k] == hs[k] && hs[ii] == hs[ii]);
                }
                return Err(ConnectError::InvalidEncoding);
            }
            if !is_pseudo {
                seen_regular = true;
            }
            if bytes_eq(name, lit_method().as_slice()) {
                if method.is_some() {
                    let ghost k = choose|k: int| 0 <= k < ii && #[trigger] hs[k].0 == name_method();
                    assert(!pairs_well_formed(hs, hs.len() as int)) by {
                        assert(hs[k] == hs[k] && hs[ii] == hs[ii]);
                    }
                    return Err(ConnectError::InvalidEncoding);
                }
                method = Some(value);
            } else if bytes_eq(name, lit_protocol().as_slice()) {
                if protocol.is_some() {
                    let ghost k = choose|k: int| 0 <= k < ii && #[trigger] hs[k].0 == name_protocol();
                    assert(!pairs_well_formed(hs, hs.len() as int)) by {
                        assert(hs[k] == hs[k] && hs[ii] == hs[ii]);
                    }
                    return Err(ConnectError::InvalidEncoding);
                }
                protocol = Some(value);
            } else if bytes_eq(name, lit_scheme().as_slice()) {
                if scheme.is_some() {
                    let ghost k = choose|k: int| 0 <= k < ii && #[trigger] hs[k].0 == name_scheme();
                    assert(!pairs_well_formed(hs, hs.len() as int)) by {
                        assert(hs[k] == hs[k] && hs[ii] == hs[ii]);
                    }
                    return Err(ConnectError::InvalidEncoding);
                }
                match text_of(value) {
                    Some(s) => {
                        scheme = Some(s);
                    },
                    None => {
                        return Err(ConnectError::InvalidEncoding);
                    },
                }
            } else if bytes_eq(name, lit_authority().as_slice()) {
                if authority.is_some() {
                    let ghost k = choose|k: int|
                        0 <= k < ii && #[trigger] hs[k].0 == name_authority();
                    assert(!pairs_well_formed(hs, hs.len() as int)) by {
                        assert(hs[k] == hs[k] && hs[ii] == hs[ii]);
                    }
                    return Err(ConnectError::InvalidEncoding);
                }
                match text_of(value) {
                    Some(s) => {
                        authority = Some(s);
                    },
                    None => {
                        return Err(ConnectError::InvalidEncoding);
                    },
                }
            } else if bytes_eq(name, lit_path().as_slice()) {
                if path.is_some() {
                    let ghost k = choose|k: int| 0 <= k < ii && #[trigger] hs[k].0 == name_path();
                    assert(!pairs_well_formed(hs, hs.len() as int)) by {
                        assert(hs[k] == hs[k] && hs[ii] == hs[ii]);
                    }
                    return Err(ConnectError::InvalidEncoding);
                }
                match text_of(value) {
                    Some(s) => {
                        path = Some(s);
                    },
                    None => {
                        return Err(ConnectError::InvalidEncoding);
                    },
                }
            } else if bytes_eq(name, vec_origin().as_slice()) {
                match text_of(value) {
                    Some(s) => {
                        origin = Some(s);
                    },
                    None => {
                        return Err(ConnectError::InvalidEncoding);
                    },
                }
            } else if bytes_eq(name, vec_wt_available_protocols().as_slice()) {
                if str_from_utf8(value).is_none() {
                    return Err(ConnectError::InvalidEncoding);
                }
                wt_ap = Some(value);
            }
            i = i + 1;
        }
        let m = match method {
            Some(m) => m,
            None => {
                return Err(ConnectError::InvalidMethod);
            },
        };
        if !bytes_eq(m, lit_connect().as_slice()) {
            return Err(ConnectError::InvalidMethod);
        }
        let p = match protocol {
            Some(p) => p,
            None => {
                return Err(ConnectError::InvalidProtocol);
            },
        };
        if str_from_utf8(p).is_none() {
            return Err(ConnectError::InvalidEncoding);
        }
        let draft_version = if bytes_eq(p, vec_h3().as_slice()) {
            DraftVersion::Draft15
        } else if bytes_eq(p, vec_draft02().as_slice()) {
            DraftVersion::Draft02
        } else {
            return Err(ConnectError::InvalidProtocol);
        };
        proof {
            lemma_pair_value_of(hs, hs.len() as int, bytes_wt_available_protocols());
        }
        let available_protocols = match wt_ap {
            Some(w) => match str_from_utf8(w) {
                Some(ws) => {
                    proof {
                        vstd::utf8::decode_utf8_encode_utf8(w@);
                        vstd::utf8::encode_utf8_decode_utf8(ws@);
                    }
                    let wl = w.len();
                    assert(ws.len() == wl);
                    let r = ConnectRequest::parse_available_protocols(ws);
                    assert(string_views(r@) == list_strings_spec(decode_utf8(w@), w@.len()));
                    r
                },
                None => Vec::new(),
            },
            None => Vec::new(),
        };
        proof {
            assert(string_views(Seq::<String>::empty()) =~= Seq::<Seq<char>>::empty());
        }
        let ghost n = hs.len() as int;
        assert(request_draft_spec(hs) == Ok::<DraftVersion, ConnectError>(draft_version));
        assert(string_views(available_protocols@) == match pair_value_of(
            hs,
            n,
            bytes_wt_available_protocols(),
        ) {
            Some(w) => list_strings_spec(decode_utf8(w), w.len()),
            None => seq![],
        });
        Ok(
            ConnectRequest {
                draft_version,
                scheme: match scheme {
                    Some(s) => s,
                    None => String::new(),
                },
                authority: match authority {
                    Some(s) => s,
                    None => String::new(),
                },
                path: match path {
                    Some(s) => s,
                    None => String::new(),
                },
                origin,
                available_protocols,
            },
        )
    }

    /// The header fields of this request, each checked by [`Header::new`];
    /// the error of the first field that fails otherwise.
    pub fn to_headers(&self) -> (r: Result<Vec<Header>, HeaderError>)
        ensures
            built_from_pairs(request_pairs(*self), r),
    {
        let mut pairs: Vec<(Vec<u8>, Vec<u8>)> = Vec::new();
        pairs.push((lit_method(), lit_connect()));
        pairs.push(
            (lit_protocol(), vstd::slice::slice_to_vec(self.draft_version.protocol_value().as_bytes())),
        );
        pairs.push((lit_scheme(), vstd::slice::slice_to_vec(self.scheme.as_str().as_bytes())));
        pairs.push((lit_authority(), vstd::slice::slice_to_vec(self.authority.as_str().as_bytes())));
        pairs.push((lit_path(), vstd::slice::slice_to_vec(self.path.as_str().as_bytes())));
        match &self.origin {
            Some(o) => {
                pairs.push((vec_origin(), vstd::slice::slice_to_vec(o.as_str().as_bytes())));
            },
            None => {},
        }
        if self.available_protocols.len() > 0 {
            pairs.push((vec_wt_available_protocols(), join_protocols(self.available_protocols.as_slice())));
        }
        assert(pair_views(pairs@) =~= request_pairs(*self));
        headers_from_pairs(pairs.as_slice())
    }

    /// Checks the request against draft-15 Section 3.2: `:scheme` is
    /// `https`, `:authority` and `:path` are not empty.
    pub fn validate(&self) -> (r: Result<(), ConnectError>)
        ensures
            r == if encode_utf8(self.scheme@) != word_https() {
                Err::<(), ConnectError>(ConnectError::InvalidScheme)
            } else if self.authority@.len() == 0 {
                Err(ConnectError::MissingAuthority)
            } else if self.path@.len() == 0 {
                Err(ConnectError::MissingPath)
            } else {
                Ok(())
            },
    {
        if !bytes_eq(self.scheme.as_str().as_bytes(), lit_https().as_slice()) {
            return Err(ConnectError::InvalidScheme);
        }
        if self.authority.as_str().is_empty() {
            return Err(ConnectError::MissingAuthority);
        }
        if self.path.as_str().is_empty() {
            return Err(ConnectError::MissingPath);
        }
        Ok(())
    }

    /// The protocols of a `WT-Available-Protocols` value: the strings of a
    /// Structured Fields list, parameters ignored; none when a member is not
    /// a string (draft-15 Section 3.3).
    pub fn parse_available_protocols(header_value: &str) -> (r: Vec<String>)
        ensures
            string_views(r@) == list_strings_spec(header_value@, header_value.len() as nat),
    {
        parse_sf_list_strings(header_value)
    }
}

/// The last value of a name, when there is one, belongs to such a pair.
pub proof fn lemma_pair_value_of(hs: Seq<(Seq<u8>, Seq<u8>)>, n: int, name: Seq<u8>)
    requires
        0 <= n <= hs.len(),
    ensures
        pair_value_of(hs, n, name) matches Some(v) ==> exists|k: int|
            0 <= k < n && #[trigger] hs[k].0 == name && hs[k].1 == v,
        pair_value_of(hs, n, name) is None ==> forall|k: int| 0 <= k < n ==> #[trigger] hs[k].0 != name,
    decreases n,
{
    if n > 0 {
        lemma_pair_value_of(hs, n - 1, name);
    }
}

} // verus!

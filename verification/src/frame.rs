//! HTTP/3 frames (RFC 9114 Section 7): the frame header, the frames this
//! crate reads, and the payload of a SETTINGS frame.

use vstd::prelude::*;
use crate::error::ErrorCode;
use crate::settings::{Setting, SettingError, setting_from_wire_spec, setting_wire_spec};
use crate::varint::{VarInt, decode as varint_decode, varint_decoding, varint_encoding, VARINT_MAX_VALUE, lemma_varint_roundtrip};

verus! {

/// The parameters of one SETTINGS frame, no identifier twice.
#[derive(Debug)]
pub struct SettingsPayload {
    settings: Vec<Setting>,
}

/// No two settings of `s` share an identifier.
pub open spec fn ids_distinct(s: Seq<Setting>) -> bool {
    forall|i: int, j: int|
        0 <= i < j < s.len() ==> setting_wire_spec(#[trigger] s[i]).0 != setting_wire_spec(
            #[trigger] s[j],
        ).0
}

impl View for SettingsPayload {
    type V = Seq<Setting>;

    closed spec fn view(&self) -> Seq<Setting> {
        self.settings@
    }
}

impl SettingsPayload {
    #[verifier::type_invariant]
    spec fn inv(self) -> bool {
        ids_distinct(self.settings@)
    }

    /// An empty payload.
    pub fn new() -> (r: SettingsPayload)
        ensures
            r@ == Seq::<Setting>::empty(),
    {
        SettingsPayload { settings: Vec::new() }
    }

    /// Adds a parameter; refuses one whose identifier is already present
    /// (RFC 9114 Section 7.2.4).
    pub fn add(&mut self, setting: Setting) -> (r: Result<(), SettingError>)
        ensures
            ids_distinct(final(self)@),
            (exists|i: int|
                0 <= i < old(self)@.len() && setting_wire_spec(#[trigger] old(self)@[i]).0
                    == setting_wire_spec(setting).0) ==> (r matches Err(SettingError::DuplicateId {
                id,
            }) && id@ == setting_wire_spec(setting).0 && final(self)@ == old(self)@),
            (forall|i: int|
                0 <= i < old(self)@.len() ==> setting_wire_spec(#[trigger] old(self)@[i]).0
                    != setting_wire_spec(setting).0) ==> (r is Ok && final(self)@ == old(
                self,
            )@.push(setting)),
    {
        proof {
            use_type_invariant(&*self);
        }
        let id = setting.id();
        let ghost s0 = old(self)@;
        let mut i: usize = 0;
        while i < self.settings.len()
            invariant
                i <= self.settings@.len(),
                self.settings@ == s0,
                s0 == old(self)@,
                id@ == setting_wire_spec(setting).0,
                ids_distinct(self.settings@),
                forall|k: int|
                    0 <= k < i ==> setting_wire_spec(#[trigger] self.settings@[k]).0 != id@,
            decreases self.settings.len() - i,
        {
            let si = self.settings[i];
            let sid = si.id();
            if sid.get() == id.get() {
                assert(si == s0[i as int]);
                return Err(SettingError::DuplicateId { id });
            }
            i = i + 1;
        }
        let mut settings = Vec::new();
        std::mem::swap(&mut settings, &mut self.settings);
        settings.push(setting);
        self.settings = settings;
        Ok(())
    }

    /// The parameters, in the order they were added.
    pub fn settings(&self) -> (r: &[Setting])
        ensures
            r@ == self@,
            ids_distinct(self@),
    {
        proof {
            use_type_invariant(self);
        }
        self.settings.as_slice()
    }
}

/// The header of the frame at the front of `buf` (RFC 9114 Section 7.1):
/// its type, the length of the header itself and the payload length;
/// `None` while either varint is incomplete.
pub open spec fn frame_head(buf: Seq<u8>) -> Option<(u64, nat, u64)> {
    match varint_decoding(buf) {
        None => None,
        Some((t, n)) => match varint_decoding(buf.skip(n as int)) {
            None => None,
            Some((l, m)) => Some((t, n + m, l)),
        },
    }
}

/// The frame types HTTP/2 defines and HTTP/3 reserves (RFC 9114 Section 7.2.8).
pub open spec fn is_http2_frame_type(t: u64) -> bool {
    t == 0x02 || t == 0x06 || t == 0x08 || t == 0x09
}

/// A frame of type `t` carrying `payload`.
pub open spec fn frame_encoding(t: u64, payload: Seq<u8>) -> Seq<u8> {
    varint_encoding(t) + varint_encoding(payload.len() as u64) + payload
}

/// The header of the frame at the front of `data`, as [`frame_head`] says.
pub(crate) fn read_frame_head(data: &[u8]) -> (r: Option<(u64, usize, u64)>)
    ensures
        match frame_head(data@) {
            None => r is None,
            Some((t, h, l)) => r == Some((t, h as usize, l)),
        },
{
    match varint_decode(data) {
        Err(_) => None,
        Ok((t, n)) => {
            let rest = &data[n..data.len()];
            assert(rest@ =~= data@.skip(n as int));
            match varint_decode(rest) {
                Err(_) => None,
                Ok((l, m)) => Some((t.get(), n + m, l.get())),
            }
        },
    }
}

/// The header of a frame written by [`frame_encoding`] reads back as its
/// type, the length of the two varints and the payload length, whatever
/// follows the frame.
pub proof fn lemma_frame_head_roundtrip(t: u64, payload: Seq<u8>, rest: Seq<u8>)
    requires
        t <= VARINT_MAX_VALUE,
        payload.len() <= VARINT_MAX_VALUE,
    ensures
        frame_head(frame_encoding(t, payload) + rest) == Some((
            t,
            varint_encoding(t).len() + varint_encoding(payload.len() as u64).len(),
            payload.len() as u64,
        )),
        frame_encoding(t, payload).len() == varint_encoding(t).len() + varint_encoding(payload.len() as u64).len()
            + payload.len(),
{
    let et = varint_encoding(t);
    let el = varint_encoding(payload.len() as u64);
    let all = frame_encoding(t, payload) + rest;
    lemma_varint_roundtrip(t, el + payload + rest);
    assert(all =~= et + (el + payload + rest));
    lemma_varint_roundtrip(payload.len() as u64, payload + rest);
    assert(all.skip(et.len() as int) =~= el + (payload + rest));
}

/// Whether a parameter in `acc` has the identifier `id`.
pub open spec fn has_id(acc: Seq<Setting>, id: u64) -> bool {
    exists|i: int| 0 <= i < acc.len() && setting_wire_spec(#[trigger] acc[i]).0 == id
}

/// The parameters of a SETTINGS payload `p`, after those in `acc`: pairs
/// of identifier and value (RFC 9114 Section 7.2.4). A pair cut short is
/// `FrameError`; a refused parameter or an identifier seen before is
/// `SettingsError`.
pub open spec fn settings_decoding(p: Seq<u8>, acc: Seq<Setting>) -> Result<Seq<Setting>, ErrorCode>
    decreases p.len(),
{
    if p.len() == 0 {
        Ok(acc)
    } else {
        match varint_decoding(p) {
            None => Err(ErrorCode::FrameError),
            Some((id, n)) => match varint_decoding(p.skip(n as int)) {
                None => Err(ErrorCode::FrameError),
                Some((value, m)) => match setting_from_wire_spec(VarInt::spec_new(id), VarInt::spec_new(value)) {
                    Err(_) => Err(ErrorCode::SettingsError),
                    Ok(s) => if has_id(acc, setting_wire_spec(s).0) {
                        Err(ErrorCode::SettingsError)
                    } else {
                        settings_decoding(p.skip((n + m) as int), acc.push(s))
                    },
                },
            },
        }
    }
}

/// The value of a payload that is exactly one varint.
pub open spec fn single_varint(p: Seq<u8>) -> Option<u64> {
    match varint_decoding(p) {
        Some((v, n)) => if n == p.len() {
            Some(v)
        } else {
            None
        },
        None => None,
    }
}

/// A decoded frame.
#[derive(Debug)]
pub enum Frame {
    /// DATA (0x00): body data.
    Data(Vec<u8>),
    /// HEADERS (0x01): an encoded field section.
    Headers(Vec<u8>),
    /// SETTINGS (0x04).
    Settings(SettingsPayload),
    /// GOAWAY (0x07): the stream or push ID.
    Goaway(VarInt),
    /// MAX_PUSH_ID (0x0d).
    MaxPushId(VarInt),
    /// A frame of another type, with its payload.
    Unknown(u64, Vec<u8>),
}

/// The abstract content of a [`Frame`].
pub enum FrameView {
    /// DATA.
    Data(Seq<u8>),
    /// HEADERS.
    Headers(Seq<u8>),
    /// SETTINGS, with its parameters.
    Settings(Seq<Setting>),
    /// GOAWAY.
    Goaway(u64),
    /// MAX_PUSH_ID.
    MaxPushId(u64),
    /// Another type, with its payload.
    Unknown(u64, Seq<u8>),
}

impl View for Frame {
    type V = FrameView;

    open spec fn view(&self) -> FrameView {
        match self {
            Frame::Data(b) => FrameView::Data(b@),
            Frame::Headers(b) => FrameView::Headers(b@),
            Frame::Settings(s) => FrameView::Settings(s@),
            Frame::Goaway(v) => FrameView::Goaway(v@),
            Frame::MaxPushId(v) => FrameView::MaxPushId(v@),
            Frame::Unknown(t, b) => FrameView::Unknown(*t, b@),
        }
    }
}

/// The frame of type `t` with payload `p`: GOAWAY and MAX_PUSH_ID carry
/// exactly one varint, else they are `FrameError`; SETTINGS as
/// [`settings_decoding`] says.
pub open spec fn frame_decoding(t: u64, p: Seq<u8>) -> Result<FrameView, ErrorCode> {
    if t == 0x00 {
        Ok(FrameView::Data(p))
    } else if t == 0x01 {
        Ok(FrameView::Headers(p))
    } else if t == 0x04 {
        match settings_decoding(p, Seq::empty()) {
            Ok(s) => Ok(FrameView::Settings(s)),
            Err(e) => Err(e),
        }
    } else if t == 0x07 {
        match single_varint(p) {
            Some(v) => Ok(FrameView::Goaway(v)),
            None => Err(ErrorCode::FrameError),
        }
    } else if t == 0x0d {
        match single_varint(p) {
            Some(v) => Ok(FrameView::MaxPushId(v)),
            None => Err(ErrorCode::FrameError),
        }
    } else {
        Ok(FrameView::Unknown(t, p))
    }
}

/// The abstract result of decoding a frame.
pub open spec fn frame_result(r: Result<Frame, ErrorCode>) -> Result<FrameView, ErrorCode> {
    match r {
        Ok(f) => Ok(f@),
        Err(e) => Err(e),
    }
}

/// Reads the parameters of a SETTINGS payload, as [`settings_decoding`] says.
fn decode_settings(p: &[u8]) -> (r: Result<SettingsPayload, ErrorCode>)
    ensures
        match settings_decoding(p@, Seq::empty()) {
            Ok(s) => r matches Ok(x) && x@ == s,
            Err(e) => r matches Err(x) && x == e,
        },
{
    let mut payload = SettingsPayload::new();
    let mut pos: usize = 0;
    assert(p@.skip(0) =~= p@);
    loop
        invariant
            pos <= p@.len(),
            settings_decoding(p@.skip(pos as int), payload@) == settings_decoding(p@, Seq::empty()),
        decreases p@.len() - pos,
    {
        let ghost rest_v = p@.skip(pos as int);
        if pos == p.len() {
            assert(rest_v.len() == 0);
            return Ok(payload);
        }
        let rest = &p[pos..p.len()];
        assert(rest@ =~= rest_v);
        let (id, n) = match varint_decode(rest) {
            Err(_) => {
                return Err(ErrorCode::FrameError);
            },
            Ok(x) => x,
        };
        let rest2 = &p[pos + n..p.len()];
        assert(rest2@ =~= rest_v.skip(n as int));
        let (value, m) = match varint_decode(rest2) {
            Err(_) => {
                return Err(ErrorCode::FrameError);
            },
            Ok(x) => x,
        };
        proof {
            VarInt::lemma_spec_new(id@);
            VarInt::lemma_spec_new(value@);
            VarInt::lemma_view_injective(id, VarInt::spec_new(id@));
            VarInt::lemma_view_injective(value, VarInt::spec_new(value@));
        }
        let setting = match Setting::from_wire(id, value) {
            Err(_) => {
                return Err(ErrorCode::SettingsError);
            },
            Ok(s) => s,
        };
        let ghost acc = payload@;
        match payload.add(setting) {
            Err(_) => {
                return Err(ErrorCode::SettingsError);
            },
            Ok(()) => {},
        }
        assert(p@.skip((pos + n + m) as int) =~= rest_v.skip((n + m) as int));
        pos = pos + n + m;
    }
}

/// Decodes the payload `p` of a frame of type `t`, as [`frame_decoding`] says.
pub fn decode_frame_payload(t: u64, p: Vec<u8>) -> (r: Result<Frame, ErrorCode>)
    ensures
        frame_result(r) == frame_decoding(t, p@),
{
    if t == 0x00 {
        Ok(Frame::Data(p))
    } else if t == 0x01 {
        Ok(Frame::Headers(p))
    } else if t == 0x04 {
        match decode_settings(p.as_slice()) {
            Ok(s) => Ok(Frame::Settings(s)),
            Err(e) => Err(e),
        }
    } else if t == 0x07 || t == 0x0d {
        match varint_decode(p.as_slice()) {
            Ok((v, n)) => {
                if n == p.len() {
                    if t == 0x07 {
                        Ok(Frame::Goaway(v))
                    } else {
                        Ok(Frame::MaxPushId(v))
                    }
                } else {
                    Err(ErrorCode::FrameError)
                }
            },
            Err(_) => Err(ErrorCode::FrameError),
        }
    } else {
        Ok(Frame::Unknown(t, p))
    }
}

} // verus!

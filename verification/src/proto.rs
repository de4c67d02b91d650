//! The wire shape of `Request` and `Response` records.
//!
//! Messages are encoded protobuf-style: each field is a one-byte tag followed
//! by either a base-128 varint or a varint-length-prefixed byte string.  Every
//! field is emitted, in a fixed order, so each record has exactly one
//! encoding; the decoder accepts exactly those encodings and nothing else.
//! That canonical-only rule is a deliberate narrowing of the usual protobuf
//! reading discipline: unknown, reordered or omitted-default fields are
//! rejected rather than skipped.  Both peers of this protocol are this
//! library, the strictness is what makes the decode-encode inverse provable,
//! and a future field would be introduced by extending both sides together.

use vstd::prelude::*;
use crate::error::{FenrisError, FenrisResult, push_bytes};

verus! {

/// Base-128 varint: seven value bits per byte, least significant group
/// first, continuation bit set on every byte but the last.
pub open spec fn spec_varint(n: u64) -> Seq<u8>
    decreases n,
{
    if n < 128 {
        seq![n as u8]
    } else {
        seq![(n % 128 + 128) as u8] + spec_varint(n / 128)
    }
}

/// `b` holds the varint encoding of `n` starting at `pos`.
pub open spec fn varint_at(b: Seq<u8>, pos: int, n: u64) -> bool {
    &&& 0 <= pos
    &&& pos + spec_varint(n).len() <= b.len()
    &&& b.subrange(pos, pos + spec_varint(n).len()) == spec_varint(n)
}

/// At a given position, at most one value has its varint encoding there.
pub proof fn lemma_varint_unique(b: Seq<u8>, pos: int, n1: u64, n2: u64)
    requires
        varint_at(b, pos, n1),
        varint_at(b, pos, n2),
    ensures
        n1 == n2,
    decreases n1,
{
    let e1 = spec_varint(n1);
    let e2 = spec_varint(n2);
    assert(b[pos] == e1[0] && b[pos] == e2[0]);
    if n1 < 128 && n2 < 128 {
        assert(e1[0] == n1 as u8 && e2[0] == n2 as u8);
    } else if n1 < 128 && n2 >= 128 {
        assert(e1[0] == n1 as u8 && e2[0] == (n2 % 128 + 128) as u8);
        assert(false);
    } else if n1 >= 128 && n2 < 128 {
        assert(e2[0] == n2 as u8 && e1[0] == (n1 % 128 + 128) as u8);
        assert(false);
    } else {
        assert(e1 == seq![(n1 % 128 + 128) as u8] + spec_varint(n1 / 128));
        assert(e2 == seq![(n2 % 128 + 128) as u8] + spec_varint(n2 / 128));
        assert(varint_at(b, pos + 1, n1 / 128)) by {
            assert(b.subrange(pos + 1, pos + 1 + spec_varint(n1 / 128).len()) =~= e1.subrange(
                1,
                e1.len() as int,
            ));
            assert(e1.subrange(1, e1.len() as int) =~= spec_varint(n1 / 128));
        }
        assert(varint_at(b, pos + 1, n2 / 128)) by {
            assert(b.subrange(pos + 1, pos + 1 + spec_varint(n2 / 128).len()) =~= e2.subrange(
                1,
                e2.len() as int,
            ));
            assert(e2.subrange(1, e2.len() as int) =~= spec_varint(n2 / 128));
        }
        lemma_varint_unique(b, pos + 1, n1 / 128, n2 / 128);
        assert(n1 % 128 == n2 % 128);
    }
}

/// Appends the varint encoding of `n`.
pub fn write_varint(v: &mut Vec<u8>, n: u64)
    ensures
        final(v)@ == old(v)@ + spec_varint(n),
    decreases n,
{
    if n < 128 {
        v.push(n as u8);
        proof {
            assert(v@ =~= old(v)@ + spec_varint(n));
        }
    } else {
        v.push((n % 128 + 128) as u8);
        write_varint(v, n / 128);
        proof {
            assert(v@ =~= old(v)@ + spec_varint(n));
        }
    }
}

/// Reads the varint starting at `pos`.  Returns the value and the position
/// just past it; `None` when no value's encoding starts there.
pub fn read_varint(b: &[u8], pos: usize) -> (r: Option<(u64, usize)>)
    ensures
        match r {
            Some((n, end)) => varint_at(b@, pos as int, n) && end == pos + spec_varint(n).len(),
            None => forall|n: u64| !varint_at(b@, pos as int, n),
        },
    decreases b@.len() - pos,
{
    if pos >= b.len() {
        return None;
    }
    let byte = b[pos];
    if byte < 128 {
        let n = byte as u64;
        proof {
            assert(b@.subrange(pos as int, pos + 1) =~= spec_varint(n));
        }
        Some((n, pos + 1))
    } else {
        let rest = read_varint(b, pos + 1);
        match rest {
            None => {
                proof {
                    assert forall|n: u64| !varint_at(b@, pos as int, n) by {
                        if varint_at(b@, pos as int, n) {
                            let e = spec_varint(n);
                            if n < 128 {
                                assert(b@[pos as int] == e[0] && e[0] == n as u8);
                            } else {
                                assert(e == seq![(n % 128 + 128) as u8] + spec_varint(n / 128));
                                assert(b@.subrange(
                                    pos + 1,
                                    pos + 1 + spec_varint(n / 128).len(),
                                ) =~= e.subrange(1, e.len() as int));
                                assert(e.subrange(1, e.len() as int) =~= spec_varint(n / 128));
                                assert(varint_at(b@, pos + 1, n / 128));
                            }
                        }
                    }
                }
                None
            },
            Some((m, end)) => {
                if m == 0 || m > 0x01ff_ffff_ffff_ffffu64 {
                    proof {
                        assert forall|n: u64| !varint_at(b@, pos as int, n) by {
                            if varint_at(b@, pos as int, n) {
                                let e = spec_varint(n);
                                if n < 128 {
                                    assert(b@[pos as int] == e[0] && e[0] == n as u8);
                                } else {
                                    assert(e == seq![(n % 128 + 128) as u8] + spec_varint(
                                        n / 128,
                                    ));
                                    assert(b@.subrange(
                                        pos + 1,
                                        pos + 1 + spec_varint(n / 128).len(),
                                    ) =~= e.subrange(1, e.len() as int));
                                    assert(e.subrange(1, e.len() as int) =~= spec_varint(n / 128));
                                    assert(varint_at(b@, pos + 1, n / 128));
                                    lemma_varint_unique(b@, pos + 1, n / 128, m);
                                    assert(n / 128 >= 1 && n / 128 < 0x0200_0000_0000_0000u64);
                                }
                            }
                        }
                    }
                    None
                } else {
                    let low = (byte - 128) as u64;
                    let n = low + 128 * m;
                    proof {
                        assert(n >= 128 && n % 128 == low && n / 128 == m);
                        assert(spec_varint(n) == seq![(n % 128 + 128) as u8] + spec_varint(
                            n / 128,
                        ));
                        assert((n % 128 + 128) as u8 == byte);
                        assert(b@.subrange(pos as int, pos + spec_varint(n).len()) =~= seq![byte]
                            + b@.subrange(pos + 1, pos + 1 + spec_varint(m).len()));
                        assert(b@.subrange(pos as int, pos + spec_varint(n).len()) =~= spec_varint(
                            n,
                        ));
                        assert forall|n2: u64| varint_at(b@, pos as int, n2) implies n2 == n by {
                            lemma_varint_unique(b@, pos as int, n2, n);
                        }
                    }
                    Some((n, end))
                }
            },
        }
    }
}

// ---------------------------------------------------------------------------
// Tagged fields
// ---------------------------------------------------------------------------

/// A varint field: one tag byte, then the value.
pub open spec fn spec_field_varint(tag: u8, n: u64) -> Seq<u8> {
    seq![tag] + spec_varint(n)
}

/// A length-delimited field: one tag byte, the payload length as a varint,
/// then the payload itself.
pub open spec fn spec_field_bytes(tag: u8, payload: Seq<u8>) -> Seq<u8> {
    seq![tag] + spec_varint(payload.len() as u64) + payload
}

/// `b` holds a varint field with tag `tag` and value `n` at `pos`.
pub open spec fn field_varint_at(b: Seq<u8>, pos: int, tag: u8, n: u64) -> bool {
    &&& 0 <= pos < b.len()
    &&& b[pos] == tag
    &&& varint_at(b, pos + 1, n)
}

/// `b` holds a length-delimited field with tag `tag` and payload `p` at `pos`.
pub open spec fn field_bytes_at(b: Seq<u8>, pos: int, tag: u8, p: Seq<u8>) -> bool {
    &&& 0 <= pos < b.len()
    &&& b[pos] == tag
    &&& varint_at(b, pos + 1, p.len() as u64)
    &&& p.len() <= u64::MAX
    &&& pos + 1 + spec_varint(p.len() as u64).len() + p.len() <= b.len()
    &&& b.subrange(
        pos + 1 + spec_varint(p.len() as u64).len(),
        pos + 1 + spec_varint(p.len() as u64).len() + p.len(),
    ) == p
}

pub proof fn lemma_field_varint_unique(b: Seq<u8>, pos: int, tag: u8, n1: u64, n2: u64)
    requires
        field_varint_at(b, pos, tag, n1),
        field_varint_at(b, pos, tag, n2),
    ensures
        n1 == n2,
{
    lemma_varint_unique(b, pos + 1, n1, n2);
}

pub proof fn lemma_field_bytes_unique(b: Seq<u8>, pos: int, tag: u8, p1: Seq<u8>, p2: Seq<u8>)
    requires
        field_bytes_at(b, pos, tag, p1),
        field_bytes_at(b, pos, tag, p2),
    ensures
        p1 == p2,
{
    lemma_varint_unique(b, pos + 1, p1.len() as u64, p2.len() as u64);
    assert(p1.len() == p2.len());
    assert(p1 =~= p2);
}

/// Appends a varint field.
pub fn write_field_varint(v: &mut Vec<u8>, tag: u8, n: u64)
    ensures
        final(v)@ == old(v)@ + spec_field_varint(tag, n),
{
    v.push(tag);
    write_varint(v, n);
    proof {
        assert(v@ =~= old(v)@ + spec_field_varint(tag, n));
    }
}

/// Appends a length-delimited field.
pub fn write_field_bytes(v: &mut Vec<u8>, tag: u8, payload: &[u8])
    ensures
        final(v)@ == old(v)@ + spec_field_bytes(tag, payload@),
{
    v.push(tag);
    write_varint(v, payload.len() as u64);
    push_bytes(v, payload);
    proof {
        assert(v@ =~= old(v)@ + spec_field_bytes(tag, payload@));
    }
}

/// Reads a varint field with the expected tag at `pos`.
pub fn read_field_varint(b: &[u8], pos: usize, tag: u8) -> (r: Option<(u64, usize)>)
    ensures
        match r {
            Some((n, end)) => field_varint_at(b@, pos as int, tag, n) && end == pos + 1
                + spec_varint(n).len(),
            None => forall|n: u64| !field_varint_at(b@, pos as int, tag, n),
        },
{
    if pos >= b.len() || b[pos] != tag {
        return None;
    }
    match read_varint(b, pos + 1) {
        None => None,
        Some((n, end)) => Some((n, end)),
    }
}

/// Reads a length-delimited field with the expected tag at `pos`.
pub fn read_field_bytes(b: &[u8], pos: usize, tag: u8) -> (r: Option<(Vec<u8>, usize)>)
    ensures
        match r {
            Some((v, end)) => field_bytes_at(b@, pos as int, tag, v@) && end == pos + 1
                + spec_varint(v@.len() as u64).len() + v@.len() && end <= b@.len(),
            None => forall|p: Seq<u8>| !field_bytes_at(b@, pos as int, tag, p),
        },
{
    if pos >= b.len() || b[pos] != tag {
        return None;
    }
    match read_varint(b, pos + 1) {
        None => {
            proof {
                assert forall|p: Seq<u8>| !field_bytes_at(b@, pos as int, tag, p) by {
                    if field_bytes_at(b@, pos as int, tag, p) {
                        assert(varint_at(b@, pos + 1, p.len() as u64));
                    }
                }
            }
            None
        },
        Some((len, body)) => {
            if len > u64::MAX - body as u64 || (body as u64 + len) > b.len() as u64 {
                proof {
                    assert forall|p: Seq<u8>| !field_bytes_at(b@, pos as int, tag, p) by {
                        if field_bytes_at(b@, pos as int, tag, p) {
                            lemma_varint_unique(b@, pos + 1, p.len() as u64, len);
                        }
                    }
                }
                None
            } else {
                let end = body + (len as usize);
                let payload = vstd::slice::slice_to_vec(vstd::slice::slice_subrange(
                    b,
                    body,
                    end,
                ));
                proof {
                    assert(payload@ =~= b@.subrange(body as int, end as int));
                    assert(field_bytes_at(b@, pos as int, tag, payload@));
                }
                Some((payload, end))
            }
        },
    }
}

// ---------------------------------------------------------------------------
// Message records
// ---------------------------------------------------------------------------

/// Stable wire numbering: `Ping` is 0 and `Terminate` is 12, in declaration
/// order.
#[derive(Clone, Copy, Debug, PartialEq, Eq, Structural)]
pub enum RequestType {
    Ping,
    ListDir,
    ChangeDir,
    ReadFile,
    WriteFile,
    CreateFile,
    DeleteFile,
    CreateDir,
    DeleteDir,
    InfoFile,
    AppendFile,
    UploadFile,
    Terminate,
}

/// Stable wire numbering: `Pong` is 0 and `Terminated` is 7, in declaration
/// order.
#[derive(Clone, Copy, Debug, PartialEq, Eq, Structural)]
pub enum ResponseType {
    Pong,
    Success,
    ChangedDir,
    FileContent,
    FileInfo,
    DirListing,
    Error,
    Terminated,
}

pub open spec fn spec_request_type_code(t: RequestType) -> int {
    match t {
        RequestType::Ping => 0,
        RequestType::ListDir => 1,
        RequestType::ChangeDir => 2,
        RequestType::ReadFile => 3,
        RequestType::WriteFile => 4,
        RequestType::CreateFile => 5,
        RequestType::DeleteFile => 6,
        RequestType::CreateDir => 7,
        RequestType::DeleteDir => 8,
        RequestType::InfoFile => 9,
        RequestType::AppendFile => 10,
        RequestType::UploadFile => 11,
        RequestType::Terminate => 12,
    }
}

pub open spec fn spec_request_type_from(c: int) -> Option<RequestType> {
    if c == 0 {
        Some(RequestType::Ping)
    } else if c == 1 {
        Some(RequestType::ListDir)
    } else if c == 2 {
        Some(RequestType::ChangeDir)
    } else if c == 3 {
        Some(RequestType::ReadFile)
    } else if c == 4 {
        Some(RequestType::WriteFile)
    } else if c == 5 {
        Some(RequestType::CreateFile)
    } else if c == 6 {
        Some(RequestType::DeleteFile)
    } else if c == 7 {
        Some(RequestType::CreateDir)
    } else if c == 8 {
        Some(RequestType::DeleteDir)
    } else if c == 9 {
        Some(RequestType::InfoFile)
    } else if c == 10 {
        Some(RequestType::AppendFile)
    } else if c == 11 {
        Some(RequestType::UploadFile)
    } else if c == 12 {
        Some(RequestType::Terminate)
    } else {
        None
    }
}

pub open spec fn spec_response_type_code(t: ResponseType) -> int {
    match t {
        ResponseType::Pong => 0,
        ResponseType::Success => 1,
        ResponseType::ChangedDir => 2,
        ResponseType::FileContent => 3,
        ResponseType::FileInfo => 4,
        ResponseType::DirListing => 5,
        ResponseType::Error => 6,
        ResponseType::Terminated => 7,
    }
}

impl RequestType {
    /// The wire value of this request kind.
    pub fn code(self) -> (r: i32)
        ensures
            r == spec_request_type_code(self),
    {
        match self {
            RequestType::Ping => 0,
            RequestType::ListDir => 1,
            RequestType::ChangeDir => 2,
            RequestType::ReadFile => 3,
            RequestType::WriteFile => 4,
            RequestType::CreateFile => 5,
            RequestType::DeleteFile => 6,
            RequestType::CreateDir => 7,
            RequestType::DeleteDir => 8,
            RequestType::InfoFile => 9,
            RequestType::AppendFile => 10,
            RequestType::UploadFile => 11,
            RequestType::Terminate => 12,
        }
    }

    /// The request kind with the given wire value, `None` for an unknown
    /// value.
    pub fn from_i32(c: i32) -> (r: Option<RequestType>)
        ensures
            r == spec_request_type_from(c as int),
    {
        if c == 0 {
            Some(RequestType::Ping)
        } else if c == 1 {
            Some(RequestType::ListDir)
        } else if c == 2 {
            Some(RequestType::ChangeDir)
        } else if c == 3 {
            Some(RequestType::ReadFile)
        } else if c == 4 {
            Some(RequestType::WriteFile)
        } else if c == 5 {
            Some(RequestType::CreateFile)
        } else if c == 6 {
            Some(RequestType::DeleteFile)
        } else if c == 7 {
            Some(RequestType::CreateDir)
        } else if c == 8 {
            Some(RequestType::DeleteDir)
        } else if c == 9 {
            Some(RequestType::InfoFile)
        } else if c == 10 {
            Some(RequestType::AppendFile)
        } else if c == 11 {
            Some(RequestType::UploadFile)
        } else if c == 12 {
            Some(RequestType::Terminate)
        } else {
            None
        }
    }
}

impl ResponseType {
    /// The wire value of this response kind.
    pub fn code(self) -> (r: i32)
        ensures
            r == spec_response_type_code(self),
    {
        match self {
            ResponseType::Pong => 0,
            ResponseType::Success => 1,
            ResponseType::ChangedDir => 2,
            ResponseType::FileContent => 3,
            ResponseType::FileInfo => 4,
            ResponseType::DirListing => 5,
            ResponseType::Error => 6,
            ResponseType::Terminated => 7,
        }
    }
}

/// Wire values round-trip through the request kinds.
pub proof fn lemma_request_type_code_roundtrip(t: RequestType)
    ensures
        spec_request_type_from(spec_request_type_code(t)) == Some(t),
{
}

/// Metadata of one directory entry as it crosses the wire.
#[derive(Clone, Debug)]
#[verifier::ext_equal]
pub struct FileInfo {
    pub name: Vec<u8>,
    pub size: u64,
    pub is_directory: bool,
    pub modified_time: u64,
    pub permissions: u32,
}

/// The entries of one directory, in filesystem-enumeration order.
#[derive(Clone, Debug)]
#[verifier::ext_equal]
pub struct DirectoryListing {
    pub entries: Vec<FileInfo>,
}

/// The optional structured payload of a `Response`.
#[derive(Clone, Debug)]
#[verifier::ext_equal]
pub enum Details {
    FileInfo(FileInfo),
    DirectoryListing(DirectoryListing),
}

/// A client-to-server command.
#[derive(Clone, Debug)]
#[verifier::ext_equal]
pub struct Request {
    pub command: i32,
    pub filename: Vec<u8>,
    pub ip_addr: u32,
    pub data: Vec<u8>,
}

/// A server-to-client reply.
#[derive(Clone, Debug)]
#[verifier::ext_equal]
pub struct Response {
    pub rtype: i32,
    pub success: bool,
    pub error_message: Vec<u8>,
    pub data: Vec<u8>,
    pub details: Option<Details>,
}

/// The mathematical value of a `FileInfo`.
#[verifier::ext_equal]
pub ghost struct FileInfoV {
    pub name: Seq<u8>,
    pub size: u64,
    pub is_directory: bool,
    pub modified_time: u64,
    pub permissions: u32,
}

/// The mathematical value of a `Details`.
#[verifier::ext_equal]
pub ghost enum DetailsV {
    FileInfo(FileInfoV),
    DirectoryListing(Seq<FileInfoV>),
}

/// The mathematical value of a `Request`.
#[verifier::ext_equal]
pub ghost struct RequestV {
    pub command: i32,
    pub filename: Seq<u8>,
    pub ip_addr: u32,
    pub data: Seq<u8>,
}

/// The mathematical value of a `Response`.
#[verifier::ext_equal]
pub ghost struct ResponseV {
    pub rtype: i32,
    pub success: bool,
    pub error_message: Seq<u8>,
    pub data: Seq<u8>,
    pub details: Option<DetailsV>,
}

impl View for FileInfo {
    type V = FileInfoV;

    open spec fn view(&self) -> FileInfoV {
        FileInfoV {
            name: self.name@,
            size: self.size,
            is_directory: self.is_directory,
            modified_time: self.modified_time,
            permissions: self.permissions,
        }
    }
}

/// The views of a sequence of entries, element by element.
pub open spec fn spec_entries_view(s: Seq<FileInfo>) -> Seq<FileInfoV> {
    Seq::new(s.len(), |i: int| s[i]@)
}

impl View for DirectoryListing {
    type V = Seq<FileInfoV>;

    open spec fn view(&self) -> Seq<FileInfoV> {
        spec_entries_view(self.entries@)
    }
}

impl View for Details {
    type V = DetailsV;

    open spec fn view(&self) -> DetailsV {
        match self {
            Details::FileInfo(fi) => DetailsV::FileInfo(fi@),
            Details::DirectoryListing(dl) => DetailsV::DirectoryListing(dl@),
        }
    }
}

/// The view of an optional details payload.
pub open spec fn spec_details_view(d: Option<Details>) -> Option<DetailsV> {
    match d {
        Option::None => Option::None,
        Option::Some(x) => Option::Some(x@),
    }
}

impl View for Request {
    type V = RequestV;

    open spec fn view(&self) -> RequestV {
        RequestV {
            command: self.command,
            filename: self.filename@,
            ip_addr: self.ip_addr,
            data: self.data@,
        }
    }
}

impl View for Response {
    type V = ResponseV;

    open spec fn view(&self) -> ResponseV {
        ResponseV {
            rtype: self.rtype,
            success: self.success,
            error_message: self.error_message@,
            data: self.data@,
            details: spec_details_view(self.details),
        }
    }
}

pub open spec fn spec_encode_file_info(fi: FileInfoV) -> Seq<u8> {
    spec_field_bytes(0x0a, fi.name) + spec_field_varint(0x10, fi.size) + spec_field_varint(
        0x18,
        if fi.is_directory {
            1
        } else {
            0
        },
    ) + spec_field_varint(0x20, fi.modified_time) + spec_field_varint(0x28, fi.permissions as u64)
}

pub open spec fn spec_encode_entries(s: Seq<FileInfoV>) -> Seq<u8>
    decreases s.len(),
{
    if s.len() == 0 {
        Seq::empty()
    } else {
        spec_field_bytes(0x0a, spec_encode_file_info(s[0])) + spec_encode_entries(s.drop_first())
    }
}

pub open spec fn spec_encode_request(m: RequestV) -> Seq<u8> {
    spec_field_varint(0x08, m.command as u32 as u64) + spec_field_bytes(0x12, m.filename)
        + spec_field_varint(0x18, m.ip_addr as u64) + spec_field_bytes(0x22, m.data)
}

pub open spec fn spec_encode_details(d: Option<DetailsV>) -> Seq<u8> {
    match d {
        Option::None => Seq::empty(),
        Option::Some(DetailsV::FileInfo(fi)) => spec_field_bytes(0x2a, spec_encode_file_info(fi)),
        Option::Some(DetailsV::DirectoryListing(entries)) => spec_field_bytes(
            0x32,
            spec_encode_entries(entries),
        ),
    }
}

pub open spec fn spec_encode_response(m: ResponseV) -> Seq<u8> {
    spec_field_varint(0x08, m.rtype as u32 as u64) + spec_field_varint(
        0x10,
        if m.success {
            1
        } else {
            0
        },
    ) + spec_field_bytes(0x1a, m.error_message) + spec_field_bytes(0x22, m.data)
        + spec_encode_details(m.details)
}

/// Unfolds the entry encoding from the right, for loops that append.
pub proof fn lemma_encode_entries_push(s: Seq<FileInfoV>, x: FileInfoV)
    ensures
        spec_encode_entries(s.push(x)) == spec_encode_entries(s) + spec_field_bytes(
            0x0a,
            spec_encode_file_info(x),
        ),
    decreases s.len(),
{
    if s.len() == 0 {
        assert(s.push(x)[0] == x);
        assert(s.push(x).drop_first() =~= s);
        assert(spec_encode_entries(s.push(x).drop_first()) =~= Seq::<u8>::empty());
        assert(spec_encode_entries(s.push(x)) =~= spec_field_bytes(
            0x0a,
            spec_encode_file_info(x),
        ) + Seq::<u8>::empty());
        assert(spec_field_bytes(0x0a, spec_encode_file_info(x)) + Seq::<u8>::empty()
            =~= spec_field_bytes(0x0a, spec_encode_file_info(x)));
        assert(spec_encode_entries(s) =~= Seq::<u8>::empty());
    } else {
        assert(s.push(x)[0] == s[0]);
        assert(s.push(x).drop_first() =~= s.drop_first().push(x));
        lemma_encode_entries_push(s.drop_first(), x);
    }
}

fn encode_file_info(fi: &FileInfo) -> (r: Vec<u8>)
    ensures
        r@ == spec_encode_file_info(fi@),
{
    let mut v: Vec<u8> = Vec::new();
    write_field_bytes(&mut v, 0x0a, fi.name.as_slice());
    write_field_varint(&mut v, 0x10, fi.size);
    write_field_varint(&mut v, 0x18, if fi.is_directory { 1 } else { 0 });
    write_field_varint(&mut v, 0x20, fi.modified_time);
    write_field_varint(&mut v, 0x28, fi.permissions as u64);
    proof {
        assert(v@ =~= spec_encode_file_info(fi@));
    }
    v
}

fn encode_entries(entries: &Vec<FileInfo>) -> (r: Vec<u8>)
    ensures
        r@ == spec_encode_entries(spec_entries_view(entries@)),
{
    let mut v: Vec<u8> = Vec::new();
    let mut i: usize = 0;
    while i < entries.len()
        invariant
            i <= entries@.len(),
            v@ == spec_encode_entries(spec_entries_view(entries@).take(i as int)),
        decreases entries@.len() - i,
    {
        let fi = encode_file_info(&entries[i]);
        write_field_bytes(&mut v, 0x0a, fi.as_slice());
        proof {
            let sv = spec_entries_view(entries@);
            lemma_encode_entries_push(sv.take(i as int), entries@[i as int]@);
            assert(sv.take(i + 1) =~= sv.take(i as int).push(entries@[i as int]@));
        }
        i = i + 1;
    }
    proof {
        let sv = spec_entries_view(entries@);
        assert(sv.take(sv.len() as int) =~= sv);
    }
    v
}

impl Request {
    /// Serializes the request; always succeeds and yields its one encoding.
    pub fn to_bytes(&self) -> (r: FenrisResult<Vec<u8>>)
        ensures
            r matches Ok(b) && b@ == spec_encode_request(self@),
    {
        let mut v: Vec<u8> = Vec::new();
        write_field_varint(&mut v, 0x08, self.command as u32 as u64);
        write_field_bytes(&mut v, 0x12, self.filename.as_slice());
        write_field_varint(&mut v, 0x18, self.ip_addr as u64);
        write_field_bytes(&mut v, 0x22, self.data.as_slice());
        proof {
            assert(v@ =~= spec_encode_request(self@));
        }
        Ok(v)
    }
}

impl Response {
    /// Serializes the response; always succeeds and yields its one encoding.
    pub fn to_bytes(&self) -> (r: FenrisResult<Vec<u8>>)
        ensures
            r matches Ok(b) && b@ == spec_encode_response(self@),
    {
        let mut v: Vec<u8> = Vec::new();
        write_field_varint(&mut v, 0x08, self.rtype as u32 as u64);
        write_field_varint(&mut v, 0x10, if self.success { 1 } else { 0 });
        write_field_bytes(&mut v, 0x1a, self.error_message.as_slice());
        write_field_bytes(&mut v, 0x22, self.data.as_slice());
        match &self.details {
            Option::None => {},
            Option::Some(Details::FileInfo(fi)) => {
                let body = encode_file_info(fi);
                write_field_bytes(&mut v, 0x2a, body.as_slice());
            },
            Option::Some(Details::DirectoryListing(dl)) => {
                let body = encode_entries(&dl.entries);
                write_field_bytes(&mut v, 0x32, body.as_slice());
            },
        }
        proof {
            assert(v@ =~= spec_encode_response(self@));
        }
        Ok(v)
    }
}

// ---------------------------------------------------------------------------
// Decoding
// ---------------------------------------------------------------------------

/// A varint field embedded in a concatenation sits at the end of its prefix.
pub proof fn lemma_field_varint_here(b: Seq<u8>, pre: Seq<u8>, tag: u8, n: u64, post: Seq<u8>)
    requires
        b == pre + spec_field_varint(tag, n) + post,
    ensures
        field_varint_at(b, pre.len() as int, tag, n),
{
    let f = spec_field_varint(tag, n);
    let l = spec_varint(n).len();
    assert(b.len() == pre.len() + f.len() + post.len());
    assert(b[pre.len() as int] == f[0]);
    assert(f[0] == tag);
    assert(b.subrange(pre.len() as int + 1, pre.len() as int + 1 + l as int) =~= spec_varint(n)) by {
        assert forall|i: int| 0 <= i < l implies b[pre.len() + 1 + i] == spec_varint(n)[i] by {
            assert(b[pre.len() + 1 + i] == f[1 + i]);
            assert(f[1 + i] == spec_varint(n)[i]);
        }
    }
}

/// A length-delimited field embedded in a concatenation sits at the end of
/// its prefix.
pub proof fn lemma_field_bytes_here(b: Seq<u8>, pre: Seq<u8>, tag: u8, p: Seq<u8>, post: Seq<u8>)
    requires
        b == pre + spec_field_bytes(tag, p) + post,
        p.len() <= u64::MAX,
    ensures
        field_bytes_at(b, pre.len() as int, tag, p),
{
    let f = spec_field_bytes(tag, p);
    let lv = spec_varint(p.len() as u64).len();
    assert(b.len() == pre.len() + f.len() + post.len());
    assert(b[pre.len() as int] == f[0]);
    assert(f[0] == tag);
    assert(b.subrange(pre.len() as int + 1, pre.len() as int + 1 + lv as int) =~= spec_varint(
        p.len() as u64,
    )) by {
        assert forall|i: int| 0 <= i < lv implies b[pre.len() + 1 + i] == #[trigger] spec_varint(
            p.len() as u64,
        )[i] by {
            assert(b[pre.len() + 1 + i] == f[1 + i]);
            assert(f[1 + i] == spec_varint(p.len() as u64)[i]);
        }
    }
    assert(b.subrange(
        pre.len() as int + 1 + lv as int,
        pre.len() as int + 1 + lv as int + p.len() as int,
    ) =~= p) by {
        assert forall|i: int| 0 <= i < p.len() implies b[pre.len() + 1 + lv + i] == p[i] by {
            assert(b[pre.len() + 1 + lv + i] == f[1 + lv + i]);
            assert(f[1 + lv + i] == p[i]);
        }
    }
}

/// Encodable values: every length that crosses the wire fits a `u64`.
pub open spec fn spec_file_info_wf(fi: FileInfoV) -> bool {
    &&& fi.name.len() <= u64::MAX
    &&& spec_encode_file_info(fi).len() <= u64::MAX
}

pub open spec fn spec_entries_wf(s: Seq<FileInfoV>) -> bool {
    &&& forall|i: int| 0 <= i < s.len() ==> spec_file_info_wf(#[trigger] s[i])
    &&& spec_encode_entries(s).len() <= u64::MAX
}

pub open spec fn spec_details_wf(d: Option<DetailsV>) -> bool {
    match d {
        Option::None => true,
        Option::Some(DetailsV::FileInfo(fi)) => spec_file_info_wf(fi),
        Option::Some(DetailsV::DirectoryListing(entries)) => spec_entries_wf(entries),
    }
}

pub open spec fn spec_request_wf(m: RequestV) -> bool {
    &&& m.filename.len() <= u64::MAX
    &&& m.data.len() <= u64::MAX
}

pub open spec fn spec_response_wf(m: ResponseV) -> bool {
    &&& m.error_message.len() <= u64::MAX
    &&& m.data.len() <= u64::MAX
    &&& spec_details_wf(m.details)
}

/// Where each field of an encoded `FileInfo` sits.
pub proof fn lemma_file_info_fields(b: Seq<u8>, fi: FileInfoV)
    requires
        b == spec_encode_file_info(fi),
        spec_file_info_wf(fi),
    ensures
        field_bytes_at(b, 0, 0x0a, fi.name),
        field_varint_at(
            b,
            spec_field_bytes(0x0a, fi.name).len() as int,
            0x10,
            fi.size,
        ),
        field_varint_at(
            b,
            (spec_field_bytes(0x0a, fi.name) + spec_field_varint(0x10, fi.size)).len() as int,
            0x18,
            if fi.is_directory {
                1
            } else {
                0
            },
        ),
        field_varint_at(
            b,
            (spec_field_bytes(0x0a, fi.name) + spec_field_varint(0x10, fi.size)
                + spec_field_varint(
                0x18,
                if fi.is_directory {
                    1
                } else {
                    0
                },
            )).len() as int,
            0x20,
            fi.modified_time,
        ),
        field_varint_at(
            b,
            (spec_field_bytes(0x0a, fi.name) + spec_field_varint(0x10, fi.size)
                + spec_field_varint(
                0x18,
                if fi.is_directory {
                    1
                } else {
                    0
                },
            ) + spec_field_varint(0x20, fi.modified_time)).len() as int,
            0x28,
            fi.permissions as u64,
        ),
        b.len() == (spec_field_bytes(0x0a, fi.name) + spec_field_varint(0x10, fi.size)
            + spec_field_varint(
            0x18,
            if fi.is_directory {
                1
            } else {
                0
            },
        ) + spec_field_varint(0x20, fi.modified_time) + spec_field_varint(
            0x28,
            fi.permissions as u64,
        )).len(),
{
    let f1 = spec_field_bytes(0x0a, fi.name);
    let f2 = spec_field_varint(0x10, fi.size);
    let f3 = spec_field_varint(
        0x18,
        if fi.is_directory {
            1
        } else {
            0
        },
    );
    let f4 = spec_field_varint(0x20, fi.modified_time);
    let f5 = spec_field_varint(0x28, fi.permissions as u64);
    assert(b =~= Seq::<u8>::empty() + f1 + (f2 + f3 + f4 + f5));
    lemma_field_bytes_here(b, Seq::<u8>::empty(), 0x0a, fi.name, f2 + f3 + f4 + f5);
    assert(b =~= f1 + f2 + (f3 + f4 + f5));
    lemma_field_varint_here(b, f1, 0x10, fi.size, f3 + f4 + f5);
    assert(b =~= (f1 + f2) + f3 + (f4 + f5));
    lemma_field_varint_here(
        b,
        f1 + f2,
        0x18,
        if fi.is_directory {
            1
        } else {
            0
        },
        f4 + f5,
    );
    assert(b =~= (f1 + f2 + f3) + f4 + f5);
    lemma_field_varint_here(b, f1 + f2 + f3, 0x20, fi.modified_time, f5);
    assert(b =~= (f1 + f2 + f3 + f4) + f5 + Seq::<u8>::empty());
    lemma_field_varint_here(b, f1 + f2 + f3 + f4, 0x28, fi.permissions as u64, Seq::<u8>::empty());
}

/// Decodes a complete `FileInfo` record occupying the whole slice.
#[verifier::rlimit(100)]
#[verifier::spinoff_prover]
fn decode_file_info(b: &[u8]) -> (r: Option<FileInfo>)
    ensures
        r matches Some(fi) ==> b@ == spec_encode_file_info(fi@) && spec_file_info_wf(fi@),
        forall|fi: FileInfoV|
            spec_file_info_wf(fi) && b@ == spec_encode_file_info(fi) ==> (r matches Some(g) && g@
                == fi),
{
    let ghost gb = b@;
    let name_field = read_field_bytes(b, 0, 0x0a);
    if name_field.is_none() {
        proof {
            assert forall|fi: FileInfoV|
                !(spec_file_info_wf(fi) && gb == spec_encode_file_info(fi)) by {
                if spec_file_info_wf(fi) && gb == spec_encode_file_info(fi) {
                    lemma_file_info_fields(gb, fi);
                }
            }
        }
        return None;
    }
    let (name, p1) = name_field.unwrap();
    let size_field = read_field_varint(b, p1, 0x10);
    if size_field.is_none() {
        proof {
            assert forall|fi: FileInfoV|
                !(spec_file_info_wf(fi) && gb == spec_encode_file_info(fi)) by {
                if spec_file_info_wf(fi) && gb == spec_encode_file_info(fi) {
                    lemma_file_info_fields(gb, fi);
                    lemma_field_bytes_unique(gb, 0, 0x0a, name@, fi.name);
                }
            }
        }
        return None;
    }
    let (size, p2) = size_field.unwrap();
    let dir_field = read_field_varint(b, p2, 0x18);
    if dir_field.is_none() {
        proof {
            assert forall|fi: FileInfoV|
                !(spec_file_info_wf(fi) && gb == spec_encode_file_info(fi)) by {
                if spec_file_info_wf(fi) && gb == spec_encode_file_info(fi) {
                    lemma_file_info_fields(gb, fi);
                    lemma_field_bytes_unique(gb, 0, 0x0a, name@, fi.name);
                    lemma_varint_unique(gb, p1 + 1, size, fi.size);
                }
            }
        }
        return None;
    }
    let (dirv, p3) = dir_field.unwrap();
    let mtime_field = read_field_varint(b, p3, 0x20);
    if dirv > 1 || mtime_field.is_none() {
        proof {
            assert forall|fi: FileInfoV|
                !(spec_file_info_wf(fi) && gb == spec_encode_file_info(fi)) by {
                if spec_file_info_wf(fi) && gb == spec_encode_file_info(fi) {
                    lemma_file_info_fields(gb, fi);
                    lemma_field_bytes_unique(gb, 0, 0x0a, name@, fi.name);
                    lemma_varint_unique(gb, p1 + 1, size, fi.size);
                    lemma_varint_unique(gb,
                        p2 + 1,
                        dirv,
                        if fi.is_directory {
                            1
                        } else {
                            0
                        },
                    );
                }
            }
        }
        return None;
    }
    let (mtime, p4) = mtime_field.unwrap();
    let perm_field = read_field_varint(b, p4, 0x28);
    if perm_field.is_none() {
        proof {
            assert forall|fi: FileInfoV|
                !(spec_file_info_wf(fi) && gb == spec_encode_file_info(fi)) by {
                if spec_file_info_wf(fi) && gb == spec_encode_file_info(fi) {
                    lemma_file_info_fields(gb, fi);
                    lemma_field_bytes_unique(gb, 0, 0x0a, name@, fi.name);
                    lemma_varint_unique(gb, p1 + 1, size, fi.size);
                    lemma_varint_unique(gb,
                        p2 + 1,
                        dirv,
                        if fi.is_directory {
                            1
                        } else {
                            0
                        },
                    );
                    lemma_varint_unique(gb, p3 + 1, mtime, fi.modified_time);
                }
            }
        }
        return None;
    }
    let (perms, p5) = perm_field.unwrap();
    if perms > 0xffff_ffffu64 || p5 != b.len() {
        proof {
            assert forall|fi: FileInfoV|
                !(spec_file_info_wf(fi) && gb == spec_encode_file_info(fi)) by {
                if spec_file_info_wf(fi) && gb == spec_encode_file_info(fi) {
                    lemma_file_info_fields(gb, fi);
                    lemma_field_bytes_unique(gb, 0, 0x0a, name@, fi.name);
                    lemma_varint_unique(gb, p1 + 1, size, fi.size);
                    lemma_varint_unique(gb,
                        p2 + 1,
                        dirv,
                        if fi.is_directory {
                            1
                        } else {
                            0
                        },
                    );
                    lemma_varint_unique(gb, p3 + 1, mtime, fi.modified_time);
                    lemma_varint_unique(gb, p4 + 1, perms, fi.permissions as u64);
                }
            }
        }
        return None;
    }
    let result = FileInfo {
        name,
        size,
        is_directory: dirv == 1,
        modified_time: mtime,
        permissions: perms as u32,
    };
    proof {
        let e1 = spec_field_bytes(0x0a, result.name@);
        let e2 = spec_field_varint(0x10, result.size);
        let e3 = spec_field_varint(
            0x18,
            if result.is_directory {
                1
            } else {
                0
            },
        );
        let e4 = spec_field_varint(0x20, result.modified_time);
        let e5 = spec_field_varint(0x28, result.permissions as u64);
        assert(dirv == if result.is_directory { 1u64 } else { 0u64 });
        assert(result.permissions as u64 == perms);
        assert(gb.subrange(0, p1 as int) =~= e1);
        assert(gb.subrange(p1 as int, p2 as int) =~= e2);
        assert(gb.subrange(p2 as int, p3 as int) =~= e3);
        assert(gb.subrange(p3 as int, p4 as int) =~= e4);
        assert(gb.subrange(p4 as int, p5 as int) =~= e5);
        assert(gb =~= gb.subrange(0, p1 as int) + gb.subrange(p1 as int, p2 as int) + gb.subrange(
            p2 as int,
            p3 as int,
        ) + gb.subrange(p3 as int, p4 as int) + gb.subrange(p4 as int, p5 as int));
        assert(spec_encode_file_info(result@) == e1 + e2 + e3 + e4 + e5);
        assert(gb == spec_encode_file_info(result@));
        assert forall|fi: FileInfoV|
            spec_file_info_wf(fi) && gb == spec_encode_file_info(fi) implies result@ == fi by {
            lemma_file_info_fields(gb, fi);
            lemma_field_bytes_unique(gb, 0, 0x0a, name@, fi.name);
            lemma_varint_unique(gb, p1 + 1, size, fi.size);
            lemma_varint_unique(gb,
                p2 + 1,
                dirv,
                if fi.is_directory {
                    1
                } else {
                    0
                },
            );
            lemma_varint_unique(gb, p3 + 1, mtime, fi.modified_time);
            lemma_varint_unique(gb, p4 + 1, perms, fi.permissions as u64);
            assert(result.name@ == fi.name);
            assert(result.is_directory == fi.is_directory);
            assert(result.permissions == fi.permissions) by {
                assert(perms == fi.permissions as u64);
            }
            assert(result@ =~= fi);
        }
    }
    Some(result)
}

/// Any varint takes at least one byte, so any field takes at least two.
pub proof fn lemma_varint_len(n: u64)
    ensures
        1 <= spec_varint(n).len(),
{
}

/// A non-empty entry list encodes to a non-empty byte string.
pub proof fn lemma_entries_nonempty(s: Seq<FileInfoV>)
    ensures
        s.len() > 0 ==> spec_encode_entries(s).len() >= 2,
{
    if s.len() > 0 {
        lemma_varint_len(spec_encode_file_info(s[0]).len() as u64);
    }
}

/// The first entry of an encoded list sits at the front; the rest follow.
pub proof fn lemma_entries_head(b: Seq<u8>, s: Seq<FileInfoV>)
    requires
        spec_entries_wf(s),
        s.len() > 0,
        b == spec_encode_entries(s),
    ensures
        field_bytes_at(b, 0, 0x0a, spec_encode_file_info(s[0])),
        b.subrange(
            spec_field_bytes(0x0a, spec_encode_file_info(s[0])).len() as int,
            b.len() as int,
        ) == spec_encode_entries(s.drop_first()),
        spec_entries_wf(s.drop_first()),
{
    let f = spec_field_bytes(0x0a, spec_encode_file_info(s[0]));
    let rest = spec_encode_entries(s.drop_first());
    assert(spec_file_info_wf(s[0]));
    assert(b == f + rest);
    assert(b =~= Seq::<u8>::empty() + f + rest);
    lemma_field_bytes_here(b, Seq::<u8>::empty(), 0x0a, spec_encode_file_info(s[0]), rest);
    assert(b.subrange(f.len() as int, b.len() as int) =~= rest);
    assert forall|i: int| 0 <= i < s.drop_first().len() implies spec_file_info_wf(
        #[trigger] s.drop_first()[i],
    ) by {
        assert(s.drop_first()[i] == s[i + 1]);
    }
}

/// Decodes a complete entry list occupying the whole slice.
#[verifier::rlimit(100)]
#[verifier::spinoff_prover]
fn decode_entries(b: &[u8]) -> (r: Option<Vec<FileInfo>>)
    ensures
        r matches Some(es) ==> b@ == spec_encode_entries(spec_entries_view(es@))
            && spec_entries_wf(spec_entries_view(es@)),
        forall|s: Seq<FileInfoV>|
            spec_entries_wf(s) && b@ == spec_encode_entries(s) ==> (r matches Some(es)
                && spec_entries_view(es@) == s),
    decreases b@.len(),
{
    let ghost gb = b@;
    if b.len() == 0 {
        let es: Vec<FileInfo> = Vec::new();
        proof {
            assert(spec_entries_view(es@) =~= Seq::<FileInfoV>::empty());
            assert(gb =~= spec_encode_entries(spec_entries_view(es@)));
            assert forall|s: Seq<FileInfoV>|
                spec_entries_wf(s) && gb == spec_encode_entries(s) implies spec_entries_view(es@)
                == s by {
                lemma_entries_nonempty(s);
                assert(s.len() == 0);
                assert(spec_entries_view(es@) =~= s);
            }
        }
        return Some(es);
    }
    let head = read_field_bytes(b, 0, 0x0a);
    if head.is_none() {
        proof {
            assert forall|s: Seq<FileInfoV>|
                !(spec_entries_wf(s) && gb == spec_encode_entries(s)) by {
                if spec_entries_wf(s) && gb == spec_encode_entries(s) {
                    lemma_entries_nonempty(s);
                    assert(s.len() > 0);
                    lemma_entries_head(gb, s);
                }
            }
        }
        return None;
    }
    let (payload, end) = head.unwrap();
    let first = decode_file_info(payload.as_slice());
    if first.is_none() {
        proof {
            assert forall|s: Seq<FileInfoV>|
                !(spec_entries_wf(s) && gb == spec_encode_entries(s)) by {
                if spec_entries_wf(s) && gb == spec_encode_entries(s) {
                    lemma_entries_nonempty(s);
                    lemma_entries_head(gb, s);
                    lemma_field_bytes_unique(gb, 0, 0x0a, payload@, spec_encode_file_info(s[0]));
                }
            }
        }
        return None;
    }
    let fi = first.unwrap();
    let rest_slice = vstd::slice::slice_subrange(b, end, b.len());
    let rest = decode_entries(rest_slice);
    if rest.is_none() {
        proof {
            assert forall|s: Seq<FileInfoV>|
                !(spec_entries_wf(s) && gb == spec_encode_entries(s)) by {
                if spec_entries_wf(s) && gb == spec_encode_entries(s) {
                    lemma_entries_nonempty(s);
                    lemma_entries_head(gb, s);
                    lemma_field_bytes_unique(gb, 0, 0x0a, payload@, spec_encode_file_info(s[0]));
                    assert(rest_slice@ == spec_encode_entries(s.drop_first()));
                }
            }
        }
        return None;
    }
    let mut es = rest.unwrap();
    let ghost tail_seq = es@;
    es.insert(0, fi);
    proof {
        let sv = spec_entries_view(es@);
        assert(es@ == tail_seq.insert(0, fi));
        assert(es@[0] == fi);
        assert(es@.drop_first() =~= tail_seq);
        assert(sv[0] == fi@);
        assert(sv.drop_first() =~= spec_entries_view(tail_seq));
        assert(gb =~= gb.subrange(0, end as int) + gb.subrange(end as int, gb.len() as int));
        assert(gb.subrange(0, end as int) =~= spec_field_bytes(0x0a, spec_encode_file_info(sv[0])));
        assert(gb.subrange(end as int, gb.len() as int) == rest_slice@);
        assert(rest_slice@ == spec_encode_entries(spec_entries_view(tail_seq)));
        assert(spec_encode_entries(sv.drop_first()) == spec_encode_entries(
            spec_entries_view(tail_seq),
        ));
        assert(sv.len() > 0);
        assert(spec_encode_entries(sv) == spec_field_bytes(0x0a, spec_encode_file_info(sv[0]))
            + spec_encode_entries(sv.drop_first()));
        assert(gb == spec_encode_entries(sv));
        assert(spec_entries_wf(sv)) by {
            assert forall|i: int| 0 <= i < sv.len() implies spec_file_info_wf(#[trigger] sv[i]) by {
                if i == 0 {
                    assert(sv[0] == fi@);
                } else {
                    assert(sv[i] == spec_entries_view(tail_seq)[i - 1]);
                }
            }
        }
        assert forall|s: Seq<FileInfoV>|
            spec_entries_wf(s) && gb == spec_encode_entries(s) implies sv == s by {
            lemma_entries_nonempty(s);
            lemma_entries_head(gb, s);
            lemma_field_bytes_unique(gb, 0, 0x0a, payload@, spec_encode_file_info(s[0]));
            assert(fi@ == s[0]);
            assert(rest_slice@ == spec_encode_entries(s.drop_first()));
            assert(spec_entries_view(tail_seq) == s.drop_first());
            assert(sv.drop_first() == s.drop_first());
            assert(sv.len() == s.len());
            assert forall|i: int| 0 <= i < sv.len() implies sv[i] == s[i] by {
                if i > 0 {
                    assert(sv[i] == sv.drop_first()[i - 1]);
                    assert(s[i] == s.drop_first()[i - 1]);
                }
            }
            assert(sv =~= s);
        }
    }
    Some(es)
}

/// Casting a 32-bit value up to `u64` and back is the identity.
proof fn lemma_u32_cast_roundtrip(x: u64)
    requires
        x <= 0xffff_ffffu64,
    ensures
        (x as u32 as i32) as u32 as u64 == x,
{
    assert((x as u32 as i32) as u32 as u64 == x) by (bit_vector)
        requires
            x <= 0xffff_ffffu64,
    ;
}

/// Casting an `i32` through `u32` and `u64` and back is the identity.
proof fn lemma_i32_cast_roundtrip(c: i32)
    ensures
        (c as u32 as u64) as u32 as i32 == c,
{
    assert((c as u32 as u64) as u32 as i32 == c) by (bit_vector);
}

/// Where each field of an encoded `Request` sits.
pub proof fn lemma_request_fields(b: Seq<u8>, m: RequestV)
    requires
        b == spec_encode_request(m),
        spec_request_wf(m),
    ensures
        field_varint_at(b, 0, 0x08, m.command as u32 as u64),
        field_bytes_at(
            b,
            spec_field_varint(0x08, m.command as u32 as u64).len() as int,
            0x12,
            m.filename,
        ),
        field_varint_at(
            b,
            (spec_field_varint(0x08, m.command as u32 as u64) + spec_field_bytes(
                0x12,
                m.filename,
            )).len() as int,
            0x18,
            m.ip_addr as u64,
        ),
        field_bytes_at(
            b,
            (spec_field_varint(0x08, m.command as u32 as u64) + spec_field_bytes(0x12, m.filename)
                + spec_field_varint(0x18, m.ip_addr as u64)).len() as int,
            0x22,
            m.data,
        ),
        b.len() == (spec_field_varint(0x08, m.command as u32 as u64) + spec_field_bytes(
            0x12,
            m.filename,
        ) + spec_field_varint(0x18, m.ip_addr as u64) + spec_field_bytes(0x22, m.data)).len(),
{
    let f1 = spec_field_varint(0x08, m.command as u32 as u64);
    let f2 = spec_field_bytes(0x12, m.filename);
    let f3 = spec_field_varint(0x18, m.ip_addr as u64);
    let f4 = spec_field_bytes(0x22, m.data);
    assert(b =~= Seq::<u8>::empty() + f1 + (f2 + f3 + f4));
    lemma_field_varint_here(b, Seq::<u8>::empty(), 0x08, m.command as u32 as u64, f2 + f3 + f4);
    assert(b =~= f1 + f2 + (f3 + f4));
    lemma_field_bytes_here(b, f1, 0x12, m.filename, f3 + f4);
    assert(b =~= (f1 + f2) + f3 + f4);
    lemma_field_varint_here(b, f1 + f2, 0x18, m.ip_addr as u64, f4);
    assert(b =~= (f1 + f2 + f3) + f4 + Seq::<u8>::empty());
    lemma_field_bytes_here(b, f1 + f2 + f3, 0x22, m.data, Seq::<u8>::empty());
}

/// Decodes a complete `Request` occupying the whole slice.
#[verifier::rlimit(100)]
#[verifier::spinoff_prover]
fn decode_request(b: &[u8]) -> (r: Option<Request>)
    ensures
        r matches Some(m) ==> b@ == spec_encode_request(m@) && spec_request_wf(m@),
        forall|v: RequestV|
            spec_request_wf(v) && b@ == spec_encode_request(v) ==> (r matches Some(m) && m@ == v),
{
    let ghost gb = b@;
    let cmd_field = read_field_varint(b, 0, 0x08);
    if cmd_field.is_none() {
        proof {
            assert forall|v: RequestV| !(spec_request_wf(v) && gb == spec_encode_request(v)) by {
                if spec_request_wf(v) && gb == spec_encode_request(v) {
                    lemma_request_fields(gb, v);
                }
            }
        }
        return None;
    }
    let (cmd, p1) = cmd_field.unwrap();
    let name_field = read_field_bytes(b, p1, 0x12);
    if cmd > 0xffff_ffffu64 || name_field.is_none() {
        proof {
            assert forall|v: RequestV| !(spec_request_wf(v) && gb == spec_encode_request(v)) by {
                if spec_request_wf(v) && gb == spec_encode_request(v) {
                    lemma_request_fields(gb, v);
                    lemma_varint_unique(gb, 1, cmd, v.command as u32 as u64);
                }
            }
        }
        return None;
    }
    let (filename, p2) = name_field.unwrap();
    let ip_field = read_field_varint(b, p2, 0x18);
    if ip_field.is_none() {
        proof {
            assert forall|v: RequestV| !(spec_request_wf(v) && gb == spec_encode_request(v)) by {
                if spec_request_wf(v) && gb == spec_encode_request(v) {
                    lemma_request_fields(gb, v);
                    lemma_varint_unique(gb, 1, cmd, v.command as u32 as u64);
                    lemma_field_bytes_unique(gb, p1 as int, 0x12, filename@, v.filename);
                }
            }
        }
        return None;
    }
    let (ip, p3) = ip_field.unwrap();
    let data_field = read_field_bytes(b, p3, 0x22);
    if ip > 0xffff_ffffu64 || data_field.is_none() {
        proof {
            assert forall|v: RequestV| !(spec_request_wf(v) && gb == spec_encode_request(v)) by {
                if spec_request_wf(v) && gb == spec_encode_request(v) {
                    lemma_request_fields(gb, v);
                    lemma_varint_unique(gb, 1, cmd, v.command as u32 as u64);
                    lemma_field_bytes_unique(gb, p1 as int, 0x12, filename@, v.filename);
                    lemma_varint_unique(gb, p2 + 1, ip, v.ip_addr as u64);
                }
            }
        }
        return None;
    }
    let (data, p4) = data_field.unwrap();
    if p4 != b.len() {
        proof {
            assert forall|v: RequestV| !(spec_request_wf(v) && gb == spec_encode_request(v)) by {
                if spec_request_wf(v) && gb == spec_encode_request(v) {
                    lemma_request_fields(gb, v);
                    lemma_varint_unique(gb, 1, cmd, v.command as u32 as u64);
                    lemma_field_bytes_unique(gb, p1 as int, 0x12, filename@, v.filename);
                    lemma_varint_unique(gb, p2 + 1, ip, v.ip_addr as u64);
                    lemma_field_bytes_unique(gb, p3 as int, 0x22, data@, v.data);
                }
            }
        }
        return None;
    }
    let result = Request { command: cmd as u32 as i32, filename, ip_addr: ip as u32, data };
    proof {
        let e1 = spec_field_varint(0x08, result.command as u32 as u64);
        let e2 = spec_field_bytes(0x12, result.filename@);
        let e3 = spec_field_varint(0x18, result.ip_addr as u64);
        let e4 = spec_field_bytes(0x22, result.data@);
        assert(result.command as u32 as u64 == cmd) by {
            lemma_u32_cast_roundtrip(cmd);
        }
        assert(result.ip_addr as u64 == ip);
        assert(gb.subrange(0, p1 as int) =~= e1);
        assert(gb.subrange(p1 as int, p2 as int) =~= e2);
        assert(gb.subrange(p2 as int, p3 as int) =~= e3);
        assert(gb.subrange(p3 as int, p4 as int) =~= e4);
        assert(gb =~= gb.subrange(0, p1 as int) + gb.subrange(p1 as int, p2 as int) + gb.subrange(
            p2 as int,
            p3 as int,
        ) + gb.subrange(p3 as int, p4 as int));
        assert(spec_encode_request(result@) == e1 + e2 + e3 + e4);
        assert(gb == spec_encode_request(result@));
        assert forall|v: RequestV|
            spec_request_wf(v) && gb == spec_encode_request(v) implies result@ == v by {
            lemma_request_fields(gb, v);
            lemma_varint_unique(gb, 1, cmd, v.command as u32 as u64);
            lemma_field_bytes_unique(gb, p1 as int, 0x12, filename@, v.filename);
            lemma_varint_unique(gb, p2 + 1, ip, v.ip_addr as u64);
            lemma_field_bytes_unique(gb, p3 as int, 0x22, data@, v.data);
            assert(result.command == v.command) by {
                lemma_i32_cast_roundtrip(v.command);
            }
            assert(result.ip_addr == v.ip_addr);
            assert(result@ =~= v);
        }
    }
    Some(result)
}

/// Where each field of an encoded `Response` sits.
pub proof fn lemma_response_fields(b: Seq<u8>, m: ResponseV)
    requires
        b == spec_encode_response(m),
        spec_response_wf(m),
    ensures
        field_varint_at(b, 0, 0x08, m.rtype as u32 as u64),
        field_varint_at(
            b,
            spec_field_varint(0x08, m.rtype as u32 as u64).len() as int,
            0x10,
            if m.success {
                1
            } else {
                0
            },
        ),
        field_bytes_at(
            b,
            (spec_field_varint(0x08, m.rtype as u32 as u64) + spec_field_varint(
                0x10,
                if m.success {
                    1
                } else {
                    0
                },
            )).len() as int,
            0x1a,
            m.error_message,
        ),
        field_bytes_at(
            b,
            (spec_field_varint(0x08, m.rtype as u32 as u64) + spec_field_varint(
                0x10,
                if m.success {
                    1
                } else {
                    0
                },
            ) + spec_field_bytes(0x1a, m.error_message)).len() as int,
            0x22,
            m.data,
        ),
        b.subrange(
            (spec_field_varint(0x08, m.rtype as u32 as u64) + spec_field_varint(
                0x10,
                if m.success {
                    1
                } else {
                    0
                },
            ) + spec_field_bytes(0x1a, m.error_message) + spec_field_bytes(
                0x22,
                m.data,
            )).len() as int,
            b.len() as int,
        ) == spec_encode_details(m.details),
        b.len() == (spec_field_varint(0x08, m.rtype as u32 as u64) + spec_field_varint(
            0x10,
            if m.success {
                1
            } else {
                0
            },
        ) + spec_field_bytes(0x1a, m.error_message) + spec_field_bytes(0x22, m.data)).len()
            + spec_encode_details(m.details).len(),
{
    let f1 = spec_field_varint(0x08, m.rtype as u32 as u64);
    let f2 = spec_field_varint(
        0x10,
        if m.success {
            1
        } else {
            0
        },
    );
    let f3 = spec_field_bytes(0x1a, m.error_message);
    let f4 = spec_field_bytes(0x22, m.data);
    let fd = spec_encode_details(m.details);
    assert(b =~= Seq::<u8>::empty() + f1 + (f2 + f3 + f4 + fd));
    lemma_field_varint_here(b, Seq::<u8>::empty(), 0x08, m.rtype as u32 as u64, f2 + f3 + f4 + fd);
    assert(b =~= f1 + f2 + (f3 + f4 + fd));
    lemma_field_varint_here(
        b,
        f1,
        0x10,
        if m.success {
            1
        } else {
            0
        },
        f3 + f4 + fd,
    );
    assert(b =~= (f1 + f2) + f3 + (f4 + fd));
    lemma_field_bytes_here(b, f1 + f2, 0x1a, m.error_message, f4 + fd);
    assert(b =~= (f1 + f2 + f3) + f4 + fd);
    lemma_field_bytes_here(b, f1 + f2 + f3, 0x22, m.data, fd);
    assert(b.subrange((f1 + f2 + f3 + f4).len() as int, b.len() as int) =~= fd);
}

/// The four leading fields of a response, before the optional details.
pub open spec fn spec_response_head(rt: u64, succ: u64, msg: Seq<u8>, data: Seq<u8>) -> Seq<u8> {
    spec_field_varint(0x08, rt) + spec_field_varint(0x10, succ) + spec_field_bytes(0x1a, msg)
        + spec_field_bytes(0x22, data)
}

/// Reads the four leading fields of a response and reports where the
/// details payload begins.
#[verifier::rlimit(100)]
#[verifier::spinoff_prover]
fn decode_response_head(b: &[u8]) -> (r: Option<(u64, u64, Vec<u8>, Vec<u8>, usize)>)
    ensures
        match r {
            Some((rt, succ, msg, data, p4)) => {
                &&& rt <= 0xffff_ffffu64
                &&& succ <= 1
                &&& p4 <= b@.len()
                &&& b@.subrange(0, p4 as int) == spec_response_head(rt, succ, msg@, data@)
                &&& forall|v: ResponseV|
                    spec_response_wf(v) && b@ == spec_encode_response(v) ==> {
                        &&& v.rtype as u32 as u64 == rt
                        &&& (if v.success {
                            1u64
                        } else {
                            0u64
                        }) == succ
                        &&& v.error_message == msg@
                        &&& v.data == data@
                        &&& b@.subrange(p4 as int, b@.len() as int) == spec_encode_details(
                            v.details,
                        )
                        &&& b@.len() == p4 + spec_encode_details(v.details).len()
                    }
            },
            None => forall|v: ResponseV|
                !(spec_response_wf(v) && b@ == spec_encode_response(v)),
        },
{
    let ghost gb = b@;
    let rt_field = read_field_varint(b, 0, 0x08);
    if rt_field.is_none() {
        proof {
            assert forall|v: ResponseV| !(spec_response_wf(v) && gb == spec_encode_response(v)) by {
                if spec_response_wf(v) && gb == spec_encode_response(v) {
                    lemma_response_fields(gb, v);
                }
            }
        }
        return None;
    }
    let (rt, p1) = rt_field.unwrap();
    let succ_field = read_field_varint(b, p1, 0x10);
    if rt > 0xffff_ffffu64 || succ_field.is_none() {
        proof {
            assert forall|v: ResponseV| !(spec_response_wf(v) && gb == spec_encode_response(v)) by {
                if spec_response_wf(v) && gb == spec_encode_response(v) {
                    lemma_response_fields(gb, v);
                    lemma_varint_unique(gb, 1, rt, v.rtype as u32 as u64);
                }
            }
        }
        return None;
    }
    let (succ, p2) = succ_field.unwrap();
    let msg_field = read_field_bytes(b, p2, 0x1a);
    if succ > 1 || msg_field.is_none() {
        proof {
            assert forall|v: ResponseV| !(spec_response_wf(v) && gb == spec_encode_response(v)) by {
                if spec_response_wf(v) && gb == spec_encode_response(v) {
                    lemma_response_fields(gb, v);
                    lemma_varint_unique(gb, 1, rt, v.rtype as u32 as u64);
                    lemma_varint_unique(
                        gb,
                        p1 + 1,
                        succ,
                        if v.success {
                            1
                        } else {
                            0
                        },
                    );
                }
            }
        }
        return None;
    }
    let (error_message, p3) = msg_field.unwrap();
    let data_field = read_field_bytes(b, p3, 0x22);
    if data_field.is_none() {
        proof {
            assert forall|v: ResponseV| !(spec_response_wf(v) && gb == spec_encode_response(v)) by {
                if spec_response_wf(v) && gb == spec_encode_response(v) {
                    lemma_response_fields(gb, v);
                    lemma_varint_unique(gb, 1, rt, v.rtype as u32 as u64);
                    lemma_varint_unique(
                        gb,
                        p1 + 1,
                        succ,
                        if v.success {
                            1
                        } else {
                            0
                        },
                    );
                    lemma_field_bytes_unique(gb, p2 as int, 0x1a, error_message@, v.error_message);
                }
            }
        }
        return None;
    }
    let (data, p4) = data_field.unwrap();
    proof {
        assert(gb.subrange(0, p4 as int) =~= spec_response_head(rt, succ, error_message@, data@))
            by {
            assert(gb.subrange(0, p1 as int) =~= spec_field_varint(0x08, rt));
            assert(gb.subrange(p1 as int, p2 as int) =~= spec_field_varint(0x10, succ));
            assert(gb.subrange(p2 as int, p3 as int) =~= spec_field_bytes(0x1a, error_message@));
            assert(gb.subrange(p3 as int, p4 as int) =~= spec_field_bytes(0x22, data@));
            assert(gb.subrange(0, p4 as int) =~= gb.subrange(0, p1 as int) + gb.subrange(
                p1 as int,
                p2 as int,
            ) + gb.subrange(p2 as int, p3 as int) + gb.subrange(p3 as int, p4 as int));
        }
        // Every witness agrees with the four fields just read and places its
        // details encoding at `p4`.
        assert forall|v: ResponseV|
            spec_response_wf(v) && gb == spec_encode_response(v) implies {
            &&& rt == v.rtype as u32 as u64
            &&& succ == (if v.success {
                1u64
            } else {
                0u64
            })
            &&& error_message@ == v.error_message
            &&& data@ == v.data
            &&& gb.subrange(p4 as int, gb.len() as int) == spec_encode_details(v.details)
            &&& gb.len() == p4 + spec_encode_details(v.details).len()
        } by {
            lemma_response_fields(gb, v);
            lemma_varint_unique(gb, 1, rt, v.rtype as u32 as u64);
            lemma_varint_unique(
                gb,
                p1 + 1,
                succ,
                if v.success {
                    1
                } else {
                    0
                },
            );
            lemma_field_bytes_unique(gb, p2 as int, 0x1a, error_message@, v.error_message);
            lemma_field_bytes_unique(gb, p3 as int, 0x22, data@, v.data);
        }
    }
    Some((rt, succ, error_message, data, p4))
}

/// Decodes a complete `Response` occupying the whole slice.
#[verifier::rlimit(100)]
#[verifier::spinoff_prover]
fn decode_response(b: &[u8]) -> (r: Option<Response>)
    ensures
        r matches Some(m) ==> b@ == spec_encode_response(m@) && spec_response_wf(m@),
        forall|v: ResponseV|
            spec_response_wf(v) && b@ == spec_encode_response(v) ==> (r matches Some(m) && m@
                == v),
{
    let ghost gb = b@;
    let head = decode_response_head(b);
    if head.is_none() {
        return None;
    }
    let (rt, succ, error_message, data, p4) = head.unwrap();
    let details: Option<Details>;
    let p5: usize;
    if p4 == b.len() {
        details = None;
        p5 = p4;
        proof {
            assert forall|v: ResponseV|
                spec_response_wf(v) && gb == spec_encode_response(v) implies v.details
                is None by {
                if v.details is Some {
                    lemma_varint_len(
                        match v.details {
                            Option::Some(DetailsV::FileInfo(fi)) => spec_encode_file_info(
                                fi,
                            ).len() as u64,
                            Option::Some(DetailsV::DirectoryListing(es)) => spec_encode_entries(
                                es,
                            ).len() as u64,
                            Option::None => 0,
                        },
                    );
                    assert(spec_encode_details(v.details).len() >= 2);
                }
            }
        }
    } else if b[p4] == 0x2a {
        let fi_field = read_field_bytes(b, p4, 0x2a);
        if fi_field.is_none() {
            proof {
                assert forall|v: ResponseV|
                    !(spec_response_wf(v) && gb == spec_encode_response(v)) by {
                    if spec_response_wf(v) && gb == spec_encode_response(v) {
                        details_case_facts(gb, v, p4 as int);
                    }
                }
            }
            return None;
        }
        let (body, fi_end) = fi_field.unwrap();
        let fi = decode_file_info(body.as_slice());
        if fi.is_none() || fi_end != b.len() {
            proof {
                assert forall|v: ResponseV|
                    !(spec_response_wf(v) && gb == spec_encode_response(v)) by {
                    if spec_response_wf(v) && gb == spec_encode_response(v) {
                        details_case_facts(gb, v, p4 as int);
                        match v.details {
                            Option::Some(DetailsV::FileInfo(w)) => {
                                lemma_field_bytes_unique(
                                    gb,
                                    p4 as int,
                                    0x2a,
                                    body@,
                                    spec_encode_file_info(w),
                                );
                            },
                            _ => {},
                        }
                    }
                }
            }
            return None;
        }
        details = Some(Details::FileInfo(fi.unwrap()));
        p5 = fi_end;
    } else if b[p4] == 0x32 {
        let dl_field = read_field_bytes(b, p4, 0x32);
        if dl_field.is_none() {
            proof {
                assert forall|v: ResponseV|
                    !(spec_response_wf(v) && gb == spec_encode_response(v)) by {
                    if spec_response_wf(v) && gb == spec_encode_response(v) {
                        details_case_facts(gb, v, p4 as int);
                    }
                }
            }
            return None;
        }
        let (body, dl_end) = dl_field.unwrap();
        let es = decode_entries(body.as_slice());
        if es.is_none() || dl_end != b.len() {
            proof {
                assert forall|v: ResponseV|
                    !(spec_response_wf(v) && gb == spec_encode_response(v)) by {
                    if spec_response_wf(v) && gb == spec_encode_response(v) {
                        details_case_facts(gb, v, p4 as int);
                        match v.details {
                            Option::Some(DetailsV::DirectoryListing(w)) => {
                                lemma_field_bytes_unique(
                                    gb,
                                    p4 as int,
                                    0x32,
                                    body@,
                                    spec_encode_entries(w),
                                );
                            },
                            _ => {},
                        }
                    }
                }
            }
            return None;
        }
        details = Some(Details::DirectoryListing(DirectoryListing { entries: es.unwrap() }));
        p5 = dl_end;
    } else {
        proof {
            assert forall|v: ResponseV| !(spec_response_wf(v) && gb == spec_encode_response(v)) by {
                if spec_response_wf(v) && gb == spec_encode_response(v) {
                    details_case_facts(gb, v, p4 as int);
                }
            }
        }
        return None;
    }
    let result = Response {
        rtype: rt as u32 as i32,
        success: succ == 1,
        error_message,
        data,
        details,
    };
    proof {
        let ed = spec_encode_details(spec_details_view(result.details));
        assert(result.rtype as u32 as u64 == rt) by {
            lemma_u32_cast_roundtrip(rt);
        }
        assert((if result.success {
            1u64
        } else {
            0u64
        }) == succ);
        assert(gb.subrange(0, p4 as int) == spec_response_head(
            result.rtype as u32 as u64,
            if result.success {
                1
            } else {
                0
            },
            result.error_message@,
            result.data@,
        ));
        assert(gb.subrange(p4 as int, gb.len() as int) =~= ed) by {
            match result.details {
                Option::None => {
                    assert(p5 == p4 == gb.len());
                },
                Option::Some(Details::FileInfo(ref fi)) => {
                    assert(spec_details_view(result.details) == Option::Some(
                        DetailsV::FileInfo(fi@),
                    ));
                },
                Option::Some(Details::DirectoryListing(ref dl)) => {
                    assert(spec_details_view(result.details) == Option::Some(
                        DetailsV::DirectoryListing(dl@),
                    ));
                },
            }
        }
        assert(gb =~= gb.subrange(0, p4 as int) + gb.subrange(p4 as int, gb.len() as int));
        assert(spec_encode_response(result@) == spec_response_head(
            result.rtype as u32 as u64,
            if result.success {
                1
            } else {
                0
            },
            result.error_message@,
            result.data@,
        ) + ed);
        assert(gb == spec_encode_response(result@));
        assert(spec_response_wf(result@));
        assert forall|v: ResponseV|
            spec_response_wf(v) && gb == spec_encode_response(v) implies result@ == v by {
            assert(result.rtype == v.rtype) by {
                lemma_i32_cast_roundtrip(v.rtype);
            }
            assert(result.success == v.success);
            assert(result.error_message@ == v.error_message);
            assert(result.data@ == v.data);
            assert(gb.subrange(p4 as int, gb.len() as int) == spec_encode_details(v.details));
            assert(spec_details_view(result.details) == v.details) by {
                details_match(gb, v, p4 as int, result.details);
            }
            assert(result@ =~= v);
        }
    }
    Some(result)
}

/// For any witness response, its details encoding fills the tail of `b`
/// beginning at `pos`, and the first tail byte reveals which case it is.
proof fn details_case_facts(b: Seq<u8>, v: ResponseV, pos: int)
    requires
        spec_response_wf(v),
        b == spec_encode_response(v),
        b.subrange(pos, b.len() as int) == spec_encode_details(v.details),
        b.len() == pos + spec_encode_details(v.details).len(),
        0 <= pos,
    ensures
        v.details is None ==> pos == b.len(),
        v.details matches Some(DetailsV::FileInfo(fi)) ==> field_bytes_at(
            b,
            pos,
            0x2a,
            spec_encode_file_info(fi),
        ) && pos + spec_field_bytes(0x2a, spec_encode_file_info(fi)).len() == b.len(),
        v.details matches Some(DetailsV::DirectoryListing(es)) ==> field_bytes_at(
            b,
            pos,
            0x32,
            spec_encode_entries(es),
        ) && pos + spec_field_bytes(0x32, spec_encode_entries(es)).len() == b.len(),
{
    let tail = b.subrange(pos, b.len() as int);
    match v.details {
        Option::None => {},
        Option::Some(DetailsV::FileInfo(fi)) => {
            assert(b =~= b.subrange(0, pos) + spec_field_bytes(0x2a, spec_encode_file_info(fi))
                + Seq::<u8>::empty());
            lemma_field_bytes_here(
                b,
                b.subrange(0, pos),
                0x2a,
                spec_encode_file_info(fi),
                Seq::<u8>::empty(),
            );
        },
        Option::Some(DetailsV::DirectoryListing(es)) => {
            assert(b =~= b.subrange(0, pos) + spec_field_bytes(0x32, spec_encode_entries(es))
                + Seq::<u8>::empty());
            lemma_field_bytes_here(
                b,
                b.subrange(0, pos),
                0x32,
                spec_encode_entries(es),
                Seq::<u8>::empty(),
            );
        },
    }
}

/// The decoded details agree with any witness whose encoding fills the tail.
proof fn details_match(b: Seq<u8>, v: ResponseV, pos: int, d: Option<Details>)
    requires
        spec_response_wf(v),
        b == spec_encode_response(v),
        b.subrange(pos, b.len() as int) == spec_encode_details(v.details),
        b.len() == pos + spec_encode_details(v.details).len(),
        0 <= pos <= b.len(),
        b.subrange(pos, b.len() as int) == spec_encode_details(spec_details_view(d)),
        b.len() == pos + spec_encode_details(spec_details_view(d)).len(),
        spec_details_wf(spec_details_view(d)),
    ensures
        spec_details_view(d) == v.details,
{
    details_case_facts(b, v, pos);
    let dv = spec_details_view(d);
    match dv {
        Option::None => {
            assert(pos == b.len());
            if v.details matches Some(w) {
                lemma_varint_len(0);
                assert(spec_encode_details(v.details).len() >= 2);
            }
        },
        Option::Some(DetailsV::FileInfo(fi)) => {
            assert(b =~= b.subrange(0, pos) + spec_field_bytes(0x2a, spec_encode_file_info(fi))
                + Seq::<u8>::empty());
            lemma_field_bytes_here(
                b,
                b.subrange(0, pos),
                0x2a,
                spec_encode_file_info(fi),
                Seq::<u8>::empty(),
            );
            match v.details {
                Option::None => {
                    assert(false);
                },
                Option::Some(DetailsV::FileInfo(w)) => {
                    lemma_field_bytes_unique(
                        b,
                        pos,
                        0x2a,
                        spec_encode_file_info(fi),
                        spec_encode_file_info(w),
                    );
                    assert(fi == w) by {
                        assert(spec_encode_file_info(fi) == spec_encode_file_info(w));
                        file_info_eq_from_encoding(fi, w);
                    }
                },
                Option::Some(DetailsV::DirectoryListing(w)) => {
                    assert(b[pos] == 0x2a && b[pos] == 0x32);
                    assert(false);
                },
            }
        },
        Option::Some(DetailsV::DirectoryListing(es)) => {
            assert(b =~= b.subrange(0, pos) + spec_field_bytes(0x32, spec_encode_entries(es))
                + Seq::<u8>::empty());
            lemma_field_bytes_here(
                b,
                b.subrange(0, pos),
                0x32,
                spec_encode_entries(es),
                Seq::<u8>::empty(),
            );
            match v.details {
                Option::None => {
                    assert(false);
                },
                Option::Some(DetailsV::FileInfo(w)) => {
                    assert(b[pos] == 0x32 && b[pos] == 0x2a);
                    assert(false);
                },
                Option::Some(DetailsV::DirectoryListing(w)) => {
                    lemma_field_bytes_unique(
                        b,
                        pos,
                        0x32,
                        spec_encode_entries(es),
                        spec_encode_entries(w),
                    );
                    entries_eq_from_encoding(es, w);
                },
            }
        },
    }
}

/// Two well-formed records with the same encoding are the same record.
proof fn file_info_eq_from_encoding(a: FileInfoV, c: FileInfoV)
    requires
        spec_file_info_wf(a),
        spec_file_info_wf(c),
        spec_encode_file_info(a) == spec_encode_file_info(c),
    ensures
        a == c,
{
    let b = spec_encode_file_info(a);
    lemma_file_info_fields(b, a);
    lemma_file_info_fields(b, c);
    lemma_field_bytes_unique(b, 0, 0x0a, a.name, c.name);
    let o1 = spec_field_bytes(0x0a, a.name).len() as int;
    lemma_varint_unique(b, o1 + 1, a.size, c.size);
    let o2 = o1 + spec_field_varint(0x10, a.size).len();
    lemma_varint_unique(
        b,
        o2 + 1,
        if a.is_directory {
            1
        } else {
            0
        },
        if c.is_directory {
            1
        } else {
            0
        },
    );
    let o3 = o2 + spec_field_varint(
        0x18,
        if a.is_directory {
            1
        } else {
            0
        },
    ).len();
    lemma_varint_unique(b, o3 + 1, a.modified_time, c.modified_time);
    let o4 = o3 + spec_field_varint(0x20, a.modified_time).len();
    lemma_varint_unique(b, o4 + 1, a.permissions as u64, c.permissions as u64);
    assert(a =~= c);
}

/// Two well-formed entry lists with the same encoding are the same list.
proof fn entries_eq_from_encoding(a: Seq<FileInfoV>, c: Seq<FileInfoV>)
    requires
        spec_entries_wf(a),
        spec_entries_wf(c),
        spec_encode_entries(a) == spec_encode_entries(c),
    ensures
        a == c,
    decreases a.len(),
{
    let b = spec_encode_entries(a);
    lemma_entries_nonempty(a);
    lemma_entries_nonempty(c);
    if a.len() == 0 && c.len() == 0 {
        assert(a =~= c);
    } else if a.len() == 0 || c.len() == 0 {
        assert(false);
    } else {
        lemma_entries_head(b, a);
        lemma_entries_head(b, c);
        lemma_field_bytes_unique(b, 0, 0x0a, spec_encode_file_info(a[0]), spec_encode_file_info(
            c[0],
        ));
        file_info_eq_from_encoding(a[0], c[0]);
        let flen = spec_field_bytes(0x0a, spec_encode_file_info(a[0])).len() as int;
        assert(spec_encode_entries(a.drop_first()) == spec_encode_entries(c.drop_first()));
        entries_eq_from_encoding(a.drop_first(), c.drop_first());
        assert(a =~= c) by {
            assert(a.len() == c.len());
            assert forall|i: int| 0 <= i < a.len() implies a[i] == c[i] by {
                if i > 0 {
                    assert(a[i] == a.drop_first()[i - 1]);
                    assert(c[i] == c.drop_first()[i - 1]);
                }
            }
        }
    }
}

impl Request {
    /// Parses a request.  Exactly the canonical encodings of well-formed
    /// requests are accepted; anything else is a `SerializationError`.
    pub fn from_bytes(data: &[u8]) -> (r: FenrisResult<Request>)
        ensures
            r matches Ok(m) ==> data@ == spec_encode_request(m@) && spec_request_wf(m@),
            forall|v: RequestV|
                spec_request_wf(v) && data@ == spec_encode_request(v) ==> (r matches Ok(m) && m@
                    == v),
            r matches Err(e) ==> (e matches FenrisError::SerializationError(s) && s@
                == "invalid wire encoding"@),
    {
        match decode_request(data) {
            Some(m) => Ok(m),
            None => Err(
                FenrisError::SerializationError(String::from_str("invalid wire encoding")),
            ),
        }
    }
}

impl Response {
    /// Parses a response.  Exactly the canonical encodings of well-formed
    /// responses are accepted; anything else is a `SerializationError`.
    pub fn from_bytes(data: &[u8]) -> (r: FenrisResult<Response>)
        ensures
            r matches Ok(m) ==> data@ == spec_encode_response(m@) && spec_response_wf(m@),
            forall|v: ResponseV|
                spec_response_wf(v) && data@ == spec_encode_response(v) ==> (r matches Ok(m) && m@
                    == v),
            r matches Err(e) ==> (e matches FenrisError::SerializationError(s) && s@
                == "invalid wire encoding"@),
    {
        match decode_response(data) {
            Some(m) => Ok(m),
            None => Err(
                FenrisError::SerializationError(String::from_str("invalid wire encoding")),
            ),
        }
    }
}

} // verus!


//! The per-client request handler: a typed request plus the session's
//! current directory map to a typed response, through the sandboxed file
//! operations.
//!
//! Path resolution and response construction are exact; what the
//! filesystem answers is the trait implementation's business, and the
//! contracts here hold for every answer it can give.

use vstd::prelude::*;
use vstd::string::StringSliceAdditionalSpecFns;
use vstd::string::StrSliceExecFns;
use crate::error::{FenrisError, lemma_error_message_nonempty, push_bytes};
use crate::file_ops::{FileOperations, SEP};
use crate::proto::{
    Details, DirectoryListing, FileInfo, FileInfoV, Request, RequestType, Response, ResponseType,
    ResponseV, spec_entries_view, spec_request_type_from,
};
use crate::text::{spec_dec_bytes, u64_to_dec_bytes};

verus! {

// ---------------------------------------------------------------------------
// Response shapes
// ---------------------------------------------------------------------------

/// Every response a handler produces: a failed response always carries a
/// message and nothing else.
pub open spec fn spec_response_invariant(m: ResponseV) -> bool {
    !m.success ==> m.error_message.len() > 0 && m.data.len() == 0 && m.details is None
}

pub open spec fn spec_pong_response() -> ResponseV {
    ResponseV {
        rtype: 0,
        success: true,
        error_message: Seq::empty(),
        data: Seq::empty(),
        details: None,
    }
}

pub open spec fn spec_success_response(data: Seq<u8>) -> ResponseV {
    ResponseV { rtype: 1, success: true, error_message: Seq::empty(), data, details: None }
}

pub open spec fn spec_changed_dir_response(dir: Seq<u8>) -> ResponseV {
    ResponseV { rtype: 2, success: true, error_message: Seq::empty(), data: dir, details: None }
}

pub open spec fn spec_file_content_response(data: Seq<u8>) -> ResponseV {
    ResponseV { rtype: 3, success: true, error_message: Seq::empty(), data, details: None }
}

pub open spec fn spec_file_info_response(fi: FileInfoV) -> ResponseV {
    ResponseV {
        rtype: 4,
        success: true,
        error_message: Seq::empty(),
        data: Seq::empty(),
        details: Some(crate::proto::DetailsV::FileInfo(fi)),
    }
}

pub open spec fn spec_dir_listing_response(entries: Seq<FileInfoV>) -> ResponseV {
    ResponseV {
        rtype: 5,
        success: true,
        error_message: Seq::empty(),
        data: Seq::empty(),
        details: Some(crate::proto::DetailsV::DirectoryListing(entries)),
    }
}

pub open spec fn spec_error_response(message: Seq<u8>) -> ResponseV {
    ResponseV {
        rtype: 6,
        success: false,
        error_message: message,
        data: Seq::empty(),
        details: None,
    }
}

pub open spec fn spec_terminated_response() -> ResponseV {
    ResponseV {
        rtype: 7,
        success: true,
        error_message: Seq::empty(),
        data: Seq::empty(),
        details: None,
    }
}

// ---------------------------------------------------------------------------
// Status messages
// ---------------------------------------------------------------------------

pub open spec fn spec_created_msg(path: Seq<u8>) -> Seq<u8> {
    "File created: ".spec_bytes() + path
}

pub open spec fn spec_written_msg(n: nat) -> Seq<u8> {
    "File written: ".spec_bytes() + spec_dec_bytes(n) + " bytes".spec_bytes()
}

pub open spec fn spec_appended_msg(n: nat, path: Seq<u8>) -> Seq<u8> {
    "Appended ".spec_bytes() + spec_dec_bytes(n) + " bytes to ".spec_bytes() + path
}

pub open spec fn spec_uploaded_msg(n: nat, path: Seq<u8>) -> Seq<u8> {
    "Uploaded ".spec_bytes() + spec_dec_bytes(n) + " bytes to ".spec_bytes() + path
}

pub open spec fn spec_deleted_msg(path: Seq<u8>) -> Seq<u8> {
    "File deleted: ".spec_bytes() + path
}

pub open spec fn spec_dir_created_msg(path: Seq<u8>) -> Seq<u8> {
    "Directory created: ".spec_bytes() + path
}

pub open spec fn spec_dir_deleted_msg(path: Seq<u8>) -> Seq<u8> {
    "Directory deleted: ".spec_bytes() + path
}

// ---------------------------------------------------------------------------
// Path resolution against the session's current directory
// ---------------------------------------------------------------------------

/// Joining a relative name under a directory.
pub open spec fn spec_join_rel(current: Seq<u8>, name: Seq<u8>) -> Seq<u8> {
    if current.len() > 0 && current.last() == SEP {
        current + name
    } else {
        current + seq![SEP] + name
    }
}

/// The handler's path rule: empty or `.` is the current directory, a
/// leading slash is absolute, anything else is joined under the current
/// directory.
pub open spec fn spec_resolve_request_path(path: Seq<u8>, current: Seq<u8>) -> Seq<u8> {
    if path.len() == 0 || path == seq![46u8] {
        current
    } else if path[0] == SEP {
        path
    } else {
        spec_join_rel(current, path)
    }
}

/// A path without its final segment and the separator before it.
pub open spec fn spec_drop_last_seg(p: Seq<u8>) -> Seq<u8>
    decreases p.len(),
{
    if p.len() == 0 {
        p
    } else if p.last() == SEP {
        p.drop_last()
    } else {
        spec_drop_last_seg(p.drop_last())
    }
}

/// The parent directory: one segment up, never above the root.
pub open spec fn spec_parent(p: Seq<u8>) -> Seq<u8> {
    if spec_drop_last_seg(p).len() == 0 {
        seq![SEP]
    } else {
        spec_drop_last_seg(p)
    }
}

/// Where `cd` goes: empty or `~` resets to the root, `.` stays, `..` goes
/// to the parent, an absolute path is taken as is, anything else is joined
/// under the current directory.
pub open spec fn spec_cd_target(current: Seq<u8>, name: Seq<u8>) -> Seq<u8> {
    if name.len() == 0 || name == seq![126u8] {
        seq![SEP]
    } else if name == seq![46u8] {
        current
    } else if name == seq![46u8, 46u8] {
        spec_parent(current)
    } else if name[0] == SEP {
        name
    } else {
        spec_join_rel(current, name)
    }
}

/// Appending separator-free bytes does not change where the last segment
/// starts.
pub proof fn lemma_drop_seg_append(p: Seq<u8>, name: Seq<u8>)
    requires
        forall|i: int| 0 <= i < name.len() ==> name[i] != SEP,
    ensures
        spec_drop_last_seg(p + name) == spec_drop_last_seg(p),
    decreases name.len(),
{
    if name.len() == 0 {
        assert(p + name =~= p);
    } else {
        assert((p + name).last() == name.last());
        assert((p + name).drop_last() =~= p + name.drop_last());
        lemma_drop_seg_append(p, name.drop_last());
    }
}

/// The current-directory machine walks back: `cd` into a plain name and
/// then `cd ..` is where it started, for any normalized absolute
/// directory.
pub proof fn lemma_cd_into_then_up(current: Seq<u8>, name: Seq<u8>)
    requires
        current.len() > 0,
        current[0] == SEP,
        current.len() == 1 || current.last() != SEP,
        name.len() > 0,
        forall|i: int| 0 <= i < name.len() ==> name[i] != SEP,
        name != seq![46u8],
        name != seq![46u8, 46u8],
        name != seq![126u8],
    ensures
        spec_cd_target(spec_cd_target(current, name), seq![46u8, 46u8]) == current,
{
    let target = spec_cd_target(current, name);
    assert(name[0] != SEP);
    assert(target == spec_join_rel(current, name));
    assert(!(seq![46u8, 46u8] =~= Seq::<u8>::empty()));
    assert(spec_cd_target(target, seq![46u8, 46u8]) == spec_parent(target));
    if current.len() == 1 {
        assert(current =~= seq![SEP]);
        assert(current.last() == SEP);
        assert(target == current + name);
        lemma_drop_seg_append(current, name);
        assert(spec_drop_last_seg(current) =~= Seq::<u8>::empty());
        assert(spec_parent(target) =~= current);
    } else {
        assert(target == current + seq![SEP] + name);
        assert(target =~= (current + seq![SEP]) + name);
        lemma_drop_seg_append(current + seq![SEP], name);
        assert((current + seq![SEP]).last() == SEP);
        assert(spec_drop_last_seg(current + seq![SEP]) =~= current);
        assert(spec_parent(target) == current);
    }
}

// ---------------------------------------------------------------------------
// The handler
// ---------------------------------------------------------------------------

/// Stateless except for the shared sandboxed file-operations handle.
pub struct RequestHandler<F: FileOperations> {
    pub file_ops: F,
}

impl<F: FileOperations> RequestHandler<F> {
    pub fn new(file_ops: F) -> (r: RequestHandler<F>)
        ensures
            r.file_ops == file_ops,
    {
        RequestHandler { file_ops }
    }

    /// Resolves a request path against the session's current directory.
    pub fn resolve_path(&self, path: &[u8], current_dir: &[u8]) -> (r: Vec<u8>)
        ensures
            r@ == spec_resolve_request_path(path@, current_dir@),
    {
        if path.len() == 0 || (path.len() == 1 && path[0] == 46) {
            proof {
                if path@.len() == 1 {
                    assert(path@ =~= seq![46u8]);
                }
            }
            vstd::slice::slice_to_vec(current_dir)
        } else if path[0] == SEP {
            vstd::slice::slice_to_vec(path)
        } else {
            proof {
                assert(!(path@ == seq![46u8])) by {
                    if path@ == seq![46u8] {
                        assert(path@[0] == 46u8);
                    }
                }
            }
            join_rel(current_dir, path)
        }
    }

    /// An error reply: type `Error`, no data, the given message.
    pub fn error_response(&self, message: &str) -> (r: Response)
        ensures
            r@ == spec_error_response(message.spec_bytes()),
    {
        Response {
            rtype: 6,
            success: false,
            error_message: message.as_bytes_vec(),
            data: Vec::new(),
            details: None,
        }
    }
}

impl<F: FileOperations> RequestHandler<F> {
    fn handle_ping(&self) -> (r: Response)
        ensures
            r@ == spec_pong_response(),
    {
        Response {
            rtype: 0,
            success: true,
            error_message: Vec::new(),
            data: Vec::new(),
            details: None,
        }
    }

    fn handle_create_file(&self, filename: &[u8], current_dir: &[u8]) -> (r: Result<
        Response,
        FenrisError,
    >)
        ensures
            r matches Ok(resp) ==> resp@ == spec_success_response(
                spec_created_msg(spec_resolve_request_path(filename@, current_dir@)),
            ),
    {
        let path = self.resolve_path(filename, current_dir);
        match self.file_ops.create_file(path.as_slice()) {
            Ok(_) => {
                let mut data = "File created: ".as_bytes_vec();
                push_bytes(&mut data, path.as_slice());
                Ok(success_response(data))
            },
            Err(e) => Err(e),
        }
    }

    fn handle_read_file(&self, filename: &[u8], current_dir: &[u8]) -> (r: Result<
        Response,
        FenrisError,
    >)
        ensures
            r matches Ok(resp) ==> exists|d: Seq<u8>|
                resp@ == #[trigger] spec_file_content_response(d),
    {
        let path = self.resolve_path(filename, current_dir);
        match self.file_ops.read_file(path.as_slice()) {
            Ok(data) => {
                let resp = Response {
                    rtype: 3,
                    success: true,
                    error_message: Vec::new(),
                    data,
                    details: None,
                };
                proof {
                    assert(resp@ == spec_file_content_response(resp.data@));
                }
                Ok(resp)
            },
            Err(e) => Err(e),
        }
    }

    fn handle_write_file(&self, filename: &[u8], data: &[u8], current_dir: &[u8]) -> (r: Result<
        Response,
        FenrisError,
    >)
        ensures
            r matches Ok(resp) ==> resp@ == spec_success_response(
                spec_written_msg(data@.len()),
            ),
    {
        let path = self.resolve_path(filename, current_dir);
        match self.file_ops.write_file(path.as_slice(), data) {
            Ok(_) => {
                let mut msg = "File written: ".as_bytes_vec();
                let mut n = u64_to_dec_bytes(data.len() as u64);
                msg.append(&mut n);
                push_bytes(&mut msg, " bytes".as_bytes());
                Ok(success_response(msg))
            },
            Err(e) => Err(e),
        }
    }

    fn handle_delete_file(&self, filename: &[u8], current_dir: &[u8]) -> (r: Result<
        Response,
        FenrisError,
    >)
        ensures
            r matches Ok(resp) ==> resp@ == spec_success_response(
                spec_deleted_msg(spec_resolve_request_path(filename@, current_dir@)),
            ),
    {
        let path = self.resolve_path(filename, current_dir);
        match self.file_ops.delete_file(path.as_slice()) {
            Ok(_) => {
                let mut data = "File deleted: ".as_bytes_vec();
                push_bytes(&mut data, path.as_slice());
                Ok(success_response(data))
            },
            Err(e) => Err(e),
        }
    }

    fn handle_append_file(&self, filename: &[u8], data: &[u8], current_dir: &[u8]) -> (r: Result<
        Response,
        FenrisError,
    >)
        ensures
            r matches Ok(resp) ==> resp@ == spec_success_response(
                spec_appended_msg(
                    data@.len(),
                    spec_resolve_request_path(filename@, current_dir@),
                ),
            ),
    {
        let path = self.resolve_path(filename, current_dir);
        match self.file_ops.append_file(path.as_slice(), data) {
            Ok(_) => {
                let mut msg = "Appended ".as_bytes_vec();
                let mut n = u64_to_dec_bytes(data.len() as u64);
                msg.append(&mut n);
                push_bytes(&mut msg, " bytes to ".as_bytes());
                push_bytes(&mut msg, path.as_slice());
                Ok(success_response(msg))
            },
            Err(e) => Err(e),
        }
    }

    fn handle_upload(&self, filename: &[u8], data: &[u8], current_dir: &[u8]) -> (r: Result<
        Response,
        FenrisError,
    >)
        ensures
            r matches Ok(resp) ==> resp@ == spec_success_response(
                spec_uploaded_msg(
                    data@.len(),
                    spec_resolve_request_path(filename@, current_dir@),
                ),
            ),
    {
        let path = self.resolve_path(filename, current_dir);
        match self.file_ops.write_file(path.as_slice(), data) {
            Ok(_) => {
                let mut msg = "Uploaded ".as_bytes_vec();
                let mut n = u64_to_dec_bytes(data.len() as u64);
                msg.append(&mut n);
                push_bytes(&mut msg, " bytes to ".as_bytes());
                push_bytes(&mut msg, path.as_slice());
                Ok(success_response(msg))
            },
            Err(e) => Err(e),
        }
    }

    fn handle_file_info(&self, filename: &[u8], current_dir: &[u8]) -> (r: Result<
        Response,
        FenrisError,
    >)
        ensures
            r matches Ok(resp) ==> exists|fi: FileInfoV|
                resp@ == #[trigger] spec_file_info_response(fi),
    {
        let path = self.resolve_path(filename, current_dir);
        match self.file_ops.file_info(path.as_slice()) {
            Ok(meta) => {
                let fi = FileInfo {
                    name: meta.name,
                    size: meta.size,
                    is_directory: meta.is_directory,
                    modified_time: meta.modified_time,
                    permissions: meta.permissions,
                };
                let resp = Response {
                    rtype: 4,
                    success: true,
                    error_message: Vec::new(),
                    data: Vec::new(),
                    details: Some(Details::FileInfo(fi)),
                };
                proof {
                    let witness = resp.details->Some_0->FileInfo_0@;
                    assert(resp@ == spec_file_info_response(witness));
                }
                Ok(resp)
            },
            Err(e) => Err(e),
        }
    }

    fn handle_create_dir(&self, dirname: &[u8], current_dir: &[u8]) -> (r: Result<
        Response,
        FenrisError,
    >)
        ensures
            r matches Ok(resp) ==> resp@ == spec_success_response(
                spec_dir_created_msg(spec_resolve_request_path(dirname@, current_dir@)),
            ),
    {
        let path = self.resolve_path(dirname, current_dir);
        match self.file_ops.create_dir(path.as_slice()) {
            Ok(_) => {
                let mut data = "Directory created: ".as_bytes_vec();
                push_bytes(&mut data, path.as_slice());
                Ok(success_response(data))
            },
            Err(e) => Err(e),
        }
    }

    fn handle_list_dir(&self, dirname: &[u8], current_dir: &[u8]) -> (r: Result<
        Response,
        FenrisError,
    >)
        ensures
            r matches Ok(resp) ==> exists|es: Seq<FileInfoV>|
                resp@ == #[trigger] spec_dir_listing_response(es),
    {
        let path = self.resolve_path(dirname, current_dir);
        match self.file_ops.list_dir(path.as_slice()) {
            Ok(entries) => {
                let mut file_entries: Vec<FileInfo> = Vec::new();
                let mut i: usize = 0;
                while i < entries.len()
                    invariant
                        i <= entries@.len(),
                    decreases entries@.len() - i,
                {
                    let meta = &entries[i];
                    file_entries.push(
                        FileInfo {
                            name: vstd::slice::slice_to_vec(meta.name.as_slice()),
                            size: meta.size,
                            is_directory: meta.is_directory,
                            modified_time: meta.modified_time,
                            permissions: meta.permissions,
                        },
                    );
                    i = i + 1;
                }
                let resp = Response {
                    rtype: 5,
                    success: true,
                    error_message: Vec::new(),
                    data: Vec::new(),
                    details: Some(
                        Details::DirectoryListing(DirectoryListing { entries: file_entries }),
                    ),
                };
                proof {
                    let witness = spec_entries_view(file_entries@);
                    assert(resp@ == spec_dir_listing_response(witness));
                }
                Ok(resp)
            },
            Err(e) => Err(e),
        }
    }

    fn handle_delete_dir(&self, dirname: &[u8], current_dir: &[u8]) -> (r: Result<
        Response,
        FenrisError,
    >)
        ensures
            r matches Ok(resp) ==> resp@ == spec_success_response(
                spec_dir_deleted_msg(spec_resolve_request_path(dirname@, current_dir@)),
            ),
    {
        let path = self.resolve_path(dirname, current_dir);
        match self.file_ops.delete_dir(path.as_slice()) {
            Ok(_) => {
                let mut data = "Directory deleted: ".as_bytes_vec();
                push_bytes(&mut data, path.as_slice());
                Ok(success_response(data))
            },
            Err(e) => Err(e),
        }
    }

    /// The current-directory step: resolves the target by the `cd` rule,
    /// moves there when the target is a directory, and reports
    /// "Not a directory" without moving otherwise.
    pub fn handle_change_dir(&self, dirname: &[u8], current_dir: &mut Vec<u8>) -> (r: Result<
        Response,
        FenrisError,
    >)
        ensures
            match r {
                Ok(resp) => final(current_dir)@ == spec_cd_target(old(current_dir)@, dirname@)
                    && resp@ == spec_changed_dir_response(final(current_dir)@),
                Err(e) => final(current_dir)@ == old(current_dir)@ && (
                e matches FenrisError::FileOperationError(s) && s@ == "Not a directory"@),
            },
    {
        let target: Vec<u8>;
        if dirname.len() == 0 || (dirname.len() == 1 && dirname[0] == 126) {
            proof {
                if dirname@.len() == 1 {
                    assert(dirname@ =~= seq![126u8]);
                }
            }
            let mut root: Vec<u8> = Vec::new();
            root.push(SEP);
            proof {
                assert(root@ =~= seq![SEP]);
            }
            target = root;
        } else if dirname.len() == 1 && dirname[0] == 46 {
            proof {
                assert(dirname@ =~= seq![46u8]);
            }
            target = vstd::slice::slice_to_vec(current_dir.as_slice());
        } else if dirname.len() == 2 && dirname[0] == 46 && dirname[1] == 46 {
            proof {
                assert(dirname@ =~= seq![46u8, 46u8]);
                assert(!(dirname@ == seq![126u8]) && !(dirname@ == seq![46u8]));
            }
            target = parent_dir(current_dir.as_slice());
        } else if dirname[0] == SEP {
            proof {
                assert(!(dirname@ == seq![126u8])) by {
                    if dirname@ == seq![126u8] {
                        assert(dirname@[0] == 126u8);
                    }
                }
                assert(!(dirname@ == seq![46u8])) by {
                    if dirname@ == seq![46u8] {
                        assert(dirname@[0] == 46u8);
                    }
                }
                assert(!(dirname@ == seq![46u8, 46u8])) by {
                    if dirname@ == seq![46u8, 46u8] {
                        assert(dirname@[0] == 46u8);
                    }
                }
            }
            target = vstd::slice::slice_to_vec(dirname);
        } else {
            proof {
                assert(!(dirname@ == seq![126u8])) by {
                    if dirname@ == seq![126u8] {
                        assert(dirname@.len() == 1 && dirname@[0] == 126u8);
                    }
                }
                assert(!(dirname@ == seq![46u8])) by {
                    if dirname@ == seq![46u8] {
                        assert(dirname@.len() == 1 && dirname@[0] == 46u8);
                    }
                }
                assert(!(dirname@ == seq![46u8, 46u8])) by {
                    if dirname@ == seq![46u8, 46u8] {
                        assert(dirname@.len() == 2 && dirname@[0] == 46u8 && dirname@[1]
                            == 46u8);
                    }
                }
            }
            target = join_rel(current_dir.as_slice(), dirname);
        }
        proof {
            assert(target@ == spec_cd_target(current_dir@, dirname@));
        }
        if !self.file_ops.is_dir(target.as_slice()) {
            return Err(FenrisError::FileOperationError(String::from_str("Not a directory")));
        }
        let echoed = vstd::slice::slice_to_vec(target.as_slice());
        *current_dir = target;
        Ok(
            Response {
                rtype: 2,
                success: true,
                error_message: Vec::new(),
                data: echoed,
                details: None,
            },
        )
    }

    /// Maps one request and the session's current directory to a response.
    /// Unknown commands and failed operations become `Error` replies; only
    /// a successful `ChangeDir` moves the current directory.
    pub fn process_request(&self, client_id: u64, request: &Request, current_dir: &mut Vec<u8>)
        -> (r: Response)
        ensures
            spec_response_invariant(r@),
            !r@.success ==> r@.rtype == 6 && final(current_dir)@ == old(current_dir)@,
            spec_request_type_from(request.command as int) is None ==> r@ == spec_error_response(
                "Invalid request type".spec_bytes(),
            ),
            spec_request_type_from(request.command as int) matches Some(k) ==> match k {
                RequestType::Ping => r@ == spec_pong_response() && final(current_dir)@ == old(
                    current_dir,
                )@,
                RequestType::Terminate => r@ == spec_error_response(
                    "Invalid request: ".spec_bytes()
                        + "Terminate request should be handled separately".spec_bytes(),
                ),
                RequestType::ChangeDir => {
                    &&& r@.success ==> final(current_dir)@ == spec_cd_target(
                        old(current_dir)@,
                        request.filename@,
                    ) && r@ == spec_changed_dir_response(final(current_dir)@)
                    &&& !r@.success ==> r@ == spec_error_response(
                        "File operation failed: ".spec_bytes() + "Not a directory".spec_bytes(),
                    )
                },
                RequestType::CreateFile => final(current_dir)@ == old(current_dir)@ && (r@.success
                    ==> r@ == spec_success_response(
                    spec_created_msg(
                        spec_resolve_request_path(request.filename@, old(current_dir)@),
                    ),
                )),
                RequestType::ReadFile => final(current_dir)@ == old(current_dir)@ && (r@.success
                    ==> exists|d: Seq<u8>| r@ == #[trigger] spec_file_content_response(d)),
                RequestType::WriteFile => final(current_dir)@ == old(current_dir)@ && (r@.success
                    ==> r@ == spec_success_response(spec_written_msg(request.data@.len()))),
                RequestType::DeleteFile => final(current_dir)@ == old(current_dir)@ && (r@.success
                    ==> r@ == spec_success_response(
                    spec_deleted_msg(
                        spec_resolve_request_path(request.filename@, old(current_dir)@),
                    ),
                )),
                RequestType::AppendFile => final(current_dir)@ == old(current_dir)@ && (r@.success
                    ==> r@ == spec_success_response(
                    spec_appended_msg(
                        request.data@.len(),
                        spec_resolve_request_path(request.filename@, old(current_dir)@),
                    ),
                )),
                RequestType::UploadFile => final(current_dir)@ == old(current_dir)@ && (r@.success
                    ==> r@ == spec_success_response(
                    spec_uploaded_msg(
                        request.data@.len(),
                        spec_resolve_request_path(request.filename@, old(current_dir)@),
                    ),
                )),
                RequestType::InfoFile => final(current_dir)@ == old(current_dir)@ && (r@.success
                    ==> exists|fi: FileInfoV| r@ == #[trigger] spec_file_info_response(fi)),
                RequestType::CreateDir => final(current_dir)@ == old(current_dir)@ && (r@.success
                    ==> r@ == spec_success_response(
                    spec_dir_created_msg(
                        spec_resolve_request_path(request.filename@, old(current_dir)@),
                    ),
                )),
                RequestType::ListDir => final(current_dir)@ == old(current_dir)@ && (r@.success
                    ==> exists|es: Seq<FileInfoV>| r@ == #[trigger] spec_dir_listing_response(
                    es,
                )),
                RequestType::DeleteDir => final(current_dir)@ == old(current_dir)@ && (r@.success
                    ==> r@ == spec_success_response(
                    spec_dir_deleted_msg(
                        spec_resolve_request_path(request.filename@, old(current_dir)@),
                    ),
                )),
            },
    {
        let _ = client_id;
        let kind = match RequestType::from_i32(request.command) {
            Some(k) => k,
            None => {
                proof {
                    reveal_strlit("Invalid request type");
                }
                return self.error_response("Invalid request type");
            },
        };
        let outcome: Result<Response, FenrisError> = match kind {
            RequestType::Ping => Ok(self.handle_ping()),
            RequestType::CreateFile => self.handle_create_file(
                request.filename.as_slice(),
                current_dir.as_slice(),
            ),
            RequestType::ReadFile => self.handle_read_file(
                request.filename.as_slice(),
                current_dir.as_slice(),
            ),
            RequestType::WriteFile => self.handle_write_file(
                request.filename.as_slice(),
                request.data.as_slice(),
                current_dir.as_slice(),
            ),
            RequestType::DeleteFile => self.handle_delete_file(
                request.filename.as_slice(),
                current_dir.as_slice(),
            ),
            RequestType::AppendFile => self.handle_append_file(
                request.filename.as_slice(),
                request.data.as_slice(),
                current_dir.as_slice(),
            ),
            RequestType::UploadFile => self.handle_upload(
                request.filename.as_slice(),
                request.data.as_slice(),
                current_dir.as_slice(),
            ),
            RequestType::InfoFile => self.handle_file_info(
                request.filename.as_slice(),
                current_dir.as_slice(),
            ),
            RequestType::CreateDir => self.handle_create_dir(
                request.filename.as_slice(),
                current_dir.as_slice(),
            ),
            RequestType::ListDir => self.handle_list_dir(
                request.filename.as_slice(),
                current_dir.as_slice(),
            ),
            RequestType::DeleteDir => self.handle_delete_dir(
                request.filename.as_slice(),
                current_dir.as_slice(),
            ),
            RequestType::ChangeDir => self.handle_change_dir(
                request.filename.as_slice(),
                current_dir,
            ),
            RequestType::Terminate => Err(
                FenrisError::InvalidRequest(
                    String::from_str("Terminate request should be handled separately"),
                ),
            ),
        };
        match outcome {
            Ok(resp) => resp,
            Err(e) => {
                proof {
                    lemma_error_message_nonempty(&e);
                }
                let message = e.message_bytes();
                Response {
                    rtype: 6,
                    success: false,
                    error_message: message,
                    data: Vec::new(),
                    details: None,
                }
            },
        }
    }
}

/// A `Success` reply carrying a status message.
fn success_response(data: Vec<u8>) -> (r: Response)
    ensures
        r@ == spec_success_response(data@),
{
    Response { rtype: 1, success: true, error_message: Vec::new(), data, details: None }
}

/// Joins a relative name under a directory.
pub fn join_rel(current: &[u8], name: &[u8]) -> (r: Vec<u8>)
    ensures
        r@ == spec_join_rel(current@, name@),
{
    let mut out = vstd::slice::slice_to_vec(current);
    if !(current.len() > 0 && current[current.len() - 1] == SEP) {
        out.push(SEP);
    }
    push_bytes(&mut out, name);
    proof {
        if current@.len() > 0 && current@.last() == SEP {
            assert(out@ =~= current@ + name@);
        } else {
            assert(out@ =~= current@ + seq![SEP] + name@);
        }
    }
    out
}

/// The parent directory of an absolute path, never above the root.
pub fn parent_dir(current: &[u8]) -> (r: Vec<u8>)
    ensures
        r@ == spec_parent(current@),
{
    let mut k: usize = current.len();
    proof {
        assert(current@.take(k as int) =~= current@);
    }
    while k > 0 && current[k - 1] != SEP
        invariant
            k <= current@.len(),
            spec_drop_last_seg(current@) == spec_drop_last_seg(current@.take(k as int)),
        decreases k,
    {
        proof {
            assert(current@.take(k as int).drop_last() =~= current@.take(k - 1));
        }
        k = k - 1;
    }
    if k == 0 {
        proof {
            assert(current@.take(0) =~= Seq::<u8>::empty());
        }
        let mut root: Vec<u8> = Vec::new();
        root.push(SEP);
        proof {
            assert(root@ =~= seq![SEP]);
        }
        root
    } else {
        proof {
            assert(current@.take(k as int).drop_last() =~= current@.take(k - 1));
            assert(spec_drop_last_seg(current@) == current@.take(k - 1));
        }
        let r = vstd::slice::slice_to_vec(vstd::slice::slice_subrange(current, 0, k - 1));
        if r.len() == 0 {
            let mut root: Vec<u8> = Vec::new();
            root.push(SEP);
            proof {
                assert(root@ =~= seq![SEP]);
            }
            root
        } else {
            r
        }
    }
}

} // verus!


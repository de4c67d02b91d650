//! Building wire requests from the client's command line.
//!
//! A command is a byte string such as `write notes.txt hello world`: the
//! first word picks the request kind (case-insensitively), the rest are its
//! arguments.  An `upload` command needs the local file's bytes, which only
//! the caller can read; `build_upload_file` takes them as an argument.

use vstd::prelude::*;
use vstd::string::StringSliceAdditionalSpecFns;
use vstd::string::StrSliceExecFns;
use crate::error::{FenrisError, FenrisResult, push_bytes};
use crate::proto::{Request, RequestV};

verus! {

/// ASCII whitespace, as command words are separated.
pub open spec fn spec_is_space(b: u8) -> bool {
    b == 32 || b == 9 || b == 10 || b == 11 || b == 12 || b == 13
}

/// The whitespace-separated words of a byte string, in order.
pub open spec fn spec_words(s: Seq<u8>) -> Seq<Seq<u8>>
    decreases s.len(),
{
    if s.len() == 0 {
        Seq::empty()
    } else if spec_is_space(s.last()) {
        spec_words(s.drop_last())
    } else {
        let t = spec_words(s.drop_last());
        if s.len() >= 2 && !spec_is_space(s[s.len() - 2]) && t.len() > 0 {
            t.update(t.len() - 1, t.last().push(s.last()))
        } else {
            t.push(seq![s.last()])
        }
    }
}

/// ASCII letters lowered, all other bytes kept.
pub open spec fn spec_ascii_lower(s: Seq<u8>) -> Seq<u8> {
    Seq::new(
        s.len(),
        |i: int|
            if 65 <= s[i] <= 90 {
                (s[i] + 32) as u8
            } else {
                s[i]
            },
    )
}

/// Words re-joined with single spaces, as written payloads are formed.
pub open spec fn spec_join_words(ws: Seq<Seq<u8>>) -> Seq<u8>
    decreases ws.len(),
{
    if ws.len() == 0 {
        Seq::empty()
    } else if ws.len() == 1 {
        ws[0]
    } else {
        spec_join_words(ws.drop_last()) + seq![32u8] + ws.last()
    }
}

/// Splits a command into its words.
pub fn tokenize(s: &[u8]) -> (r: Vec<Vec<u8>>)
    ensures
        spec_segs_words_view(r@) == spec_words(s@),
{
    let mut words: Vec<Vec<u8>> = Vec::new();
    let mut cur: Vec<u8> = Vec::new();
    let mut i: usize = 0;
    proof {
        assert(s@.take(0) =~= Seq::<u8>::empty());
        assert(spec_segs_words_view(words@) =~= Seq::<Seq<u8>>::empty());
    }
    while i < s.len()
        invariant
            i <= s@.len(),
            cur@.len() == 0 ==> spec_words(s@.take(i as int)) == spec_segs_words_view(words@)
                && (i == 0 || spec_is_space(s@[i - 1])),
            cur@.len() > 0 ==> spec_words(s@.take(i as int)) == spec_segs_words_view(words@).push(
                cur@,
            ) && i > 0 && !spec_is_space(s@[i - 1]),
        decreases s@.len() - i,
    {
        let b = s[i];
        proof {
            assert(s@.take(i + 1).drop_last() =~= s@.take(i as int));
            assert(s@.take(i + 1).last() == b);
        }
        if b == 32 || b == 9 || b == 10 || b == 11 || b == 12 || b == 13 {
            if cur.len() > 0 {
                words.push(cur);
                cur = Vec::new();
                proof {
                    assert(spec_segs_words_view(words@) =~= spec_segs_words_view(
                        words@.drop_last(),
                    ).push(words@.last()@));
                }
            }
        } else {
            if cur.len() == 0 {
                cur.push(b);
                proof {
                    assert(cur@ =~= seq![b]);
                    let t = spec_words(s@.take(i as int));
                    assert(spec_words(s@.take(i + 1)) == t.push(seq![b]));
                }
            } else {
                cur.push(b);
                proof {
                    let t = spec_words(s@.take(i as int));
                    assert(t.len() > 0);
                    assert(spec_words(s@.take(i + 1)) == t.update(
                        t.len() - 1,
                        t.last().push(b),
                    ));
                    assert(spec_words(s@.take(i + 1)) =~= spec_segs_words_view(words@).push(
                        cur@,
                    ));
                }
            }
        }
        i = i + 1;
    }
    proof {
        assert(s@.take(s@.len() as int) =~= s@);
    }
    if cur.len() > 0 {
        words.push(cur);
        proof {
            assert(spec_segs_words_view(words@) =~= spec_segs_words_view(words@.drop_last()).push(
                words@.last()@,
            ));
        }
    }
    words
}

/// The views of a vector of word vectors.
pub open spec fn spec_segs_words_view(s: Seq<Vec<u8>>) -> Seq<Seq<u8>> {
    Seq::new(s.len(), |i: int| s[i]@)
}

/// Lowercases ASCII letters.
pub fn ascii_lower(s: &[u8]) -> (r: Vec<u8>)
    ensures
        r@ == spec_ascii_lower(s@),
{
    let mut out: Vec<u8> = Vec::new();
    let mut i: usize = 0;
    while i < s.len()
        invariant
            i <= s@.len(),
            out@ == spec_ascii_lower(s@).take(i as int),
        decreases s@.len() - i,
    {
        let b = s[i];
        if 65 <= b && b <= 90 {
            out.push(b + 32);
        } else {
            out.push(b);
        }
        proof {
            assert(out@ =~= spec_ascii_lower(s@).take(i + 1));
        }
        i = i + 1;
    }
    proof {
        assert(spec_ascii_lower(s@).take(s@.len() as int) =~= spec_ascii_lower(s@));
    }
    out
}

/// Joins words back with single spaces.
pub fn join_words(ws: &[Vec<u8>], from: usize) -> (r: Vec<u8>)
    requires
        from <= ws@.len(),
    ensures
        r@ == spec_join_words(spec_segs_words_view(ws@).skip(from as int)),
{
    let mut out: Vec<u8> = Vec::new();
    let mut i: usize = from;
    proof {
        assert(spec_segs_words_view(ws@).skip(from as int).take(0) =~= Seq::<Seq<u8>>::empty());
    }
    while i < ws.len()
        invariant
            from <= i <= ws@.len(),
            out@ == spec_join_words(
                spec_segs_words_view(ws@).skip(from as int).take(i - from),
            ),
        decreases ws@.len() - i,
    {
        if i > from {
            out.push(32);
        }
        push_bytes(&mut out, ws[i].as_slice());
        proof {
            let all = spec_segs_words_view(ws@).skip(from as int);
            let taken = all.take(i + 1 - from);
            assert(taken.drop_last() =~= all.take(i - from));
            assert(taken.last() == ws@[i as int]@);
            if i == from {
                assert(out@ =~= spec_join_words(taken));
            } else {
                assert(taken.len() >= 2);
                assert(out@ =~= spec_join_words(taken.drop_last()) + seq![32u8] + taken.last());
            }
        }
        i = i + 1;
    }
    proof {
        let all = spec_segs_words_view(ws@).skip(from as int);
        assert(all.take(ws@.len() - from) =~= all);
    }
    out
}

// ---------------------------------------------------------------------------
// Builders
// ---------------------------------------------------------------------------

/// A request with no payload.
pub open spec fn spec_plain_request(command: int, filename: Seq<u8>) -> RequestV {
    RequestV { command: command as i32, filename, ip_addr: 0, data: Seq::empty() }
}

/// A request carrying a payload.
pub open spec fn spec_data_request(command: int, filename: Seq<u8>, data: Seq<u8>) -> RequestV {
    RequestV { command: command as i32, filename, ip_addr: 0, data }
}

/// The requests `build_request` produces for a command line; `upload` is
/// absent because it needs the local file's bytes.
pub open spec fn spec_command_builds(command: Seq<u8>, m: RequestV) -> bool {
    let ws = spec_words(command);
    ws.len() > 0 && {
        let c = spec_ascii_lower(ws[0]);
        if c == "ping".spec_bytes() {
            m == spec_plain_request(0, Seq::empty())
        } else if c == "ls".spec_bytes() {
            m == spec_plain_request(
                1,
                if ws.len() >= 2 {
                    ws[1]
                } else {
                    ".".spec_bytes()
                },
            )
        } else if c == "cd".spec_bytes() {
            m == spec_plain_request(
                2,
                if ws.len() >= 2 {
                    ws[1]
                } else {
                    "~".spec_bytes()
                },
            )
        } else if c == "read".spec_bytes() {
            ws.len() >= 2 && m == spec_plain_request(3, ws[1])
        } else if c == "write".spec_bytes() {
            ws.len() >= 3 && m == spec_data_request(4, ws[1], spec_join_words(ws.skip(2)))
        } else if c == "create".spec_bytes() {
            ws.len() >= 2 && m == spec_plain_request(5, ws[1])
        } else if c == "rm".spec_bytes() {
            ws.len() >= 2 && m == spec_plain_request(6, ws[1])
        } else if c == "mkdir".spec_bytes() {
            ws.len() >= 2 && m == spec_plain_request(7, ws[1])
        } else if c == "rmdir".spec_bytes() {
            ws.len() >= 2 && m == spec_plain_request(8, ws[1])
        } else if c == "info".spec_bytes() {
            ws.len() >= 2 && m == spec_plain_request(9, ws[1])
        } else if c == "append".spec_bytes() {
            ws.len() >= 3 && m == spec_data_request(10, ws[1], spec_join_words(ws.skip(2)))
        } else {
            false
        }
    }
}

/// The command lines whose first word is no known verb (or that hold no
/// word at all); the other rejections lack required arguments.
pub open spec fn spec_command_unknown(command: Seq<u8>) -> bool {
    let ws = spec_words(command);
    ws.len() == 0 || {
        let c = spec_ascii_lower(ws[0]);
        !(c == "ping".spec_bytes() || c == "ls".spec_bytes() || c == "cd".spec_bytes() || c
            == "read".spec_bytes() || c == "write".spec_bytes() || c == "create".spec_bytes()
            || c == "rm".spec_bytes() || c == "mkdir".spec_bytes() || c == "rmdir".spec_bytes()
            || c == "info".spec_bytes() || c == "append".spec_bytes())
    }
}

/// The command lines `build_request` rejects.
pub open spec fn spec_command_rejected(command: Seq<u8>) -> bool {
    let ws = spec_words(command);
    ws.len() == 0 || {
        let c = spec_ascii_lower(ws[0]);
        if c == "ping".spec_bytes() || c == "ls".spec_bytes() || c == "cd".spec_bytes() {
            false
        } else if c == "read".spec_bytes() {
            ws.len() < 2
        } else if c == "write".spec_bytes() {
            ws.len() < 3
        } else if c == "create".spec_bytes() || c == "rm".spec_bytes() || c
            == "mkdir".spec_bytes() || c == "rmdir".spec_bytes() || c == "info".spec_bytes() {
            ws.len() < 2
        } else if c == "append".spec_bytes() {
            ws.len() < 3
        } else {
            true
        }
    }
}

/// Turns command lines into requests.
pub trait RequestBuilder: Sized {
    /// Which requests this builder may produce for a command line.  The
    /// default claims nothing; a verified builder overrides it.
    open spec fn builds(&self, command: Seq<u8>, m: RequestV) -> bool {
        true
    }

    /// Which command lines this builder turns away.  The default claims
    /// nothing; a verified builder overrides it.
    open spec fn rejects(&self, command: Seq<u8>) -> bool {
        false
    }

    /// Which rejected lines fail for an unknown verb; the rest lack
    /// required arguments.  The default pairs with the defaults above.
    open spec fn rejects_unknown(&self, command: Seq<u8>) -> bool {
        false
    }

    fn build_request(&self, command: &[u8]) -> (r: FenrisResult<Request>)
        ensures
            r matches Ok(m) ==> self.builds(command@, m@) && !self.rejects(command@),
            r matches Err(e) ==> self.rejects(command@) && (if self.rejects_unknown(command@) {
                e matches FenrisError::InvalidProtocolMessage
            } else {
                e matches FenrisError::MissingField(_)
            }),
    ;
}

/// The stock builder for the commands the client understands.
#[derive(Clone, Copy, Debug, Default)]
pub struct DefaultRequestManager;

impl DefaultRequestManager {
    pub fn build_ping(&self) -> (r: FenrisResult<Request>)
        ensures
            r matches Ok(m) && m@ == spec_plain_request(0, Seq::empty()),
    {
        Ok(Request { command: 0, filename: Vec::new(), ip_addr: 0, data: Vec::new() })
    }

    pub fn build_list_dir(&self, args: &[Vec<u8>]) -> (r: FenrisResult<Request>)
        ensures
            r matches Ok(m) && m@ == spec_plain_request(
                1,
                if args@.len() > 0 {
                    args@[0]@
                } else {
                    ".".spec_bytes()
                },
            ),
    {
        let path = if args.len() > 0 {
            vstd::slice::slice_to_vec(args[0].as_slice())
        } else {
            ".".as_bytes_vec()
        };
        Ok(Request { command: 1, filename: path, ip_addr: 0, data: Vec::new() })
    }

    pub fn build_change_dir(&self, args: &[Vec<u8>]) -> (r: FenrisResult<Request>)
        ensures
            r matches Ok(m) && m@ == spec_plain_request(
                2,
                if args@.len() > 0 {
                    args@[0]@
                } else {
                    "~".spec_bytes()
                },
            ),
    {
        let path = if args.len() > 0 {
            vstd::slice::slice_to_vec(args[0].as_slice())
        } else {
            "~".as_bytes_vec()
        };
        Ok(Request { command: 2, filename: path, ip_addr: 0, data: Vec::new() })
    }

    pub fn build_read_file(&self, args: &[Vec<u8>]) -> (r: FenrisResult<Request>)
        ensures
            match r {
                Ok(m) => args@.len() >= 1 && m@ == spec_plain_request(3, args@[0]@),
                Err(e) => args@.len() == 0 && (e matches FenrisError::MissingField(s) && s@
                    == "read requires a filename"@),
            },
    {
        if args.len() == 0 {
            return Err(FenrisError::MissingField(String::from_str("read requires a filename")));
        }
        Ok(
            Request {
                command: 3,
                filename: vstd::slice::slice_to_vec(args[0].as_slice()),
                ip_addr: 0,
                data: Vec::new(),
            },
        )
    }

    pub fn build_write_file(&self, args: &[Vec<u8>]) -> (r: FenrisResult<Request>)
        ensures
            match r {
                Ok(m) => args@.len() >= 2 && m@ == spec_data_request(
                    4,
                    args@[0]@,
                    spec_join_words(spec_segs_words_view(args@).skip(1)),
                ),
                Err(e) => args@.len() < 2 && (e matches FenrisError::MissingField(s) && s@
                    == "write requires filename as well as data"@),
            },
    {
        if args.len() < 2 {
            return Err(
                FenrisError::MissingField(
                    String::from_str("write requires filename as well as data"),
                ),
            );
        }
        let content = join_words(args, 1);
        Ok(
            Request {
                command: 4,
                filename: vstd::slice::slice_to_vec(args[0].as_slice()),
                ip_addr: 0,
                data: content,
            },
        )
    }

    pub fn build_create_file(&self, args: &[Vec<u8>]) -> (r: FenrisResult<Request>)
        ensures
            match r {
                Ok(m) => args@.len() >= 1 && m@ == spec_plain_request(5, args@[0]@),
                Err(e) => args@.len() == 0 && (e matches FenrisError::MissingField(s) && s@
                    == "create requires a filename"@),
            },
    {
        if args.len() == 0 {
            return Err(
                FenrisError::MissingField(String::from_str("create requires a filename")),
            );
        }
        Ok(
            Request {
                command: 5,
                filename: vstd::slice::slice_to_vec(args[0].as_slice()),
                ip_addr: 0,
                data: Vec::new(),
            },
        )
    }

    pub fn build_delete_file(&self, args: &[Vec<u8>]) -> (r: FenrisResult<Request>)
        ensures
            match r {
                Ok(m) => args@.len() >= 1 && m@ == spec_plain_request(6, args@[0]@),
                Err(e) => args@.len() == 0 && (e matches FenrisError::MissingField(s) && s@
                    == "rm requires a filename"@),
            },
    {
        if args.len() == 0 {
            return Err(FenrisError::MissingField(String::from_str("rm requires a filename")));
        }
        Ok(
            Request {
                command: 6,
                filename: vstd::slice::slice_to_vec(args[0].as_slice()),
                ip_addr: 0,
                data: Vec::new(),
            },
        )
    }

    pub fn build_create_dir(&self, args: &[Vec<u8>]) -> (r: FenrisResult<Request>)
        ensures
            match r {
                Ok(m) => args@.len() >= 1 && m@ == spec_plain_request(7, args@[0]@),
                Err(e) => args@.len() == 0 && (e matches FenrisError::MissingField(s) && s@
                    == "mkdir requires a directory name"@),
            },
    {
        if args.len() == 0 {
            return Err(
                FenrisError::MissingField(String::from_str("mkdir requires a directory name")),
            );
        }
        Ok(
            Request {
                command: 7,
                filename: vstd::slice::slice_to_vec(args[0].as_slice()),
                ip_addr: 0,
                data: Vec::new(),
            },
        )
    }

    pub fn build_delete_dir(&self, args: &[Vec<u8>]) -> (r: FenrisResult<Request>)
        ensures
            match r {
                Ok(m) => args@.len() >= 1 && m@ == spec_plain_request(8, args@[0]@),
                Err(e) => args@.len() == 0 && (e matches FenrisError::MissingField(s) && s@
                    == "rmdir requires a directory name"@),
            },
    {
        if args.len() == 0 {
            return Err(
                FenrisError::MissingField(String::from_str("rmdir requires a directory name")),
            );
        }
        Ok(
            Request {
                command: 8,
                filename: vstd::slice::slice_to_vec(args[0].as_slice()),
                ip_addr: 0,
                data: Vec::new(),
            },
        )
    }

    pub fn build_file_info(&self, args: &[Vec<u8>]) -> (r: FenrisResult<Request>)
        ensures
            match r {
                Ok(m) => args@.len() >= 1 && m@ == spec_plain_request(9, args@[0]@),
                Err(e) => args@.len() == 0 && (e matches FenrisError::MissingField(s) && s@
                    == "info requires a filename"@),
            },
    {
        if args.len() == 0 {
            return Err(FenrisError::MissingField(String::from_str("info requires a filename")));
        }
        Ok(
            Request {
                command: 9,
                filename: vstd::slice::slice_to_vec(args[0].as_slice()),
                ip_addr: 0,
                data: Vec::new(),
            },
        )
    }

    pub fn build_append_file(&self, args: &[Vec<u8>]) -> (r: FenrisResult<Request>)
        ensures
            match r {
                Ok(m) => args@.len() >= 2 && m@ == spec_data_request(
                    10,
                    args@[0]@,
                    spec_join_words(spec_segs_words_view(args@).skip(1)),
                ),
                Err(e) => args@.len() < 2 && (e matches FenrisError::MissingField(s) && s@
                    == "append requires filename as well as data"@),
            },
    {
        if args.len() < 2 {
            return Err(
                FenrisError::MissingField(
                    String::from_str("append requires filename as well as data"),
                ),
            );
        }
        let content = join_words(args, 1);
        Ok(
            Request {
                command: 10,
                filename: vstd::slice::slice_to_vec(args[0].as_slice()),
                ip_addr: 0,
                data: content,
            },
        )
    }

    /// An upload request for a remote name, carrying the local file's
    /// bytes; reading that file is the caller's side of the split.
    pub fn build_upload_file(&self, args: &[Vec<u8>], file_data: Vec<u8>) -> (r: FenrisResult<
        Request,
    >)
        ensures
            match r {
                Ok(m) => args@.len() >= 2 && m@ == spec_data_request(11, args@[1]@, file_data@),
                Err(e) => args@.len() < 2 && (e matches FenrisError::MissingField(s) && s@
                    == "upload requires current location as well as destination path"@),
            },
    {
        if args.len() < 2 {
            return Err(
                FenrisError::MissingField(
                    String::from_str(
                        "upload requires current location as well as destination path",
                    ),
                ),
            );
        }
        Ok(
            Request {
                command: 11,
                filename: vstd::slice::slice_to_vec(args[1].as_slice()),
                ip_addr: 0,
                data: file_data,
            },
        )
    }
}

/// Compares a word with a string literal's bytes.
fn word_is(word: &[u8], lit: &str) -> (r: bool)
    ensures
        r == (word@ == lit.spec_bytes()),
{
    let lit_bytes = lit.as_bytes();
    if word.len() != lit_bytes.len() {
        proof {
            assert(word@.len() != lit.spec_bytes().len());
        }
        return false;
    }
    let mut i: usize = 0;
    while i < word.len()
        invariant
            i <= word@.len(),
            word@.len() == lit.spec_bytes().len(),
            lit_bytes@ == lit.spec_bytes(),
            forall|k: int| 0 <= k < i ==> word@[k] == lit.spec_bytes()[k],
        decreases word@.len() - i,
    {
        if word[i] != lit_bytes[i] {
            return false;
        }
        i = i + 1;
    }
    proof {
        assert(word@ =~= lit.spec_bytes());
    }
    true
}

impl RequestBuilder for DefaultRequestManager {
    open spec fn builds(&self, command: Seq<u8>, m: RequestV) -> bool {
        spec_command_builds(command, m)
    }

    open spec fn rejects(&self, command: Seq<u8>) -> bool {
        spec_command_rejected(command)
    }

    open spec fn rejects_unknown(&self, command: Seq<u8>) -> bool {
        spec_command_unknown(command)
    }

    /// Parses one command line.  `upload` is rejected here because it
    /// needs the local file's bytes; `build_upload_file` takes them.
    fn build_request(&self, command: &[u8]) -> (r: FenrisResult<Request>) {
        let words = tokenize(command);
        if words.len() == 0 {
            return Err(FenrisError::InvalidProtocolMessage);
        }
        let cmd = ascii_lower(words[0].as_slice());
        let args = vstd::slice::slice_subrange(words.as_slice(), 1, words.len());
        proof {
            assert(spec_segs_words_view(words@)[0] == words@[0]@);
            assert(cmd@ == spec_ascii_lower(spec_words(command@)[0]));
            assert(args@ == words@.subrange(1, words@.len() as int));
            assert forall|k: int| 0 <= k < args@.len() implies #[trigger] spec_segs_words_view(
                args@,
            )[k] == spec_segs_words_view(words@).skip(1)[k] by {
                assert(args@[k] == words@[k + 1]);
            }
            assert(spec_segs_words_view(args@) =~= spec_segs_words_view(words@).skip(1));
            assert(args@.len() > 0 ==> args@[0]@ == spec_segs_words_view(words@)[1]);
            if spec_segs_words_view(words@).len() >= 2 {
                vstd::seq_lib::lemma_seq_skip_of_skip(spec_segs_words_view(words@), 1, 1);
                assert(spec_segs_words_view(args@).skip(1) == spec_segs_words_view(words@).skip(
                    2,
                ));
            }
        }
        if word_is(cmd.as_slice(), "ping") {
            self.build_ping()
        } else if word_is(cmd.as_slice(), "ls") {
            self.build_list_dir(args)
        } else if word_is(cmd.as_slice(), "cd") {
            self.build_change_dir(args)
        } else if word_is(cmd.as_slice(), "read") {
            self.build_read_file(args)
        } else if word_is(cmd.as_slice(), "write") {
            self.build_write_file(args)
        } else if word_is(cmd.as_slice(), "create") {
            self.build_create_file(args)
        } else if word_is(cmd.as_slice(), "rm") {
            self.build_delete_file(args)
        } else if word_is(cmd.as_slice(), "mkdir") {
            self.build_create_dir(args)
        } else if word_is(cmd.as_slice(), "rmdir") {
            self.build_delete_dir(args)
        } else if word_is(cmd.as_slice(), "info") {
            self.build_file_info(args)
        } else if word_is(cmd.as_slice(), "append") {
            self.build_append_file(args)
        } else {
            Err(FenrisError::InvalidProtocolMessage)
        }
    }
}

/// The client's front door to request building.
pub struct RequestManager<B: RequestBuilder> {
    pub builder: B,
}

impl<B: RequestBuilder> RequestManager<B> {
    pub fn new(builder: B) -> (r: RequestManager<B>)
        ensures
            r.builder == builder,
    {
        RequestManager { builder }
    }

    pub fn build_request(&self, command: &[u8]) -> (r: FenrisResult<Request>)
        ensures
            r matches Ok(m) ==> self.builder.builds(command@, m@) && !self.builder.rejects(
                command@,
            ),
            r matches Err(e) ==> self.builder.rejects(command@) && (
            if self.builder.rejects_unknown(command@) {
                e matches FenrisError::InvalidProtocolMessage
            } else {
                e matches FenrisError::MissingField(_)
            }),
    {
        self.builder.build_request(command)
    }
}

impl Default for RequestManager<DefaultRequestManager> {
    /// The stock builder.
    fn default() -> (r: RequestManager<DefaultRequestManager>)
        ensures
            r.builder == DefaultRequestManager,
    {
        RequestManager { builder: DefaultRequestManager }
    }
}

} // verus!

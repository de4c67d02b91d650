//! Sandboxed file access rooted at a base directory.
//!
//! Paths are byte strings.  Resolution is lexical: a path is split on `/`,
//! `.` and empty segments are dropped, `..` pops a segment, and popping past
//! the sandbox root is rejected.  The filesystem work itself is behind the
//! `FileOperations` trait, implemented outside the library.

use vstd::prelude::*;
use vstd::string::StrSliceExecFns;
use crate::error::{FenrisError, FenrisResult};

verus! {

/// The byte `/`.
pub const SEP: u8 = 47;

/// Metadata of one file or directory.
#[derive(Clone, Debug)]
#[verifier::ext_equal]
pub struct FileMetadata {
    pub name: Vec<u8>,
    pub size: u64,
    pub is_directory: bool,
    pub modified_time: u64,
    pub permissions: u32,
}

/// Sandboxed filesystem access; paths are absolute within the session's
/// root.  Implementations live with the binaries (or a test fake) and do
/// the actual I/O.
pub trait FileOperations: Sized {
    fn create_file(&self, path: &[u8]) -> FenrisResult<()>;

    fn read_file(&self, path: &[u8]) -> FenrisResult<Vec<u8>>;

    fn write_file(&self, path: &[u8], data: &[u8]) -> FenrisResult<()>;

    fn append_file(&self, path: &[u8], data: &[u8]) -> FenrisResult<()>;

    fn delete_file(&self, path: &[u8]) -> FenrisResult<()>;

    fn file_info(&self, path: &[u8]) -> FenrisResult<FileMetadata>;

    fn create_dir(&self, path: &[u8]) -> FenrisResult<()>;

    fn list_dir(&self, path: &[u8]) -> FenrisResult<Vec<FileMetadata>>;

    fn delete_dir(&self, path: &[u8]) -> FenrisResult<()>;

    fn path_exists(&self, path: &[u8]) -> bool;

    fn is_dir(&self, path: &[u8]) -> bool;

    fn is_file(&self, path: &[u8]) -> bool;
}

// ---------------------------------------------------------------------------
// Lexical path resolution
// ---------------------------------------------------------------------------

/// A path without its single leading slash, if it has one.
pub open spec fn spec_strip_root(p: Seq<u8>) -> Seq<u8> {
    if p.len() > 0 && p[0] == SEP {
        p.skip(1)
    } else {
        p
    }
}

/// The segments of a path, split on `/`.  Splitting the empty path gives
/// one empty segment.
pub open spec fn spec_split(p: Seq<u8>) -> Seq<Seq<u8>>
    decreases p.len(),
{
    if p.len() == 0 {
        seq![Seq::<u8>::empty()]
    } else if p.last() == SEP {
        spec_split(p.drop_last()).push(Seq::<u8>::empty())
    } else {
        let s = spec_split(p.drop_last());
        s.update(s.len() - 1, s.last().push(p.last()))
    }
}

/// Normalizes a segment list: empty and `.` segments vanish, `..` pops the
/// previous segment, and popping past the root is an escape (`None`).
pub open spec fn spec_normalize(segs: Seq<Seq<u8>>) -> Option<Seq<Seq<u8>>>
    decreases segs.len(),
{
    if segs.len() == 0 {
        Some(Seq::empty())
    } else {
        match spec_normalize(segs.drop_last()) {
            None => None,
            Some(st) => {
                let last = segs.last();
                if last =~= Seq::<u8>::empty() || last =~= seq![46u8] {
                    Some(st)
                } else if last =~= seq![46u8, 46u8] {
                    if st.len() == 0 {
                        None
                    } else {
                        Some(st.drop_last())
                    }
                } else {
                    Some(st.push(last))
                }
            },
        }
    }
}

/// Joins normalized segments under a base directory.
pub open spec fn spec_join(base: Seq<u8>, segs: Seq<Seq<u8>>) -> Seq<u8>
    decreases segs.len(),
{
    if segs.len() == 0 {
        base
    } else {
        spec_join(base, segs.drop_last()) + seq![SEP] + segs.last()
    }
}

/// What resolving a request path under a base directory yields:
/// the joined normalized path, or nothing for an escaping path.
pub open spec fn spec_resolve(base: Seq<u8>, path: Seq<u8>) -> Option<Seq<u8>> {
    match spec_normalize(spec_split(spec_strip_root(path))) {
        None => None,
        Some(st) => Some(spec_join(base, st)),
    }
}

/// Sandbox containment: every resolved path begins with the base
/// directory, and continues, if at all, at a separator.
pub proof fn lemma_join_in_base(base: Seq<u8>, segs: Seq<Seq<u8>>)
    ensures
        spec_join(base, segs).len() >= base.len(),
        spec_join(base, segs).subrange(0, base.len() as int) == base,
        spec_join(base, segs).len() > base.len() ==> spec_join(base, segs)[base.len() as int]
            == SEP,
    decreases segs.len(),
{
    if segs.len() == 0 {
        assert(spec_join(base, segs).subrange(0, base.len() as int) =~= base);
    } else {
        lemma_join_in_base(base, segs.drop_last());
        let prefix = spec_join(base, segs.drop_last());
        let whole = spec_join(base, segs);
        assert(whole == prefix + seq![SEP] + segs.last());
        assert(whole.subrange(0, base.len() as int) =~= prefix.subrange(0, base.len() as int));
        if whole.len() > base.len() && prefix.len() == base.len() {
            assert(whole[base.len() as int] == SEP);
        }
    }
}

/// The sandboxed resolver: a base directory and the lexical rules above.
#[derive(Clone, Debug)]
pub struct DefaultFileOperations {
    pub base_dir: Vec<u8>,
}

impl DefaultFileOperations {
    /// A sandbox rooted at the given absolute directory.
    pub fn new(base_dir: Vec<u8>) -> (r: DefaultFileOperations)
        ensures
            r.base_dir@ == base_dir@,
    {
        DefaultFileOperations { base_dir }
    }

    /// The sandbox root.
    pub fn base_dir(&self) -> (r: &Vec<u8>)
        ensures
            r@ == self.base_dir@,
    {
        &self.base_dir
    }

    /// Resolves a request path against the sandbox root.  A path whose
    /// `..` segments would climb out of the root is rejected.
    pub fn resolve_path(&self, path: &[u8]) -> (r: FenrisResult<Vec<u8>>)
        ensures
            match r {
                Ok(q) => spec_resolve(self.base_dir@, path@) == Some(q@),
                Err(e) => spec_resolve(self.base_dir@, path@) is None && (
                e matches FenrisError::FileOperationError(s) && s@
                    == "Path outside base directory"@),
            },
    {
        let stripped: &[u8] = if path.len() > 0 && path[0] == SEP {
            vstd::slice::slice_subrange(path, 1, path.len())
        } else {
            path
        };
        proof {
            assert(stripped@ == spec_strip_root(path@));
        }
        // Split into segments.
        let mut segs: Vec<Vec<u8>> = Vec::new();
        let mut cur: Vec<u8> = Vec::new();
        let mut i: usize = 0;
        while i < stripped.len()
            invariant
                i <= stripped@.len(),
                spec_split(stripped@.take(i as int)) == spec_segs_view(segs@).push(cur@),
            decreases stripped@.len() - i,
        {
            let b = stripped[i];
            proof {
                assert(stripped@.take(i + 1).drop_last() =~= stripped@.take(i as int));
                assert(stripped@.take(i + 1).last() == b);
            }
            if b == SEP {
                segs.push(cur);
                cur = Vec::new();
                proof {
                    assert(spec_segs_view(segs@) =~= spec_segs_view(segs@.drop_last()).push(
                        segs@.last()@,
                    ));
                    assert(spec_split(stripped@.take(i + 1)) =~= spec_segs_view(segs@).push(
                        cur@,
                    ));
                }
            } else {
                cur.push(b);
                proof {
                    let prev = spec_split(stripped@.take(i as int));
                    assert(spec_split(stripped@.take(i + 1)) == prev.update(
                        prev.len() - 1,
                        prev.last().push(b),
                    ));
                    assert(spec_split(stripped@.take(i + 1)) =~= spec_segs_view(segs@).push(
                        cur@,
                    ));
                }
            }
            i = i + 1;
        }
        segs.push(cur);
        proof {
            assert(stripped@.take(stripped@.len() as int) =~= stripped@);
            assert(spec_segs_view(segs@) =~= spec_segs_view(segs@.drop_last()).push(segs@.last()@));
            assert(spec_segs_view(segs@) == spec_split(stripped@));
        }
        // Normalize.
        let mut stack: Vec<Vec<u8>> = Vec::new();
        let mut j: usize = 0;
        while j < segs.len()
            invariant
                j <= segs@.len(),
                spec_segs_view(segs@) == spec_split(spec_strip_root(path@)),
                spec_normalize(spec_segs_view(segs@).take(j as int)) == Some(
                    spec_segs_view(stack@),
                ),
            decreases segs@.len() - j,
        {
            let seg = &segs[j];
            proof {
                let taken = spec_segs_view(segs@).take(j + 1);
                assert(taken.drop_last() =~= spec_segs_view(segs@).take(j as int));
                assert(taken.last() == segs@[j as int]@);
            }
            if seg.len() == 0 || (seg.len() == 1 && seg[0] == 46) {
                proof {
                    if seg@.len() == 0 {
                        assert(seg@ =~= Seq::<u8>::empty());
                    } else {
                        assert(seg@ =~= seq![46u8]);
                    }
                }
            } else if seg.len() == 2 && seg[0] == 46 && seg[1] == 46 {
                proof {
                    assert(seg@ =~= seq![46u8, 46u8]);
                    assert(!(seg@ =~= Seq::<u8>::empty()) && !(seg@ =~= seq![46u8]));
                }
                if stack.len() == 0 {
                    proof {
                        assert(spec_normalize(spec_segs_view(segs@).take(j + 1)) is None);
                        lemma_normalize_none_extends(spec_segs_view(segs@), j + 1);
                    }
                    return Err(
                        FenrisError::FileOperationError(
                            String::from_str("Path outside base directory"),
                        ),
                    );
                }
                stack.pop();
                proof {
                    assert(spec_segs_view(stack@) =~= spec_normalize(
                        spec_segs_view(segs@).take(j + 1),
                    ).unwrap());
                }
            } else {
                proof {
                    assert(!(seg@ =~= Seq::<u8>::empty()));
                    assert(!(seg@ =~= seq![46u8]));
                    assert(!(seg@ =~= seq![46u8, 46u8]));
                }
                stack.push(vstd::slice::slice_to_vec(seg.as_slice()));
                proof {
                    assert(spec_segs_view(stack@) =~= spec_segs_view(stack@.drop_last()).push(
                        stack@.last()@,
                    ));
                    assert(spec_segs_view(stack@) =~= spec_normalize(
                        spec_segs_view(segs@).take(j + 1),
                    ).unwrap());
                }
            }
            j = j + 1;
        }
        proof {
            assert(spec_segs_view(segs@).take(segs@.len() as int) =~= spec_segs_view(segs@));
        }
        // Join under the base directory.
        let mut out: Vec<u8> = Vec::new();
        crate::error::push_bytes(&mut out, self.base_dir.as_slice());
        proof {
            assert(out@ =~= self.base_dir@);
            assert(spec_segs_view(stack@).take(0) =~= Seq::<Seq<u8>>::empty());
        }
        let mut k: usize = 0;
        while k < stack.len()
            invariant
                k <= stack@.len(),
                out@ == spec_join(self.base_dir@, spec_segs_view(stack@).take(k as int)),
            decreases stack@.len() - k,
        {
            out.push(SEP);
            crate::error::push_bytes(&mut out, stack[k].as_slice());
            proof {
                let taken = spec_segs_view(stack@).take(k + 1);
                assert(taken.drop_last() =~= spec_segs_view(stack@).take(k as int));
                assert(taken.last() == stack@[k as int]@);
                assert(out@ =~= spec_join(self.base_dir@, taken.drop_last()) + seq![SEP]
                    + taken.last());
            }
            k = k + 1;
        }
        proof {
            assert(spec_segs_view(stack@).take(stack@.len() as int) =~= spec_segs_view(stack@));
            assert(out@ == spec_join(self.base_dir@, spec_segs_view(stack@)));
            assert(spec_normalize(spec_split(spec_strip_root(path@))) == Some(
                spec_segs_view(stack@),
            ));
            assert(spec_resolve(self.base_dir@, path@) == Some(out@));
        }
        Ok(out)
    }
}

/// The views of a vector of segment vectors.
pub open spec fn spec_segs_view(s: Seq<Vec<u8>>) -> Seq<Seq<u8>> {
    Seq::new(s.len(), |i: int| s[i]@)
}

/// Once normalization escapes, any longer prefix still escapes.
pub proof fn lemma_normalize_none_extends(segs: Seq<Seq<u8>>, j: int)
    requires
        0 <= j <= segs.len(),
        spec_normalize(segs.take(j)) is None,
    ensures
        spec_normalize(segs) is None,
    decreases segs.len() - j,
{
    if j < segs.len() {
        assert(segs.take(j + 1).drop_last() =~= segs.take(j));
        assert(spec_normalize(segs.take(j + 1)) is None);
        lemma_normalize_none_extends(segs, j + 1);
    } else {
        assert(segs.take(j) =~= segs);
    }
}

} // verus!

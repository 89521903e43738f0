//! The resource loader: a root directory computed from the executable's
//! location, resolution of logical resource names to paths under it, and the
//! null-terminated source buffers that the shader compiler consumes.
//!
//! Reading the file system is the caller's job: the caller resolves a path
//! with [`resource_name_to_path`], reads the file, and hands the outcome to
//! [`ShaderSource::from_read_result`].

use vstd::prelude::*;
use vstd::string::{StrSliceExecFns, StringExecFns};

use crate::errors::PipelineError;

verus! {

/// The path of a logical resource under a root directory: the root, one
/// separator, then the name (whose own separators are kept as they are).
pub open spec fn joined_path(root: Seq<char>, name: Seq<char>) -> Seq<char> {
    root.push('/') + name
}

/// Resolves a logical resource name against a root directory by joining the
/// two with a path separator.
pub fn resource_name_to_path(root_dir: &str, location: &str) -> (path: String)
    ensures
        path@ == joined_path(root_dir@, location@),
{
    let mut path = String::from_str(root_dir);
    path.append("/");
    path.append(location);
    proof {
        reveal_strlit("/");
        assert(path@ =~= joined_path(root_dir@, location@));
    }
    path
}

/// Resolving the same logical name against the same root twice yields the
/// same path, so two loads of one resource read the same file.
pub proof fn lemma_resolution_idempotent(
    root: Seq<char>,
    name: Seq<char>,
    first: Seq<char>,
    second: Seq<char>,
)
    requires
        first == joined_path(root, name),
        second == joined_path(root, name),
    ensures
        first == second,
{
}

/// The directory that logical resource names are resolved under, fixed for
/// the lifetime of the value.
pub struct Resources {
    root_path: String,
}

impl Resources {
    /// The root directory path.
    pub closed spec fn root(&self) -> Seq<char> {
        self.root_path@
    }

    /// The root that an executable at `exe_path` sees: the executable's
    /// directory (everything up to and including the last separator)
    /// followed by the relative offset.
    pub open spec fn spec_root_from_exe(exe_path: Seq<char>, rel_path: Seq<char>) -> Seq<char> {
        match exe_path.index_of_last('/') {
            Some(k) => exe_path.subrange(0, k + 1) + rel_path,
            None => rel_path,
        }
    }

    /// Builds the resource root from the running executable's file path plus
    /// a relative offset. The caller obtains the executable's path from the
    /// environment; it is a file path, so it contains a separator and does
    /// not end in one.
    pub fn from_relative_exe_path(exe_path: &str, rel_path: &str) -> (res: Resources)
        requires
            exe_path@.contains('/'),
            exe_path@.last() != '/',
        ensures
            res.root() == Self::spec_root_from_exe(exe_path@, rel_path@),
    {
        let n = exe_path.unicode_len();
        let mut i: usize = n;
        while i > 0
            invariant
                i <= n,
                n == exe_path@.len(),
                forall|j: int| i <= j < n ==> exe_path@[j] != '/',
            decreases i,
        {
            i -= 1;
            if exe_path.get_char(i) == '/' {
                let parent = exe_path.substring_char(0, i + 1);
                let mut root_path = String::from_str(parent);
                root_path.append(rel_path);
                proof {
                    exe_path@.index_of_last_ensures('/');
                    assert(exe_path@.contains('/')) by {
                        assert(exe_path@[i as int] == '/');
                    }
                    let k = exe_path@.index_of_last('/')->Some_0;
                    assert(k == i) by {
                        if k < i {
                            assert(exe_path@[i as int] != '/');
                        }
                        if k > i {
                            assert(exe_path@[k] != '/');
                        }
                    }
                }
                return Resources { root_path };
            }
        }
        // not reached: the path contains a separator
        proof {
            let j = choose|j: int| 0 <= j < exe_path@.len() && exe_path@[j] == '/';
            assert(exe_path@[j] != '/');
            assert(false);
        }
        Resources { root_path: String::new() }
    }

    /// The root directory path, for resolving and reading resource files.
    pub fn root_path(&self) -> (r: &str)
        ensures
            r@ == self.root(),
    {
        self.root_path.as_str()
    }
}

/// A shader source buffer: the bytes read from a resource file with one
/// terminating NUL appended, as the driver's source API expects.
pub struct ShaderSource {
    bytes: Vec<u8>,
}

impl View for ShaderSource {
    type V = Seq<u8>;

    closed spec fn view(&self) -> Seq<u8> {
        self.bytes@
    }
}

impl ShaderSource {
    /// Every shader source buffer ends in a NUL terminator.
    pub open spec fn wf(&self) -> bool {
        &&& self@.len() >= 1
        &&& self@.last() == 0u8
    }

    /// Appends the terminating NUL to the bytes of a resource file.
    pub fn from_bytes(buffer: Vec<u8>) -> (src: ShaderSource)
        ensures
            src@ == buffer@.push(0u8),
            src.wf(),
    {
        let mut bytes = buffer;
        bytes.push(0u8);
        ShaderSource { bytes }
    }

    /// The null-terminated bytes, ready to hand to the driver.
    pub fn as_bytes(&self) -> (r: &[u8])
        ensures
            r@ == self@,
    {
        self.bytes.as_slice()
    }

    /// Finishes a load from the outcome of reading a resource file: bytes
    /// that were read get their NUL terminator; a failed read becomes an
    /// `IoError` carrying the reader's message, and never a source buffer.
    pub fn from_read_result(read_result: Result<Vec<u8>, String>) -> (r: Result<
        ShaderSource,
        PipelineError,
    >)
        ensures
            read_result matches Ok(buffer) ==> (r matches Ok(src) && src@ == buffer@.push(0u8)
                && src.wf()),
            read_result matches Err(m) ==> (r matches Err(e) && e matches PipelineError::IoError(t)
                && t@ == "Can't open path "@ + m@),
    {
        match read_result {
            Ok(buffer) => Ok(ShaderSource::from_bytes(buffer)),
            Err(m) => {
                let text = String::from_str("Can't open path ").concat(m.as_str());
                Err(PipelineError::IoError(text))
            },
        }
    }
}

} // verus!

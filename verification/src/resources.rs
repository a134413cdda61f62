//! Locating the asset directory.
//!
//! Assets are resolved relative to the directory the running executable sits
//! in. Learning the executable's own path is the unverified shell's job; the
//! logic here takes that path as bytes, strips the file name, and joins the
//! relative asset path onto the directory, separated by `/`.

use vstd::prelude::*;

verus! {

/// Path separator byte, `/`.
pub const SEPARATOR: u8 = 47;

/// Declares `std::io::Error` so the error enum below can carry one. Relied
/// on only as an opaque value: nothing is assumed about it.
#[verifier::external_type_specification]
#[verifier::external_body]
pub struct ExIoError(std::io::Error);

/// What can go wrong while locating or reading resources.
#[derive(Debug)]
pub enum Error {
    Io(std::io::Error),
    FileContainsNil,
    FaliedToGetExePath,
}

/// Conversion entry point for foreign error values: `From::from` wraps an
/// I/O failure in the library's [`Error`].
pub struct From;

impl From {
    /// Wrap an I/O failure met while reading resources.
    pub fn from(other: std::io::Error) -> (r: Error)
        ensures
            r == Error::Io(other),
    {
        Error::Io(other)
    }
}

impl core::convert::From<std::io::Error> for Error {
    fn from(other: std::io::Error) -> Self {
        Error::Io(other)
    }
}

impl vstd::std_specs::convert::FromSpecImpl<std::io::Error> for Error {
    open spec fn obeys_from_spec() -> bool {
        true
    }

    open spec fn from_spec(v: std::io::Error) -> Self {
        Error::Io(v)
    }
}

/// Index of the last separator in a path, if there is one.
pub open spec fn last_separator(path: Seq<u8>) -> Option<int>
    decreases path.len(),
{
    if path.len() == 0 {
        None
    } else if path[path.len() - 1] == SEPARATOR {
        Some(path.len() - 1)
    } else {
        last_separator(path.drop_last())
    }
}

/// The directory part of a path: everything before the last separator.
pub open spec fn parent_dir(path: Seq<u8>) -> Seq<u8> {
    match last_separator(path) {
        Some(i) => path.take(i),
        None => Seq::empty(),
    }
}

/// A relative path resolved against the directory a file sits in.
pub open spec fn joined(exe_file_path: Seq<u8>, rel_path: Seq<u8>) -> Seq<u8> {
    parent_dir(exe_file_path) + seq![SEPARATOR] + rel_path
}

/// `last_separator` is the one position holding a separator with none after it.
pub proof fn lemma_last_separator_is(path: Seq<u8>, i: int)
    requires
        0 <= i < path.len(),
        path[i] == SEPARATOR,
        forall|j: int| i < j < path.len() ==> path[j] != SEPARATOR,
    ensures
        last_separator(path) == Some(i),
    decreases path.len(),
{
    if i == path.len() - 1 {
    } else {
        assert(path[path.len() - 1] != SEPARATOR);
        assert forall|j: int| i < j < path.drop_last().len() implies path.drop_last()[j]
            != SEPARATOR by {
            assert(path[j] != SEPARATOR);
        }
        lemma_last_separator_is(path.drop_last(), i);
    }
}

/// A path without a separator has no last one.
pub proof fn lemma_no_separator(path: Seq<u8>)
    requires
        forall|j: int| 0 <= j < path.len() ==> path[j] != SEPARATOR,
    ensures
        last_separator(path) is None,
    decreases path.len(),
{
    if path.len() > 0 {
        lemma_no_separator(path.drop_last());
    }
}

/// The root directory under which assets are looked up.
pub struct Resources {
    root_path: Vec<u8>,
}

impl Resources {
    pub closed spec fn spec_root_path(self) -> Seq<u8> {
        self.root_path@
    }

    /// The resolved asset root, as path bytes.
    pub fn root_path(&self) -> (r: &Vec<u8>)
        ensures
            r@ == self.spec_root_path(),
    {
        &self.root_path
    }

    /// Resolve the asset root from the running executable's file path and a
    /// path relative to the executable's directory. A path with no separator
    /// names no directory, so the executable's location cannot be told from
    /// it and the lookup fails; otherwise the root is the executable's
    /// directory with the relative path joined on.
    pub fn from_relative_exe_path(exe_file_path: &Vec<u8>, rel_path: &Vec<u8>) -> (r: Result<
        Resources,
        Error,
    >)
        ensures
            match r {
                Ok(res) => last_separator(exe_file_path@) is Some && res.spec_root_path()
                    == joined(exe_file_path@, rel_path@),
                Err(e) => last_separator(exe_file_path@) is None && e is FaliedToGetExePath,
            },
    {
        let n = exe_file_path.len();
        let mut i: usize = n;
        while i > 0
            invariant
                i <= n,
                n == exe_file_path@.len(),
                forall|j: int| i <= j < n ==> exe_file_path@[j] != SEPARATOR,
            decreases i,
        {
            if *exe_file_path.get(i - 1).unwrap() == SEPARATOR {
                proof {
                    lemma_last_separator_is(exe_file_path@, i - 1);
                }
                let k = i - 1;
                let mut root: Vec<u8> = Vec::new();
                let mut m: usize = 0;
                while m < k
                    invariant
                        m <= k,
                        k < exe_file_path@.len(),
                        root@ == exe_file_path@.take(m as int),
                    decreases k - m,
                {
                    root.push(*exe_file_path.get(m).unwrap());
                    assert(root@ == exe_file_path@.take(m + 1));
                    m = m + 1;
                }
                root.push(SEPARATOR);
                let rn = rel_path.len();
                let ghost prefix = root@;
                let mut p: usize = 0;
                while p < rn
                    invariant
                        p <= rn,
                        rn == rel_path@.len(),
                        root@ == prefix + rel_path@.take(p as int),
                    decreases rn - p,
                {
                    root.push(*rel_path.get(p).unwrap());
                    assert(root@ == prefix + rel_path@.take(p + 1));
                    p = p + 1;
                }
                proof {
                    assert(root@ =~= joined(exe_file_path@, rel_path@));
                }
                return Ok(Resources { root_path: root });
            }
            i = i - 1;
        }
        proof {
            lemma_no_separator(exe_file_path@);
        }
        Err(Error::FaliedToGetExePath)
    }
}

} // verus!

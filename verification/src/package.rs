//! Resolution of the packaging inputs: scanning the names found directly
//! inside the package-description directory for exactly one descriptor
//! file (extension `nuspec`), and turning the observed state of the fixed
//! `VERSION` file into the version string or the matching error. Listing
//! the directory and reading the file happen outside this library; the
//! rules applied to what was found are decided here.

use vstd::prelude::*;
use crate::errors::RunError;

verus! {

/// The position of the last `.` among the first `k` characters of `s`.
pub open spec fn last_dot_before(s: Seq<char>, k: int) -> Option<int>
    decreases k,
{
    if k <= 0 {
        None
    } else if s[k - 1] == '.' {
        Some(k - 1)
    } else {
        last_dot_before(s, k - 1)
    }
}

/// The extension of a plain file name: the part after the last `.`, or
/// nothing when the name has no `.` or only a leading one.
pub open spec fn extension_of(s: Seq<char>) -> Option<Seq<char>> {
    match last_dot_before(s, s.len() as int) {
        None => None,
        Some(i) => if i == 0 {
            None
        } else {
            Some(s.subrange(i + 1, s.len() as int))
        },
    }
}

/// The names among `names`, in order, whose extension is `ext`.
pub open spec fn matching_names(names: Seq<String>, ext: Seq<char>) -> Seq<String>
    decreases names.len(),
{
    if names.len() == 0 {
        Seq::empty()
    } else {
        let rest = matching_names(names.drop_last(), ext);
        if extension_of(names.last()@) == Some(ext) {
            rest.push(names.last())
        } else {
            rest
        }
    }
}

/// Whether the file name `name` has exactly the extension `ext`.
fn has_extension(name: &str, ext: &str) -> (r: bool)
    ensures
        r == (extension_of(name@) == Some(ext@)),
{
    let n = name.unicode_len();
    let m = ext.unicode_len();
    let mut j: usize = 0;
    let mut dot: Option<usize> = None;
    while j < n
        invariant
            j <= n,
            n == name@.len(),
            match dot {
                None => last_dot_before(name@, j as int) is None,
                Some(d) => d < j && last_dot_before(name@, j as int) == Some(d as int),
            },
        decreases n - j,
    {
        if name.get_char(j) == '.' {
            dot = Some(j);
        }
        j += 1;
    }
    match dot {
        None => false,
        Some(d) => {
            if d == 0 {
                return false;
            }
            if n - (d + 1) != m {
                return false;
            }
            let mut k: usize = 0;
            while k < m
                invariant
                    k <= m,
                    m == ext@.len(),
                    n == name@.len(),
                    0 < d < n,
                    n - (d + 1) == m,
                    last_dot_before(name@, n as int) == Some(d as int),
                    forall|t: int| 0 <= t < k ==> name@[d + 1 + t] == ext@[t],
                decreases m - k,
            {
                if name.get_char(d + 1 + k) != ext.get_char(k) {
                    proof {
                        assert(name@.subrange(d + 1, n as int)[k as int] == name@[d + 1 + k]);
                    }
                    return false;
                }
                k += 1;
            }
            proof {
                assert(name@.subrange(d + 1, n as int) =~= ext@);
            }
            true
        },
    }
}

/// Filters `names` to those with the extension `ext`, keeping their order.
pub fn get_files_with_extension(names: &Vec<String>, ext: &str) -> (r: Vec<String>)
    ensures
        r@ == matching_names(names@, ext@),
{
    let mut r: Vec<String> = Vec::new();
    let mut i: usize = 0;
    while i < names.len()
        invariant
            i <= names@.len(),
            r@ == matching_names(names@.take(i as int), ext@),
        decreases names@.len() - i,
    {
        if has_extension(names[i].as_str(), ext) {
            r.push(names[i].clone());
        }
        proof {
            assert(names@.take(i + 1).drop_last() =~= names@.take(i as int));
            assert(names@.take(i + 1).last() == names@[i as int]);
        }
        i += 1;
    }
    proof {
        assert(names@.take(names@.len() as int) =~= names@);
    }
    r
}

/// Picks the single descriptor file among `names`: an error when no name
/// or more than one name carries the `nuspec` extension, the one matching
/// name otherwise.
pub fn get_nugetpkg_nuspec(names: &Vec<String>) -> (r: Result<String, RunError>)
    ensures
        ({
            let m = matching_names(names@, "nuspec"@);
            match r {
                Ok(p) => m.len() == 1 && p == m[0],
                Err(e) => {
                    ||| m.len() == 0 && e == RunError::NoDescriptorFound
                    ||| m.len() > 1 && (e matches RunError::AmbiguousDescriptor(count) && count
                        as int == m.len() as int)
                },
            }
        }),
{
    let mut found = get_files_with_extension(names, "nuspec");
    if found.len() == 0 {
        Err(RunError::NoDescriptorFound)
    } else if found.len() > 1 {
        Err(RunError::AmbiguousDescriptor(found.len()))
    } else {
        let p = found.pop().unwrap();
        proof {
            assert(p == matching_names(names@, "nuspec"@)[0]);
        }
        Ok(p)
    }
}

/// What was observed of the fixed-named version file in the
/// package-description directory: its full text, or that it was absent,
/// or that it existed but could not be read as text.
#[derive(Debug)]
pub enum VersionRead {
    Found(String),
    Missing,
    Unreadable,
}

/// Turns the observed state of the version file into the version string -
/// the file's text verbatim, untrimmed - or the matching fatal error.
pub fn get_nugetpkg_version(read: VersionRead) -> (r: Result<String, RunError>)
    ensures
        match read {
            VersionRead::Found(s) => r == Ok::<String, RunError>(s),
            VersionRead::Missing => r == Err::<String, RunError>(RunError::MissingVersionFile),
            VersionRead::Unreadable => r == Err::<String, RunError>(
                RunError::UnreadableVersionFile,
            ),
        },
{
    match read {
        VersionRead::Found(s) => Ok(s),
        VersionRead::Missing => Err(RunError::MissingVersionFile),
        VersionRead::Unreadable => Err(RunError::UnreadableVersionFile),
    }
}

/// The two inputs the external packaging tool is invoked with: the name of
/// the single descriptor file, and the version string read verbatim from
/// the version file.
#[derive(Debug)]
pub struct PackageInputs {
    pub nuspec: String,
    pub version: String,
}

/// Decides a packaging run from what was found on disk: the directory must
/// exist, exactly one descriptor file must be present - checked before the
/// version file is consulted - and the version file must have been read.
pub fn nuget_pack(dir_exists: bool, names: &Vec<String>, read: VersionRead) -> (r: Result<
    PackageInputs,
    RunError,
>)
    ensures
        ({
            let m = matching_names(names@, "nuspec"@);
            if !dir_exists {
                r == Err::<PackageInputs, RunError>(RunError::NoPackageDirectory)
            } else if m.len() == 0 {
                r == Err::<PackageInputs, RunError>(RunError::NoDescriptorFound)
            } else if m.len() > 1 {
                r matches Err(e) && (e matches RunError::AmbiguousDescriptor(count) && count
                    as int == m.len() as int)
            } else {
                match read {
                    VersionRead::Found(s) => r matches Ok(pi) && pi.nuspec == m[0] && pi.version
                        == s,
                    VersionRead::Missing => r == Err::<PackageInputs, RunError>(
                        RunError::MissingVersionFile,
                    ),
                    VersionRead::Unreadable => r == Err::<PackageInputs, RunError>(
                        RunError::UnreadableVersionFile,
                    ),
                }
            }
        }),
{
    if !dir_exists {
        return Err(RunError::NoPackageDirectory);
    }
    let nuspec = match get_nugetpkg_nuspec(names) {
        Ok(p) => p,
        Err(e) => {
            return Err(e);
        },
    };
    let version = match get_nugetpkg_version(read) {
        Ok(v) => v,
        Err(e) => {
            return Err(e);
        },
    };
    Ok(PackageInputs { nuspec, version })
}

} // verus!

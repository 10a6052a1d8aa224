use vstd::prelude::*;
use vstd::string::StrSliceExecFns;

use crate::errors::AppError;
use crate::utils::str_eq;

verus! {

/// A root of the key-value subsystem's namespace.  Several long and short
/// alias names select the same root.
#[derive(Debug, Clone, Copy, PartialEq, Eq, Structural)]
pub enum Hive {
    LocalMachine,
    CurrentUser,
    ClassesRoot,
    Users,
    CurrentConfig,
}

/// A native data type of the key-value subsystem.
#[derive(Debug, Clone, Copy, PartialEq, Eq, Structural)]
pub enum RegDataType {
    Dword,
    Qword,
    Text,
}

/// The position of the first backslash in a path, if any.
pub open spec fn spec_first_backslash(s: Seq<char>) -> Option<int>
    decreases s.len(),
{
    if s.len() == 0 {
        None
    } else if s[0] == '\\' {
        Some(0int)
    } else {
        match spec_first_backslash(s.drop_first()) {
            Some(i) => Some(i + 1),
            None => None,
        }
    }
}

/// The root a name selects, long and short aliases alike.
pub open spec fn spec_hive_of(s: Seq<char>) -> Option<Hive> {
    if s == "HKLM"@ || s == "HKEY_LOCAL_MACHINE"@ {
        Some(Hive::LocalMachine)
    } else if s == "HKCU"@ || s == "HKEY_CURRENT_USER"@ {
        Some(Hive::CurrentUser)
    } else if s == "HKCR"@ || s == "HKEY_CLASSES_ROOT"@ {
        Some(Hive::ClassesRoot)
    } else if s == "HKU"@ || s == "HKEY_USERS"@ {
        Some(Hive::Users)
    } else if s == "HKCC"@ || s == "HKEY_CURRENT_CONFIG"@ {
        Some(Hive::CurrentConfig)
    } else {
        None
    }
}

/// A path split into its root and subpath at the first backslash.  A path
/// without a backslash, or whose root no alias recognizes, is invalid.
pub open spec fn spec_path_components(s: Seq<char>) -> Option<(Hive, Seq<char>)> {
    match spec_first_backslash(s) {
        None => None,
        Some(i) => match spec_hive_of(s.take(i)) {
            None => None,
            Some(h) => Some((h, s.skip(i + 1))),
        },
    }
}

proof fn lemma_first_backslash_found(s: Seq<char>, i: int)
    requires
        0 <= i < s.len(),
        s[i] == '\\',
        forall|j: int| 0 <= j < i ==> s[j] != '\\',
    ensures
        spec_first_backslash(s) == Some(i),
    decreases i,
{
    if i > 0 {
        assert(forall|j: int| 0 <= j < i - 1 ==> s.drop_first()[j] == s[j + 1]);
        lemma_first_backslash_found(s.drop_first(), i - 1);
    }
}

proof fn lemma_first_backslash_none(s: Seq<char>)
    requires
        forall|j: int| 0 <= j < s.len() ==> s[j] != '\\',
    ensures
        spec_first_backslash(s) is None,
    decreases s.len(),
{
    if s.len() > 0 {
        assert(forall|j: int| 0 <= j < s.len() - 1 ==> s.drop_first()[j] == s[j + 1]);
        lemma_first_backslash_none(s.drop_first());
    }
}

fn find_backslash(path: &str) -> (r: Option<usize>)
    ensures
        match r {
            Some(i) => i < path@.len() && spec_first_backslash(path@) == Some(i as int),
            None => spec_first_backslash(path@) is None,
        },
{
    let n = path.unicode_len();
    let mut i: usize = 0;
    while i < n
        invariant
            i <= n,
            n == path@.len(),
            forall|j: int| 0 <= j < i ==> path@[j] != '\\',
        decreases n - i,
    {
        if path.get_char(i) == '\\' {
            proof {
                lemma_first_backslash_found(path@, i as int);
            }
            return Some(i);
        }
        i = i + 1;
    }
    proof {
        lemma_first_backslash_none(path@);
    }
    None
}

fn parse_hive(name: &str) -> (r: Option<Hive>)
    ensures
        r == spec_hive_of(name@),
{
    if str_eq(name, "HKLM") || str_eq(name, "HKEY_LOCAL_MACHINE") {
        Some(Hive::LocalMachine)
    } else if str_eq(name, "HKCU") || str_eq(name, "HKEY_CURRENT_USER") {
        Some(Hive::CurrentUser)
    } else if str_eq(name, "HKCR") || str_eq(name, "HKEY_CLASSES_ROOT") {
        Some(Hive::ClassesRoot)
    } else if str_eq(name, "HKU") || str_eq(name, "HKEY_USERS") {
        Some(Hive::Users)
    } else if str_eq(name, "HKCC") || str_eq(name, "HKEY_CURRENT_CONFIG") {
        Some(Hive::CurrentConfig)
    } else {
        None
    }
}

/// Splits a subsystem path into its root and subpath, e.g.
/// "HKLM\\SOFTWARE\\X" into the local-machine root and "SOFTWARE\\X".
pub fn get_path_components(path: &str) -> (r: Result<(Hive, String), AppError>)
    ensures
        match spec_path_components(path@) {
            Some(p) => r matches Ok(q) && q.0 == p.0 && q.1@ == p.1,
            None => r matches Err(AppError::InvalidPath),
        },
{
    let n = path.unicode_len();
    match find_backslash(path) {
        None => Err(AppError::InvalidPath),
        Some(i) => {
            let hive_str = path.substring_char(0, i);
            let rest = path.substring_char(i + 1, n);
            proof {
                assert(hive_str@ =~= path@.take(i as int));
                assert(rest@ =~= path@.skip(i as int + 1));
            }
            match parse_hive(hive_str) {
                Some(h) => Ok((h, rest.to_owned())),
                None => Err(AppError::InvalidPath),
            }
        },
    }
}

/// The lowercase folding of a text, as the standard library computes it.
pub uninterp spec fn lower_of(s: Seq<char>) -> Seq<char>;

/// Relies on str::to_lowercase: the result is a function of the
/// characters alone.
#[verifier::external_body]
fn lowercase(s: &str) -> (r: String)
    ensures
        r@ == lower_of(s@),
{
    s.to_lowercase()
}

/// The subsystem data type a tag selects, compared after lowercase
/// folding.
pub open spec fn spec_datatype_of(s: Seq<char>) -> Option<RegDataType> {
    let l = lower_of(s);
    if l == "u32"@ || l == "i32"@ {
        Some(RegDataType::Dword)
    } else if l == "u64"@ || l == "i64"@ {
        Some(RegDataType::Qword)
    } else if l == "string"@ {
        Some(RegDataType::Text)
    } else {
        None
    }
}

/// Maps a data type tag to the subsystem's native type; the tag is folded
/// to lowercase first, so "U32" selects like "u32".
pub fn get_datatype(datatype: &str) -> (r: Result<RegDataType, AppError>)
    ensures
        match spec_datatype_of(datatype@) {
            Some(d) => r matches Ok(x) && x == d,
            None => r matches Err(AppError::UnsupportedDataType(s)) && s@ == datatype@,
        },
{
    let l = lowercase(datatype);
    if str_eq(l.as_str(), "u32") || str_eq(l.as_str(), "i32") {
        Ok(RegDataType::Dword)
    } else if str_eq(l.as_str(), "u64") || str_eq(l.as_str(), "i64") {
        Ok(RegDataType::Qword)
    } else if str_eq(l.as_str(), "string") {
        Ok(RegDataType::Text)
    } else {
        Err(AppError::UnsupportedDataType(datatype.to_owned()))
    }
}

} // verus!

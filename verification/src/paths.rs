//! File-system paths as text: where the application keeps its data, and the
//! few path operations the rest of the library needs.

use vstd::prelude::*;
use crate::text::chars_of;

verus! {

/// Name of the application's directory inside the user's data directory.
pub const APP_DIR: &'static str = "getlrc";

/// Name of the log directory inside the data directory.
pub const LOG_DIR: &'static str = "logs";

/// Where the binary is installed, from the home directory.
pub const INSTALL_PATH: &'static str = ".local/bin/getlrc";

/// What separates the directories of a search path.
pub const PATH_LIST_SEPARATOR: char = ':';

/// File name of the negative cache database inside the data directory.
pub const CACHE_DB_FILE: &'static str = "negative_cache.db";

/// File name of the session checkpoint inside the data directory.
pub const SESSION_FILE: &'static str = "session.json";

/// What `Path::join` returns, as text, for a base path and a relative name.
pub uninterp spec fn path_joined(base: Seq<char>, name: Seq<char>) -> Seq<char>;

/// What `Path::with_extension` returns, as text, for a path and an extension.
pub uninterp spec fn path_with_extension(path: Seq<char>, extension: Seq<char>) -> Seq<char>;

/// What `Path::file_name` returns, as text, for a path: its final component,
/// or nothing where the path has none.
pub uninterp spec fn path_file_name(path: Seq<char>) -> Option<Seq<char>>;

/// What `Path::extension` returns, as text, for a path: the extension of its
/// file name, or nothing where it has none.
pub uninterp spec fn path_extension(path: Seq<char>) -> Option<Seq<char>>;

/// `Path::join` of the standard library, on text. The result is a function of
/// the two texts on a given platform; nothing else is claimed of it.
#[verifier::external_body]
pub(crate) fn join(base: &str, name: &str) -> (r: String)
    ensures
        r@ == path_joined(base@, name@),
{
    std::path::Path::new(base).join(name).to_string_lossy().into_owned()
}

/// `Path::with_extension` of the standard library, on text. It panics on an
/// extension that holds a path separator, so none may be passed. The result
/// is a function of the two texts on a given platform; nothing else is
/// claimed of it.
#[verifier::external_body]
pub(crate) fn with_extension(path: &str, extension: &str) -> (r: String)
    requires
        !extension@.contains('/'),
        !extension@.contains('\\'),
    ensures
        r@ == path_with_extension(path@, extension@),
{
    std::path::Path::new(path).with_extension(extension).to_string_lossy().into_owned()
}

/// `Path::file_name` of the standard library, on text. The result is a
/// function of the text on a given platform; nothing else is claimed of it.
#[verifier::external_body]
pub(crate) fn file_name(path: &str) -> (r: Option<String>)
    ensures
        match r {
            Some(name) => path_file_name(path@) == Some(name@),
            None => path_file_name(path@) is None,
        },
{
    std::path::Path::new(path).file_name().map(|name| name.to_string_lossy().into_owned())
}

/// `Path::extension` of the standard library, on text. The result is a
/// function of the text on a given platform; nothing else is claimed of it.
#[verifier::external_body]
pub(crate) fn extension(path: &str) -> (r: Option<String>)
    ensures
        match r {
            Some(ext) => path_extension(path@) == Some(ext@),
            None => path_extension(path@) is None,
        },
{
    std::path::Path::new(path).extension().map(|ext| ext.to_string_lossy().into_owned())
}

/// `Path::exists` of the standard library: whether the path points at an
/// existing entity right now. The answer depends on the file system, so
/// nothing is claimed of it.
#[verifier::external_body]
pub(crate) fn path_exists(path: &str) -> bool {
    std::path::Path::new(path).exists()
}

/// The path of the negative cache database inside `data_dir`.
pub fn get_cache_db_path(data_dir: &str) -> (path: String)
    ensures
        path@ == path_joined(data_dir@, CACHE_DB_FILE@),
{
    join(data_dir, CACHE_DB_FILE)
}

/// The path of the session checkpoint inside `data_dir`.
pub fn get_session_path(data_dir: &str) -> (path: String)
    ensures
        path@ == path_joined(data_dir@, SESSION_FILE@),
{
    join(data_dir, SESSION_FILE)
}

/// The application's data directory inside the user's data directory.
pub fn get_data_dir(data_local_dir: &str) -> (path: String)
    ensures
        path@ == path_joined(data_local_dir@, APP_DIR@),
{
    join(data_local_dir, APP_DIR)
}

/// The log directory inside `data_dir`.
pub fn get_log_dir(data_dir: &str) -> (path: String)
    ensures
        path@ == path_joined(data_dir@, LOG_DIR@),
{
    join(data_dir, LOG_DIR)
}

/// The directory for installed binaries, from the home directory.
pub fn get_local_bin_dir(home: &str) -> (path: String)
    ensures
        path@ == path_joined(path_joined(home@, ".local"@), "bin"@),
{
    let local = join(home, ".local");
    join(local.as_str(), "bin")
}

/// Where the binary is installed, from the home directory.
pub fn get_install_path(home: &str) -> (path: String)
    ensures
        path@ == path_joined(home@, INSTALL_PATH@),
{
    join(home, INSTALL_PATH)
}

/// Whether the binary is installed under the home directory. The answer is
/// the file system's, at the moment of the call.
pub fn is_installed(home: &str) -> bool {
    let install_path = get_install_path(home);
    path_exists(install_path.as_str())
}

/// The first separator of a search path at or after `from`, or its end.
pub open spec fn entry_end(list: Seq<char>, from: int) -> int
    decreases list.len() - from,
{
    if 0 <= from < list.len() && list[from] != PATH_LIST_SEPARATOR {
        entry_end(list, from + 1)
    } else {
        from
    }
}

/// Whether one of the entries of a search path, from the entry that starts
/// at `from` on, is `dir` to the letter.
pub open spec fn lists_from(list: Seq<char>, from: int, dir: Seq<char>) -> bool
    decreases list.len() - from,
{
    let end = entry_end(list, from);
    if 0 <= from <= end <= list.len() {
        list.subrange(from, end) == dir || (end < list.len() && lists_from(list, end + 1, dir))
    } else {
        false
    }
}

/// Whether a search path lists `dir`: whether one of its entries, as the
/// separators part them, is `dir` to the letter.
pub open spec fn lists(list: Seq<char>, dir: Seq<char>) -> bool {
    lists_from(list, 0, dir)
}

/// Whether a search path lists a directory.
pub fn path_list_contains(list: &str, dir: &str) -> (listed: bool)
    ensures
        listed == lists(list@, dir@),
{
    let entries = chars_of(list);
    let wanted = chars_of(dir);
    let mut from: usize = 0;
    loop
        invariant
            entries@ == list@,
            wanted@ == dir@,
            from <= entries.len(),
            lists(list@, dir@) == lists_from(entries@, from as int, wanted@),
        decreases entries.len() - from,
    {
        let mut end = from;
        while end < entries.len() && entries[end] != PATH_LIST_SEPARATOR
            invariant
                from <= end <= entries.len(),
                entry_end(entries@, end as int) == entry_end(entries@, from as int),
            decreases entries.len() - end,
        {
            end = end + 1;
        }
        let mut same = end - from == wanted.len();
        assert(entries@.subrange(from as int, end as int).len() == end - from);
        let mut k: usize = 0;
        while same && k < wanted.len()
            invariant
                from <= end <= entries.len(),
                k <= wanted.len(),
                same ==> end - from == wanted.len(),
                same ==> entries@.subrange(from as int, from + k) == wanted@.take(k as int),
                !same ==> entries@.subrange(from as int, end as int) != wanted@,
            decreases wanted.len() - k + if same { 1int } else { 0int },
        {
            if entries[from + k] != wanted[k] {
                same = false;
                assert(entries@.subrange(from as int, end as int)[k as int] != wanted@[k as int]);
            } else {
                assert(entries@.subrange(from as int, from + k + 1) == entries@.subrange(
                    from as int,
                    from + k,
                ).push(entries@[from + k]));
                assert(wanted@.take(k + 1) == wanted@.take(k as int).push(wanted@[k as int]));
                k = k + 1;
            }
        }
        if same {
            assert(wanted@.take(wanted.len() as int) == wanted@);
            return true;
        }
        if end >= entries.len() {
            return false;
        }
        from = end + 1;
    }
}

/// Whether the search path lists the directory for installed binaries of
/// the home directory.
pub fn is_local_bin_in_path(path_var: &str, home: &str) -> (listed: bool)
    ensures
        listed == lists(path_var@, path_joined(path_joined(home@, ".local"@), "bin"@)),
{
    let local_bin = get_local_bin_dir(home);
    path_list_contains(path_var, local_bin.as_str())
}

} // verus!

use vstd::prelude::*;

verus! {

/// What `Path::is_absolute` answers for a path. The rules differ between
/// platforms (a leading `/` on Unix, a prefix and root on Windows), so this is
/// fixed per build target, not across targets.
pub uninterp spec fn spec_path_is_absolute(p: Seq<char>) -> bool;

/// What `Path::join` gives for a base path and a path. The separator and what
/// counts as absolute differ between platforms, so this is fixed per build
/// target, not across targets.
pub uninterp spec fn spec_path_join(base: Seq<char>, p: Seq<char>) -> Seq<char>;

/// What `Path::file_stem` gives for a path: the file name without its extension,
/// if any. Which characters separate path components differs between platforms,
/// so this is fixed per build target, not across targets.
pub uninterp spec fn spec_path_file_stem(p: Seq<char>) -> Option<Seq<char>>;

/// Calls `Path::is_absolute` on `p`. The answer is taken to be the one that
/// `spec_path_is_absolute` names; what makes a path absolute is not stated.
#[verifier::external_body]
pub(crate) fn path_is_absolute(p: &str) -> (b: bool)
    ensures
        b == spec_path_is_absolute(p@),
{
    std::path::Path::new(p).is_absolute()
}

/// Calls `Path::join` on `base` and `p`. Joining two UTF-8 paths gives a UTF-8 path,
/// so converting the result back to a string loses nothing. The result is taken to
/// be the one that `spec_path_join` names; how separators are placed is not stated.
#[verifier::external_body]
pub(crate) fn path_join(base: &str, p: &str) -> (r: String)
    ensures
        r@ == spec_path_join(base@, p@),
{
    std::path::Path::new(base).join(p).to_string_lossy().into_owned()
}

/// Calls `Path::file_stem` on `p`. The stem of a UTF-8 path is UTF-8, so the
/// conversion to a string does not fail. The result is taken to be the one that
/// `spec_path_file_stem` names; how the stem is found is not stated.
#[verifier::external_body]
pub(crate) fn path_file_stem(p: &str) -> (r: Option<String>)
    ensures
        match spec_path_file_stem(p@) {
            Some(s) => r is Some && r->Some_0@ == s,
            None => r is None,
        },
{
    std::path::Path::new(p).file_stem().and_then(|s| s.to_str()).map(|s| s.to_string())
}

/// What `Path::extension` gives for a path: the part of its file name after the
/// last `.`, if there is one. Which characters separate path components differs
/// between platforms, so this is fixed per build target, not across targets.
pub uninterp spec fn spec_path_extension(p: Seq<char>) -> Option<Seq<char>>;

/// What `Path::with_file_name` gives for a path and a file name: the path with
/// its last component replaced by the name. The separator differs between
/// platforms, so this is fixed per build target, not across targets.
pub uninterp spec fn spec_path_with_file_name(p: Seq<char>, name: Seq<char>) -> Seq<char>;

/// Calls `Path::extension` on `p`. The extension of a UTF-8 path is UTF-8, so the
/// conversion to a string does not fail. The result is taken to be the one that
/// `spec_path_extension` names; how the extension is found is not stated.
#[verifier::external_body]
pub(crate) fn path_extension(p: &str) -> (r: Option<String>)
    ensures
        match spec_path_extension(p@) {
            Some(e) => r is Some && r->Some_0@ == e,
            None => r is None,
        },
{
    std::path::Path::new(p).extension().and_then(|s| s.to_str()).map(|s| s.to_string())
}

/// Calls `Path::with_file_name` on `p` and `name`. A path made of UTF-8 parts is
/// UTF-8, so converting the result back to a string loses nothing. The result is
/// taken to be the one that `spec_path_with_file_name` names; how the last
/// component is replaced is not stated.
#[verifier::external_body]
pub(crate) fn path_with_file_name(p: &str, name: &str) -> (r: String)
    ensures
        r@ == spec_path_with_file_name(p@, name@),
{
    std::path::Path::new(p).with_file_name(name).to_string_lossy().into_owned()
}

} // verus!

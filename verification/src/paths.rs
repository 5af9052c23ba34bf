use vstd::prelude::*;

use crate::outside::{
    appended, path_from_str, path_is_absolute, path_join, path_text, plainly_relative, verbatim_like,
    windows_prefixed,
};

verus! {

/// `path` itself when `path_is_absolute` (the platform's judgement of
/// `path`) holds, else `path` under `cwd`: a plainly relative path lands
/// under `cwd`, after one separator unless `cwd` ends in a separator or a
/// drive colon (unless `cwd` has a Windows verbatim prefix, which makes
/// the platform normalize). A path that begins with `/` comes back as it
/// is onto a `cwd` without a Windows prefix, whatever the judgement.
pub fn resolve_path(cwd: &std::path::PathBuf, path: &str, path_is_absolute: bool) -> (r: std::path::PathBuf)
    ensures
        path_is_absolute ==> path_text(r) == path@,
        !path_is_absolute && plainly_relative(path@) && path@.len() > 0 && !verbatim_like(
            path_text(*cwd),
        ) ==> appended(path_text(*cwd), path@, path_text(r)),
        path@.len() > 0 && path@[0] == '/' && !windows_prefixed(path_text(*cwd)) ==> path_text(r)
            == path@,
{
    let p = path_from_str(path);
    if path_is_absolute {
        p
    } else {
        path_join(cwd, &p)
    }
}

/// `path` itself when it is absolute, else `path` under `cwd`. What is
/// absolute, and how a path joins another, the platform decides (see
/// `resolve_path` for each judgement); a plainly relative path, such as
/// the default log directory `logs`, always lands under `cwd`, after one
/// separator unless `cwd` ends in a separator or a drive colon (unless
/// `cwd` has a Windows verbatim prefix, which makes the platform
/// normalize). A path that begins with `/`, such as `/var/log`, comes
/// back as it is onto a `cwd` without a Windows prefix, on every platform.
pub fn resolve_maybe_relative(cwd: &std::path::PathBuf, path: &str) -> (r: std::path::PathBuf)
    ensures
        plainly_relative(path@) && path@.len() > 0 && !verbatim_like(path_text(*cwd)) ==> appended(
            path_text(*cwd),
            path@,
            path_text(r),
        ),
        path@.len() > 0 && path@[0] == '/' && !windows_prefixed(path_text(*cwd)) ==> path_text(r)
            == path@,
{
    let p = path_from_str(path);
    let absolute = path_is_absolute(&p);
    resolve_path(cwd, path, absolute)
}

} // verus!

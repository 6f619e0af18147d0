//! Where a type's file lives, and what saving and loading report under each
//! error policy once the file work is done.

use vstd::prelude::*;
use crate::error::ConfigError;
use crate::format::ext_of;
use crate::params::{ParamsView, PersistentConfigParameters};

verus! {

/// The directory part of a path: empty, or ending in one `/`.
pub open spec fn dir_prefix(dir: Seq<char>) -> Seq<char> {
    if dir.len() == 0 {
        Seq::empty()
    } else if dir.last() == '/' {
        dir
    } else {
        dir + "/"@
    }
}

/// `directory/file_stem.extension`.
pub open spec fn path_of(p: ParamsView) -> Seq<char> {
    dir_prefix(p.config_dir) + p.file_name + "."@ + ext_of(p.save_format)
}

/// The lenient policy masks failures; the strict one reports them.
pub open spec fn is_lenient(p: ParamsView) -> bool {
    !p.panic_on_error
}

/// The path of the file that holds a value saved with `params`.
pub fn file_path(params: &PersistentConfigParameters) -> (r: String)
    ensures
        r@ == path_of(params@),
{
    let dir = params.config_dir.as_str();
    let n = dir.unicode_len();
    let mut path = String::from_str(dir);
    if n > 0 && dir.get_char(n - 1) != '/' {
        path.append("/");
    }
    path.append(params.file_name.as_str());
    path.append(".");
    path.append(params.save_format.ext());
    path
}

/// What `save` reports, given the registered parameters (if any) and how
/// encoding and writing went: `ConfigNotFound` without parameters, whatever
/// the policy; otherwise success when the write succeeded or the policy is
/// lenient, and the write's error under the strict policy.
pub fn save_outcome(params: &Option<PersistentConfigParameters>, written: Result<(), ConfigError>) -> (r:
    Result<(), ConfigError>)
    ensures
        match params {
            None => r == Err::<(), ConfigError>(ConfigError::ConfigNotFound),
            Some(p) => match written {
                Ok(()) => r is Ok,
                Err(e) => if is_lenient(p@) {
                    r is Ok
                } else {
                    r == Err::<(), ConfigError>(e)
                },
            },
        },
{
    match params {
        None => Err(ConfigError::ConfigNotFound),
        Some(p) => match written {
            Ok(()) => Ok(()),
            Err(e) => if p.panic_on_error {
                Err(e)
            } else {
                Ok(())
            },
        },
    }
}

/// What `load` does, given the registered parameters (if any), how reading and
/// decoding went, and the type's default value. Without parameters:
/// `ConfigNotFound`, the slot untouched. A decoded value replaces the slot.
/// On failure the lenient policy puts the default in the slot and reports
/// success; the strict one reports the error and leaves the slot untouched.
pub fn load_outcome<T>(
    params: &Option<PersistentConfigParameters>,
    slot: &mut T,
    loaded: Result<T, ConfigError>,
    fallback: T,
) -> (r: Result<(), ConfigError>)
    ensures
        match params {
            None => r == Err::<(), ConfigError>(ConfigError::ConfigNotFound) && *final(slot)
                == *old(slot),
            Some(p) => match loaded {
                Ok(v) => r is Ok && *final(slot) == v,
                Err(e) => if is_lenient(p@) {
                    r is Ok && *final(slot) == fallback
                } else {
                    r == Err::<(), ConfigError>(e) && *final(slot) == *old(slot)
                },
            },
        },
{
    match params {
        None => Err(ConfigError::ConfigNotFound),
        Some(p) => match loaded {
            Ok(v) => {
                *slot = v;
                Ok(())
            },
            Err(e) => if p.panic_on_error {
                Err(e)
            } else {
                *slot = fallback;
                Ok(())
            },
        },
    }
}

} // verus!

//! Resolved per-type settings, their defaults and the merge rule.

use vstd::prelude::*;
use crate::format::{default_format, SaveFormat};

verus! {

/// Parameters for a persistent configuration instance.
///
/// In a merge, an empty `config_dir` or `file_name` of the override means
/// "not set" and keeps the base value. The builders never leave `file_name`
/// empty; an empty `config_dir` given to them is the current directory.
#[derive(Clone, Debug)]
pub struct PersistentConfigParameters {
    /// Directory where the config file is stored.
    pub config_dir: String,
    /// Name of the config file, without extension.
    pub file_name: String,
    /// Format used to save the config file.
    pub save_format: SaveFormat,
    /// Strict error policy when true: failures are reported to the caller.
    /// When false (lenient), save and load mask failures.
    pub panic_on_error: bool,
}

/// The mathematical value of a set of parameters.
pub struct ParamsView {
    pub config_dir: Seq<char>,
    pub file_name: Seq<char>,
    pub save_format: SaveFormat,
    pub panic_on_error: bool,
}

impl View for PersistentConfigParameters {
    type V = ParamsView;

    open spec fn view(&self) -> ParamsView {
        ParamsView {
            config_dir: self.config_dir@,
            file_name: self.file_name@,
            save_format: self.save_format,
            panic_on_error: self.panic_on_error,
        }
    }
}

/// The directory that the builders use when none is given.
pub open spec fn default_dir() -> Seq<char> {
    "./.config"@
}

/// Parameters with nothing set: no directory, no file name, the default
/// format, strict. An annotation is parsed starting from these.
pub open spec fn unset_view() -> ParamsView {
    ParamsView {
        config_dir: Seq::empty(),
        file_name: Seq::empty(),
        save_format: default_format(),
        panic_on_error: true,
    }
}

/// The default parameters: `./config`, no file name, the default format,
/// strict.
pub open spec fn default_view() -> ParamsView {
    ParamsView {
        config_dir: "./config"@,
        file_name: Seq::empty(),
        save_format: default_format(),
        panic_on_error: true,
    }
}

/// `merge(base, over)`: a non-empty directory or file name of `over` replaces
/// `base`'s; `over`'s format replaces `base`'s only where it differs from the
/// default format; `over`'s error policy always replaces `base`'s.
pub open spec fn merge_view(base: ParamsView, over: ParamsView) -> ParamsView {
    ParamsView {
        config_dir: if over.config_dir.len() == 0 { base.config_dir } else { over.config_dir },
        file_name: if over.file_name.len() == 0 { base.file_name } else { over.file_name },
        save_format: if over.save_format == default_format() {
            base.save_format
        } else {
            over.save_format
        },
        panic_on_error: over.panic_on_error,
    }
}

/// Copies a string.
pub fn copy_string(s: &String) -> (r: String)
    ensures
        r@ == s@,
{
    String::from_str(s.as_str())
}

impl PersistentConfigParameters {
    /// A field-by-field copy.
    pub fn duplicate(&self) -> (r: PersistentConfigParameters)
        ensures
            r@ == self@,
    {
        PersistentConfigParameters {
            config_dir: copy_string(&self.config_dir),
            file_name: copy_string(&self.file_name),
            save_format: self.save_format,
            panic_on_error: self.panic_on_error,
        }
    }

    /// Parameters with nothing set.
    pub fn unset() -> (r: PersistentConfigParameters)
        ensures
            r@ == unset_view(),
    {
        PersistentConfigParameters {
            config_dir: String::new(),
            file_name: String::new(),
            save_format: SaveFormat::default(),
            panic_on_error: true,
        }
    }

    /// Merges `over` into `base`, field by field, as `merge_view` states.
    pub fn merge(base: &PersistentConfigParameters, over: &PersistentConfigParameters) -> (r:
        PersistentConfigParameters)
        ensures
            r@ == merge_view(base@, over@),
    {
        let config_dir = if over.config_dir.as_str().unicode_len() == 0 {
            copy_string(&base.config_dir)
        } else {
            copy_string(&over.config_dir)
        };
        let file_name = if over.file_name.as_str().unicode_len() == 0 {
            copy_string(&base.file_name)
        } else {
            copy_string(&over.file_name)
        };
        let save_format = if over.save_format == SaveFormat::default() {
            base.save_format
        } else {
            over.save_format
        };
        PersistentConfigParameters {
            config_dir,
            file_name,
            save_format,
            panic_on_error: over.panic_on_error,
        }
    }
}

impl Default for PersistentConfigParameters {
    fn default() -> (r: PersistentConfigParameters)
        ensures
            r@ == default_view(),
    {
        PersistentConfigParameters {
            config_dir: String::from_str("./config"),
            file_name: String::new(),
            save_format: SaveFormat::default(),
            panic_on_error: true,
        }
    }
}

/// The merge law, field by field: directory and file name come from `over`
/// exactly when it sets them; the format comes from `over` exactly when it is
/// not the default one; the error policy always comes from `over`.
pub proof fn lemma_merge_fields(base: ParamsView, over: ParamsView)
    ensures
        merge_view(base, over).config_dir == (if over.config_dir.len() > 0 {
            over.config_dir
        } else {
            base.config_dir
        }),
        merge_view(base, over).file_name == (if over.file_name.len() > 0 {
            over.file_name
        } else {
            base.file_name
        }),
        merge_view(base, over).save_format == (if over.save_format != default_format() {
            over.save_format
        } else {
            base.save_format
        }),
        merge_view(base, over).panic_on_error == over.panic_on_error,
{
}

} // verus!

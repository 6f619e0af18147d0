//! Building a type's parameters, imperatively or from an annotation, and
//! registering them.

use vstd::prelude::*;
use crate::annotation::{parse_annotation, parse_view, AnnotationToken};
use crate::error::ConfigError;
use crate::format::{default_format, SaveFormat};
use crate::params::{default_dir, merge_view, ParamsView, PersistentConfigParameters};
use crate::registry::PersistentConfigDB;

verus! {

/// Where the segment that holds position `i` of `s` starts, scanning from the
/// left and cutting at each `::` as it is met.
pub open spec fn segment_start(s: Seq<char>, start: int, i: int) -> int
    decreases s.len() - i,
{
    if i < 0 || i + 1 >= s.len() {
        start
    } else if s[i] == ':' && s[i + 1] == ':' {
        segment_start(s, i + 2, i + 2)
    } else {
        segment_start(s, start, i + 1)
    }
}

/// The last `::`-separated segment of a path: `a::b::C` gives `C`.
pub open spec fn last_segment(s: Seq<char>) -> Seq<char> {
    s.subrange(segment_start(s, 0, 0), s.len() as int)
}

proof fn lemma_segment_start_bounds(s: Seq<char>, start: int, i: int)
    requires
        0 <= start <= i <= s.len(),
    ensures
        0 <= segment_start(s, start, i) <= s.len(),
    decreases s.len() - i,
{
    if i + 1 < s.len() {
        if s[i] == ':' && s[i + 1] == ':' {
            lemma_segment_start_bounds(s, i + 2, i + 2);
        } else {
            lemma_segment_start_bounds(s, start, i + 1);
        }
    }
}

/// The last `::`-separated segment of `path`.
pub fn short_name(path: &str) -> (r: String)
    ensures
        r@ == last_segment(path@),
{
    let n = path.unicode_len();
    let mut start: usize = 0;
    let mut i: usize = 0;
    while n - i > 1
        invariant
            n == path@.len(),
            start <= i <= n,
            segment_start(path@, 0, 0) == segment_start(path@, start as int, i as int),
        decreases n - i,
    {
        if path.get_char(i) == ':' && path.get_char(i + 1) == ':' {
            start = i + 2;
            i = i + 2;
        } else {
            i = i + 1;
        }
    }
    proof {
        lemma_segment_start_bounds(path@, start as int, i as int);
    }
    String::from_str(path.substring_char(start, n))
}

/// The file name of the type with key `key` when none is given: the key's
/// last segment, or `config` where that segment is empty.
pub open spec fn default_stem(key: Seq<char>) -> Seq<char> {
    if last_segment(key).len() > 0 {
        last_segment(key)
    } else {
        "config"@
    }
}

/// A given value unless it is missing or empty, else the fallback.
pub open spec fn given_or(o: Option<Seq<char>>, fallback: Seq<char>) -> Seq<char> {
    match o {
        Some(v) => if v.len() > 0 {
            v
        } else {
            fallback
        },
        None => fallback,
    }
}

/// What the imperative builder registers for the type with key `key`.
pub open spec fn builder_view(
    key: Seq<char>,
    config_dir: Option<Seq<char>>,
    file_name: Option<Seq<char>>,
    save_format: SaveFormat,
    panic_on_error: bool,
) -> ParamsView {
    ParamsView {
        config_dir: match config_dir {
            Some(d) => d,
            None => default_dir(),
        },
        file_name: given_or(file_name, default_stem(key)),
        save_format,
        panic_on_error,
    }
}

/// The view of an optional string slice.
pub open spec fn opt_view(o: Option<&str>) -> Option<Seq<char>> {
    match o {
        Some(s) => Some(s@),
        None => None,
    }
}

/// The default file name is never empty, nor is the default directory.
pub proof fn lemma_defaults_non_empty(key: Seq<char>)
    ensures
        default_stem(key).len() > 0,
        default_dir().len() > 0,
{
    reveal_strlit("config");
    reveal_strlit("./.config");
}

/// The file name of the type with key `key` when none is given.
pub fn default_file_name(key: &str) -> (r: String)
    ensures
        r@ == default_stem(key@),
{
    let name = short_name(key);
    if name.as_str().unicode_len() > 0 {
        name
    } else {
        String::from_str("config")
    }
}

/// Parameters from the builder's arguments. A missing directory is
/// `./.config` (an empty one is the current directory); a missing or empty
/// file name is the last segment of the type's key (`config` where that is
/// empty), so the file name is never empty.
pub fn builder_parameters(
    key: &str,
    config_dir: Option<&str>,
    file_name: Option<&str>,
    save_format: SaveFormat,
    panic_on_error: bool,
) -> (r: PersistentConfigParameters)
    ensures
        r@ == builder_view(key@, opt_view(config_dir), opt_view(file_name), save_format, panic_on_error),
        r@.file_name.len() > 0,
{
    proof {
        lemma_defaults_non_empty(key@);
    }
    let config_dir = match config_dir {
        Some(d) => String::from_str(d),
        None => String::from_str("./.config"),
    };
    let file_name = match file_name {
        Some(f) => if f.unicode_len() > 0 {
            String::from_str(f)
        } else {
            default_file_name(key)
        },
        None => default_file_name(key),
    };
    PersistentConfigParameters { config_dir, file_name, save_format, panic_on_error }
}

/// The default parameters of the type with key `key`: `./.config`, the
/// default file name, the default format.
pub fn default_save_parameters(key: &str, panic_on_error: bool) -> (r: PersistentConfigParameters)
    ensures
        r@ == builder_view(key@, None, None, default_format(), panic_on_error),
        r@.config_dir.len() > 0,
        r@.file_name.len() > 0,
{
    proof {
        lemma_defaults_non_empty(key@);
    }
    builder_parameters(key, None, None, SaveFormat::default(), panic_on_error)
}

/// What an annotation on the type with key `key` registers: the annotation's
/// parameters merged over the type's default parameters.
pub open spec fn resolved_view(key: Seq<char>, ts: Seq<AnnotationToken>) -> Option<ParamsView> {
    match parse_view(ts) {
        Some(p) => Some(merge_view(builder_view(key, None, None, default_format(), true), p)),
        None => None,
    }
}

/// Resolves an annotation on the type with key `key`.
pub fn resolve_annotation(key: &str, tokens: &Vec<AnnotationToken>) -> (r: Result<
    PersistentConfigParameters,
    ConfigError,
>)
    ensures
        match resolved_view(key@, tokens@) {
            Some(p) => r is Ok && r->Ok_0@ == p,
            None => r == Err::<PersistentConfigParameters, ConfigError>(
                ConfigError::ConfigParseError,
            ),
        },
        r is Ok ==> r->Ok_0@.config_dir.len() > 0 && r->Ok_0@.file_name.len() > 0,
{
    match parse_annotation(tokens) {
        Ok(p) => {
            let base = default_save_parameters(key, true);
            Ok(PersistentConfigParameters::merge(&base, &p))
        },
        Err(e) => Err(e),
    }
}

impl PersistentConfigDB {
    /// Registers what an annotation on the type with key `key` resolves to.
    /// An invalid annotation registers nothing.
    pub fn register_annotation(&mut self, key: &str, tokens: &Vec<AnnotationToken>) -> (r: Result<
        (),
        ConfigError,
    >)
        ensures
            match resolved_view(key@, tokens@) {
                Some(p) => r is Ok && final(self)@ == old(self)@.insert(key@, p),
                None => r == Err::<(), ConfigError>(ConfigError::ConfigParseError) && final(self)@
                    == old(self)@,
            },
    {
        match resolve_annotation(key, tokens) {
            Ok(p) => {
                self.add_config(key, p);
                Ok(())
            },
            Err(e) => Err(e),
        }
    }
}

/// A type whose values are persisted with the parameters registered for it.
pub trait PersistentConfigBuilder: Sized {
    /// The stable key that names this type in a registry. Its last
    /// `::`-separated segment, where not empty, is the type's default file
    /// name.
    const TYPE_KEY: &'static str;

    /// Registers this type's parameters: a missing directory is `./.config`,
    /// a missing or empty file name is the type's default file name.
    fn config_builder(
        &self,
        db: &mut PersistentConfigDB,
        config_dir: Option<&str>,
        file_name: Option<&str>,
        save_format: SaveFormat,
        panic_on_error: bool,
    ) -> (r: Result<(), ConfigError>)
        ensures
            r is Ok,
            final(db)@ == old(db)@.insert(
                Self::TYPE_KEY@,
                builder_view(
                    Self::TYPE_KEY@,
                    opt_view(config_dir),
                    opt_view(file_name),
                    save_format,
                    panic_on_error,
                ),
            ),
    {
        let key = Self::TYPE_KEY;
        db.add_config(key, builder_parameters(key, config_dir, file_name, save_format, panic_on_error));
        Ok(())
    }

    /// Registers this type's default parameters with the given error policy.
    fn default_save_config(&self, db: &mut PersistentConfigDB, panic_on_error: bool) -> (r: Result<
        (),
        ConfigError,
    >)
        ensures
            r is Ok,
            final(db)@ == old(db)@.insert(
                Self::TYPE_KEY@,
                builder_view(Self::TYPE_KEY@, None, None, default_format(), panic_on_error),
            ),
    {
        let key = Self::TYPE_KEY;
        db.add_config(key, default_save_parameters(key, panic_on_error));
        Ok(())
    }

    /// Registers what an annotation on this type resolves to.
    fn register_annotated(db: &mut PersistentConfigDB, tokens: &Vec<AnnotationToken>) -> (r: Result<
        (),
        ConfigError,
    >)
        ensures
            match resolved_view(Self::TYPE_KEY@, tokens@) {
                Some(p) => r is Ok && final(db)@ == old(db)@.insert(Self::TYPE_KEY@, p),
                None => r == Err::<(), ConfigError>(ConfigError::ConfigParseError) && final(db)@
                    == old(db)@,
            },
    {
        db.register_annotation(Self::TYPE_KEY, tokens)
    }

    /// The parameters registered for this type, if any.
    fn registered_config(db: &PersistentConfigDB) -> (r: Option<PersistentConfigParameters>)
        ensures
            match r {
                Some(p) => db@.contains_key(Self::TYPE_KEY@) && p@ == db@[Self::TYPE_KEY@],
                None => !db@.contains_key(Self::TYPE_KEY@),
            },
    {
        db.get_config(Self::TYPE_KEY)
    }
}

} // verus!

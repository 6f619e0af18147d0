//! The parser for declarative `key = "value"` annotations on a type.
//!
//! The input is a sequence of tokens: punctuation, identifiers, literals and
//! nested groups. Recognized keys are `config_dir`, `file_name`, `save_format`
//! and `panic_on_error`.

use vstd::prelude::*;
use crate::error::ConfigError;
use crate::format::{default_format, format_named, str_equal, SaveFormat};
use crate::params::{merge_view, unset_view, ParamsView, PersistentConfigParameters};

verus! {

/// One token of an annotation.
pub enum AnnotationToken {
    /// A punctuation character, such as `=` or `,`.
    Punct(char),
    /// A delimited group, parsed on its own and merged into the result.
    Group(Vec<AnnotationToken>),
    /// An identifier.
    Ident(String),
    /// A literal as written, quotes included.
    Literal(String),
}

/// The keys an annotation can set.
#[derive(Clone, Copy, Debug, PartialEq, Eq, Structural)]
pub enum ConfigKey {
    ConfigDir,
    FileName,
    Format,
    PanicOnError,
}

pub open spec fn key_named(s: Seq<char>) -> Option<ConfigKey> {
    if s == "config_dir"@ {
        Some(ConfigKey::ConfigDir)
    } else if s == "file_name"@ {
        Some(ConfigKey::FileName)
    } else if s == "save_format"@ {
        Some(ConfigKey::Format)
    } else if s == "panic_on_error"@ {
        Some(ConfigKey::PanicOnError)
    } else {
        None
    }
}

pub open spec fn bool_named(s: Seq<char>) -> Option<bool> {
    if s == "true"@ {
        Some(true)
    } else if s == "false"@ {
        Some(false)
    } else {
        None
    }
}

/// A literal without one pair of surrounding double quotes, if it has them.
pub open spec fn strip_quotes(s: Seq<char>) -> Seq<char> {
    if s.len() >= 2 && s[0] == '"' && s.last() == '"' {
        s.subrange(1, s.len() - 1)
    } else {
        s
    }
}

/// Sets the field that `k` names to the text `v`. A format name that is not
/// recognized gives the default format; an error policy that is neither `true`
/// nor `false` makes the annotation invalid.
pub open spec fn assign(p: ParamsView, k: ConfigKey, v: Seq<char>) -> Option<ParamsView> {
    match k {
        ConfigKey::ConfigDir => Some(ParamsView { config_dir: v, ..p }),
        ConfigKey::FileName => Some(ParamsView { file_name: v, ..p }),
        ConfigKey::Format => Some(
            ParamsView {
                save_format: match format_named(v) {
                    Some(f) => f,
                    None => default_format(),
                },
                ..p
            },
        ),
        ConfigKey::PanicOnError => match bool_named(v) {
            Some(b) => Some(ParamsView { panic_on_error: b, ..p }),
            None => None,
        },
    }
}

/// The parser's state: the parameters so far, the key waiting for a value,
/// and whether an `=` has followed that key.
pub struct ScanView {
    pub params: ParamsView,
    pub pending: Option<ConfigKey>,
    pub armed: bool,
}

pub open spec fn start_view() -> ScanView {
    ScanView { params: unset_view(), pending: None, armed: false }
}

pub open spec fn cleared(p: ParamsView) -> ScanView {
    ScanView { params: p, pending: None, armed: false }
}

/// One token that is not a group. A recognized key becomes the pending key,
/// another identifier changes nothing; `=` right after a pending key arms the
/// capture, other punctuation clears the pending key; a literal while armed is
/// captured, otherwise ignored. `None` where the captured value is invalid.
pub open spec fn step(st: ScanView, t: AnnotationToken) -> Option<ScanView> {
    match t {
        AnnotationToken::Ident(s) => match key_named(s@) {
            Some(k) => Some(ScanView { pending: Some(k), armed: false, ..st }),
            None => Some(st),
        },
        AnnotationToken::Punct(c) => if c == '=' && st.pending is Some && !st.armed {
            Some(ScanView { armed: true, ..st })
        } else {
            Some(cleared(st.params))
        },
        AnnotationToken::Literal(l) => if st.armed && st.pending is Some {
            match assign(st.params, st.pending->Some_0, strip_quotes(l@)) {
                Some(p) => Some(cleared(p)),
                None => None,
            }
        } else {
            Some(st)
        },
        AnnotationToken::Group(_) => Some(st),
    }
}

/// Runs the parser over `ts` from state `st`. A group is parsed from the start
/// state on its own; its parameters are merged over those so far.
pub open spec fn scan(ts: Seq<AnnotationToken>, st: ScanView) -> Option<ScanView>
    decreases ts,
{
    if ts.len() == 0 {
        Some(st)
    } else {
        let rest = ts.subrange(1, ts.len() as int);
        match ts[0] {
            AnnotationToken::Group(g) => match scan(g@, start_view()) {
                Some(inner) => scan(rest, cleared(merge_view(st.params, inner.params))),
                None => None,
            },
            t => match step(st, t) {
                Some(next) => scan(rest, next),
                None => None,
            },
        }
    }
}

/// What an annotation resolves to, or `None` where it is invalid.
pub open spec fn parse_view(ts: Seq<AnnotationToken>) -> Option<ParamsView> {
    match scan(ts, start_view()) {
        Some(st) => Some(st.params),
        None => None,
    }
}

/// Recognizes one of the four keys.
pub fn key_of(s: &str) -> (r: Option<ConfigKey>)
    ensures
        r == key_named(s@),
{
    if str_equal(s, "config_dir") {
        Some(ConfigKey::ConfigDir)
    } else if str_equal(s, "file_name") {
        Some(ConfigKey::FileName)
    } else if str_equal(s, "save_format") {
        Some(ConfigKey::Format)
    } else if str_equal(s, "panic_on_error") {
        Some(ConfigKey::PanicOnError)
    } else {
        None
    }
}

/// Reads `true` or `false`.
pub fn bool_of(s: &str) -> (r: Option<bool>)
    ensures
        r == bool_named(s@),
{
    if str_equal(s, "true") {
        Some(true)
    } else if str_equal(s, "false") {
        Some(false)
    } else {
        None
    }
}

/// Removes one pair of surrounding double quotes from a literal.
pub fn unquote(s: &str) -> (r: String)
    ensures
        r@ == strip_quotes(s@),
{
    let n = s.unicode_len();
    if n >= 2 && s.get_char(0) == '"' && s.get_char(n - 1) == '"' {
        String::from_str(s.substring_char(1, n - 1))
    } else {
        String::from_str(s)
    }
}

/// Sets the field that `key` names to `value`, as `assign` states.
fn apply_value(params: &mut PersistentConfigParameters, key: ConfigKey, value: String) -> (ok:
    bool)
    ensures
        match assign(old(params)@, key, value@) {
            Some(p) => ok && final(params)@ == p,
            None => !ok && final(params)@ == old(params)@,
        },
{
    match key {
        ConfigKey::ConfigDir => {
            params.config_dir = value;
            true
        },
        ConfigKey::FileName => {
            params.file_name = value;
            true
        },
        ConfigKey::Format => {
            params.save_format = match SaveFormat::from_name(value.as_str()) {
                Some(f) => f,
                None => SaveFormat::default(),
            };
            true
        },
        ConfigKey::PanicOnError => match bool_of(value.as_str()) {
            Some(b) => {
                params.panic_on_error = b;
                true
            },
            None => false,
        },
    }
}

/// Parses an annotation into parameters. Fields that it does not set stay
/// unset; an error policy that is neither `true` nor `false`, at any
/// depth, is a `ConfigParseError`.
pub fn parse_annotation(tokens: &Vec<AnnotationToken>) -> (r: Result<
    PersistentConfigParameters,
    ConfigError,
>)
    ensures
        match parse_view(tokens@) {
            Some(p) => r is Ok && r->Ok_0@ == p,
            None => r == Err::<PersistentConfigParameters, ConfigError>(
                ConfigError::ConfigParseError,
            ),
        },
    decreases tokens@,
{
    let n = tokens.len();
    let mut params = PersistentConfigParameters::unset();
    let mut pending: Option<ConfigKey> = None;
    let mut armed = false;
    let mut i: usize = 0;
    assert(tokens@.subrange(0, n as int) == tokens@);
    while i < n
        invariant
            n == tokens@.len(),
            i <= n,
            scan(tokens@, start_view()) == scan(
                tokens@.subrange(i as int, n as int),
                ScanView { params: params@, pending, armed },
            ),
        decreases n - i,
    {
        let ghost ts = tokens@.subrange(i as int, n as int);
        let ghost st = ScanView { params: params@, pending, armed };
        assert(ts[0] == tokens@[i as int]);
        assert(ts.subrange(1, ts.len() as int) == tokens@.subrange(i + 1, n as int));
        match &tokens[i] {
            AnnotationToken::Group(g) => {
                assert(decreases_to!(tokens@ => g@)) by {
                    assert(decreases_to!(tokens@ => tokens@[i as int]));
                }
                match parse_annotation(g) {
                    Ok(inner) => {
                        params = PersistentConfigParameters::merge(&params, &inner);
                        pending = None;
                        armed = false;
                    },
                    Err(e) => {
                        return Err(e);
                    },
                }
            },
            AnnotationToken::Ident(s) => {
                match key_of(s.as_str()) {
                    Some(k) => {
                        pending = Some(k);
                        armed = false;
                    },
                    None => {},
                }
            },
            AnnotationToken::Punct(c) => {
                if *c == '=' && pending.is_some() && !armed {
                    armed = true;
                } else {
                    pending = None;
                    armed = false;
                }
            },
            AnnotationToken::Literal(l) => {
                if armed && pending.is_some() {
                    let key = pending.unwrap();
                    let value = unquote(l.as_str());
                    if !apply_value(&mut params, key, value) {
                        return Err(ConfigError::ConfigParseError);
                    }
                    pending = None;
                    armed = false;
                }
            },
        }
        i = i + 1;
    }
    Ok(params)
}

/// The identifiers that the parser ignores because they name no key, in the
/// order they occur, those inside groups included.
pub open spec fn ignored_view(ts: Seq<AnnotationToken>) -> Seq<Seq<char>>
    decreases ts,
{
    if ts.len() == 0 {
        Seq::empty()
    } else {
        let rest = ts.subrange(1, ts.len() as int);
        match ts[0] {
            AnnotationToken::Group(g) => ignored_view(g@) + ignored_view(rest),
            AnnotationToken::Ident(s) => if key_named(s@) is None {
                seq![s@] + ignored_view(rest)
            } else {
                ignored_view(rest)
            },
            _ => ignored_view(rest),
        }
    }
}

/// The views of a sequence of strings.
pub open spec fn strings_view(v: Seq<String>) -> Seq<Seq<char>> {
    v.map_values(|s: String| s@)
}

/// The identifiers of an annotation that name no key, for a diagnostic.
pub fn ignored_identifiers(tokens: &Vec<AnnotationToken>) -> (r: Vec<String>)
    ensures
        strings_view(r@) == ignored_view(tokens@),
    decreases tokens@,
{
    let n = tokens.len();
    let mut out: Vec<String> = Vec::new();
    let mut i: usize = 0;
    assert(tokens@.subrange(0, n as int) == tokens@);
    assert(strings_view(out@) == Seq::<Seq<char>>::empty());
    while i < n
        invariant
            n == tokens@.len(),
            i <= n,
            strings_view(out@) + ignored_view(tokens@.subrange(i as int, n as int)) == ignored_view(
                tokens@,
            ),
        decreases n - i,
    {
        let ghost ts = tokens@.subrange(i as int, n as int);
        let ghost before = strings_view(out@);
        assert(ts[0] == tokens@[i as int]);
        assert(ts.subrange(1, ts.len() as int) == tokens@.subrange(i + 1, n as int));
        let ghost rest = ignored_view(tokens@.subrange(i + 1, n as int));
        match &tokens[i] {
            AnnotationToken::Group(g) => {
                assert(decreases_to!(tokens@ => g@)) by {
                    assert(decreases_to!(tokens@ => tokens@[i as int]));
                }
                let mut inner = ignored_identifiers(g);
                let ghost got = inner@;
                out.append(&mut inner);
                assert(strings_view(out@) == before + ignored_view(g@)) by {
                    assert(strings_view(out@) =~= before + strings_view(got));
                }
                assert(before + (ignored_view(g@) + rest) == (before + ignored_view(g@)) + rest);
            },
            AnnotationToken::Ident(s) => {
                if key_of(s.as_str()).is_none() {
                    out.push(s.clone());
                    assert(strings_view(out@) =~= before + seq![s@]);
                    assert(before + (seq![s@] + rest) == (before + seq![s@]) + rest);
                }
            },
            _ => {},
        }
        i = i + 1;
    }
    assert(strings_view(out@) + ignored_view(tokens@.subrange(n as int, n as int)) == strings_view(
        out@,
    )) by {
        assert(ignored_view(tokens@.subrange(n as int, n as int)) == Seq::<Seq<char>>::empty());
        assert(strings_view(out@) + Seq::<Seq<char>>::empty() =~= strings_view(out@));
    }
    out
}

} // verus!

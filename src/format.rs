//! The on-disk formats and their file extensions.

use vstd::prelude::*;

verus! {

/// Supported formats for saving configuration files.
#[derive(Clone, Copy, Debug, PartialEq, Eq, Structural)]
pub enum SaveFormat {
    /// JSON (`.json`)
    JSON,
    /// TOML (`.toml`), the default
    TOML,
    /// YAML (`.yaml`)
    YAML,
}

/// The format used when none is chosen.
pub open spec fn default_format() -> SaveFormat {
    SaveFormat::TOML
}

/// The extension, and the name, of each format.
pub open spec fn ext_of(f: SaveFormat) -> Seq<char> {
    match f {
        SaveFormat::JSON => "json"@,
        SaveFormat::TOML => "toml"@,
        SaveFormat::YAML => "yaml"@,
    }
}

/// The format that a name stands for, if any.
pub open spec fn format_named(s: Seq<char>) -> Option<SaveFormat> {
    if s == "json"@ {
        Some(SaveFormat::JSON)
    } else if s == "toml"@ {
        Some(SaveFormat::TOML)
    } else if s == "yaml"@ {
        Some(SaveFormat::YAML)
    } else {
        None
    }
}

/// Compares two string slices character by character.
pub fn str_equal(a: &str, b: &str) -> (r: bool)
    ensures
        r == (a@ == b@),
{
    let n = a.unicode_len();
    if n != b.unicode_len() {
        return false;
    }
    let mut i: usize = 0;
    while i < n
        invariant
            n == a@.len(),
            n == b@.len(),
            i <= n,
            a@.subrange(0, i as int) == b@.subrange(0, i as int),
        decreases n - i,
    {
        if a.get_char(i) != b.get_char(i) {
            assert(a@[i as int] != b@[i as int]);
            return false;
        }
        assert(a@.subrange(0, i + 1) == a@.subrange(0, i as int).push(a@[i as int]));
        assert(b@.subrange(0, i + 1) == b@.subrange(0, i as int).push(b@[i as int]));
        i = i + 1;
    }
    assert(a@ == a@.subrange(0, n as int));
    assert(b@ == b@.subrange(0, n as int));
    true
}

impl Default for SaveFormat {
    fn default() -> (r: SaveFormat)
        ensures
            r == default_format(),
    {
        SaveFormat::TOML
    }
}

impl SaveFormat {
    /// Returns the file extension associated with this format.
    pub fn ext(&self) -> (r: &'static str)
        ensures
            r@ == ext_of(*self),
    {
        match self {
            SaveFormat::JSON => "json",
            SaveFormat::TOML => "toml",
            SaveFormat::YAML => "yaml",
        }
    }

    /// The name of this format as an owned string (the same as its extension).
    pub fn to_name(&self) -> (r: String)
        ensures
            r@ == ext_of(*self),
    {
        String::from_str(self.ext())
    }

    /// Reads a format from its exact name: `json`, `toml` or `yaml`.
    pub fn from_name(s: &str) -> (r: Option<SaveFormat>)
        ensures
            r == format_named(s@),
    {
        if str_equal(s, "json") {
            Some(SaveFormat::JSON)
        } else if str_equal(s, "toml") {
            Some(SaveFormat::TOML)
        } else if str_equal(s, "yaml") {
            Some(SaveFormat::YAML)
        } else {
            None
        }
    }
}

/// The error of reading a format from a name that is none of the three.
pub const UNSUPPORTED_FORMAT: &'static str = "Unsupported format: use 'json', 'toml', or 'yaml'";

/// The result of reading a format from a name.
pub open spec fn try_format_named(s: Seq<char>) -> Result<SaveFormat, &'static str> {
    match format_named(s) {
        Some(f) => Ok(f),
        None => Err(UNSUPPORTED_FORMAT),
    }
}

impl<'a> TryFrom<&'a str> for SaveFormat {
    type Error = &'static str;

    fn try_from(value: &'a str) -> (r: Result<SaveFormat, &'static str>) {
        match SaveFormat::from_name(value) {
            Some(f) => Ok(f),
            None => Err(UNSUPPORTED_FORMAT),
        }
    }
}

impl<'a> vstd::std_specs::convert::TryFromSpecImpl<&'a str> for SaveFormat {
    open spec fn obeys_try_from_spec() -> bool {
        true
    }

    open spec fn try_from_spec(value: &'a str) -> Result<SaveFormat, &'static str> {
        try_format_named(value@)
    }
}

impl TryFrom<String> for SaveFormat {
    type Error = &'static str;

    fn try_from(value: String) -> (r: Result<SaveFormat, &'static str>) {
        match SaveFormat::from_name(value.as_str()) {
            Some(f) => Ok(f),
            None => Err(UNSUPPORTED_FORMAT),
        }
    }
}

impl vstd::std_specs::convert::TryFromSpecImpl<String> for SaveFormat {
    open spec fn obeys_try_from_spec() -> bool {
        true
    }

    open spec fn try_from_spec(value: String) -> Result<SaveFormat, &'static str> {
        try_format_named(value@)
    }
}

impl TryFrom<SaveFormat> for String {
    type Error = &'static str;

    /// The format's name; never fails.
    fn try_from(value: SaveFormat) -> (r: Result<String, &'static str>)
        ensures
            r is Ok && r->Ok_0@ == ext_of(value),
    {
        Ok(value.to_name())
    }
}

/// A `String` has no value in spec code to state the result with, so the
/// contract is the one on `try_from` itself.
impl vstd::std_specs::convert::TryFromSpecImpl<SaveFormat> for String {
    open spec fn obeys_try_from_spec() -> bool {
        false
    }

    open spec fn try_from_spec(value: SaveFormat) -> Result<String, &'static str> {
        Err(UNSUPPORTED_FORMAT)
    }
}

/// The three names are distinct, so reading a format's name gives it back.
pub proof fn lemma_name_round_trip(f: SaveFormat)
    ensures
        format_named(ext_of(f)) == Some(f),
{
    reveal_strlit("json");
    reveal_strlit("toml");
    reveal_strlit("yaml");
    assert("json"@ != "toml"@ && "json"@ != "yaml"@ && "toml"@ != "yaml"@) by {
        assert("json"@[0] != "toml"@[0]);
        assert("json"@[0] != "yaml"@[0]);
        assert("toml"@[0] != "yaml"@[0]);
    }
}

} // verus!

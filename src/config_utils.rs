//! Configuration file names and formats.
//!
//! A configuration file is named `<stem>.<extension>`, and its extension decides the format
//! in which it is parsed. Reading and parsing the files happens around the library.
use vstd::prelude::*;

use config::FileStoredFormat;

verus! {

/// Formats that a configuration file can be written in.
#[derive(Debug, Clone, Copy, PartialEq, Eq, Structural)]
pub enum ConfigFormat {
    /// INI.
    Ini,
    /// JSON.
    Json,
    /// JSON5.
    Json5,
    /// RON.
    Ron,
    /// TOML.
    Toml,
    /// YAML.
    Yaml,
}

/// The file extensions of each format.
pub open spec fn format_extensions_spec(format: ConfigFormat) -> Seq<Seq<char>> {
    match format {
        ConfigFormat::Ini => seq!["ini"@],
        ConfigFormat::Json => seq!["json"@],
        ConfigFormat::Json5 => seq!["json5"@],
        ConfigFormat::Ron => seq!["ron"@],
        ConfigFormat::Toml => seq!["toml"@],
        ConfigFormat::Yaml => seq!["yaml"@, "yml"@],
    }
}

/// The format is read from files with extension `ext`.
pub open spec fn has_extension(format: ConfigFormat, ext: Seq<char>) -> bool {
    format_extensions_spec(format).contains(ext)
}

/// Why a configuration file name cannot be used.
#[derive(Debug, Clone, Copy, PartialEq, Eq, Structural)]
pub enum ConfigError {
    /// The name holds no `.`, so it has no extension.
    MissingExtension,
    /// The name has nothing before its extension.
    EmptyFileStem,
    /// No supported format has the name's extension.
    UnsupportedFormat,
}

/// Relies on `config::FileStoredFormat::file_extensions` of `config::FileFormat`: the
/// extensions of each format, as the crate lists them (`yaml` and `yml` for YAML, the format's
/// own name for the others).
#[verifier::external_body]
fn format_extensions(format: ConfigFormat) -> (r: Vec<String>)
    ensures
        r@.len() == format_extensions_spec(format).len(),
        forall|i: int| 0 <= i < r@.len() ==> #[trigger] r@[i]@ == format_extensions_spec(format)[i],
{
    let file_format = match format {
        ConfigFormat::Ini => config::FileFormat::Ini,
        ConfigFormat::Json => config::FileFormat::Json,
        ConfigFormat::Json5 => config::FileFormat::Json5,
        ConfigFormat::Ron => config::FileFormat::Ron,
        ConfigFormat::Toml => config::FileFormat::Toml,
        ConfigFormat::Yaml => config::FileFormat::Yaml,
    };
    file_format.file_extensions().iter().map(|e| e.to_string()).collect()
}

/// Returns whether `ext` is one of `extensions`.
fn contains_extension(extensions: &Vec<String>, ext: &String) -> (r: bool)
    ensures
        r == exists|i: int| 0 <= i < extensions@.len() && #[trigger] extensions@[i]@ == ext@,
{
    let mut i: usize = 0;
    while i < extensions.len()
        invariant
            i <= extensions@.len(),
            forall|j: int| 0 <= j < i ==> #[trigger] extensions@[j]@ != ext@,
        decreases extensions@.len() - i,
    {
        if extensions[i] == *ext {
            return true;
        }
        i += 1;
    }
    false
}

/// Returns the format whose files have the extension `ext`.
///
/// The extensions of the formats are distinct, so at most one format fits.
pub fn try_into_format(ext: &str) -> (r: Result<ConfigFormat, ConfigError>)
    ensures
        match r {
            Ok(format) => has_extension(format, ext@) && forall|g: ConfigFormat|
                #[trigger] has_extension(g, ext@) ==> g == format,
            Err(e) => e == ConfigError::UnsupportedFormat && forall|f: ConfigFormat|
                !#[trigger] has_extension(f, ext@),
        },
{
    let ext_string = ext.to_string();
    assert(ext_string@ == ext@);
    let formats = vec![
        ConfigFormat::Ini,
        ConfigFormat::Json,
        ConfigFormat::Json5,
        ConfigFormat::Ron,
        ConfigFormat::Toml,
        ConfigFormat::Yaml,
    ];
    let mut i: usize = 0;
    while i < formats.len()
        invariant
            i <= formats@.len(),
            ext_string@ == ext@,
            formats@ == seq![
                ConfigFormat::Ini,
                ConfigFormat::Json,
                ConfigFormat::Json5,
                ConfigFormat::Ron,
                ConfigFormat::Toml,
                ConfigFormat::Yaml,
            ],
            forall|j: int| 0 <= j < i ==> !#[trigger] has_extension(formats@[j], ext_string@),
        decreases formats@.len() - i,
    {
        let format = formats[i];
        let extensions = format_extensions(format);
        if contains_extension(&extensions, &ext_string) {
            proof {
                let k = choose|k: int| 0 <= k < extensions@.len() && #[trigger] extensions@[k]@ == ext_string@;
                assert(format_extensions_spec(format)[k] == ext_string@);
                assert(format_extensions_spec(format).contains(ext_string@));
                assert forall|g: ConfigFormat| #[trigger] has_extension(g, ext_string@) implies g
                    == format by {
                    lemma_extensions_disjoint(g, format, ext_string@);
                }
            }
            return Ok(format);
        }
        proof {
            assert forall|k: int| 0 <= k < format_extensions_spec(format).len() implies
                format_extensions_spec(format)[k] != ext_string@ by {
                assert(extensions@[k]@ == format_extensions_spec(format)[k]);
            }
        }
        i += 1;
    }
    proof {
        assert forall|f: ConfigFormat| !#[trigger] has_extension(f, ext_string@) by {
            match f {
                ConfigFormat::Ini => assert(formats@[0] == f),
                ConfigFormat::Json => assert(formats@[1] == f),
                ConfigFormat::Json5 => assert(formats@[2] == f),
                ConfigFormat::Ron => assert(formats@[3] == f),
                ConfigFormat::Toml => assert(formats@[4] == f),
                ConfigFormat::Yaml => assert(formats@[5] == f),
            }
        }
    }
    Err(ConfigError::UnsupportedFormat)
}

/// No two formats share an extension.
pub proof fn lemma_extensions_disjoint(f: ConfigFormat, g: ConfigFormat, ext: Seq<char>)
    requires
        has_extension(f, ext),
        has_extension(g, ext),
    ensures
        f == g,
{
    reveal_strlit("ini");
    reveal_strlit("json");
    reveal_strlit("json5");
    reveal_strlit("ron");
    reveal_strlit("toml");
    reveal_strlit("yaml");
    reveal_strlit("yml");
    let fs = format_extensions_spec(f);
    let gs = format_extensions_spec(g);
    let i = choose|i: int| 0 <= i < fs.len() && fs[i] == ext;
    let j = choose|j: int| 0 <= j < gs.len() && gs[j] == ext;
    assert(fs[i] == gs[j]);
    if f != g {
        assert(fs[i].len() != gs[j].len() || exists|k: int| 0 <= k < fs[i].len() && fs[i][k] != gs[j][k]) by {
            match f {
                ConfigFormat::Ini => assert(fs[i][0] == 'i'),
                ConfigFormat::Json => assert(fs[i][1] == 's'),
                ConfigFormat::Json5 => assert(fs[i].len() == 5),
                ConfigFormat::Ron => assert(fs[i][0] == 'r'),
                ConfigFormat::Toml => assert(fs[i][0] == 't'),
                ConfigFormat::Yaml => assert(fs[i][0] == 'y'),
            }
            match g {
                ConfigFormat::Ini => assert(gs[j][0] == 'i'),
                ConfigFormat::Json => assert(gs[j][1] == 's'),
                ConfigFormat::Json5 => assert(gs[j].len() == 5),
                ConfigFormat::Ron => assert(gs[j][0] == 'r'),
                ConfigFormat::Toml => assert(gs[j][0] == 't'),
                ConfigFormat::Yaml => assert(gs[j][0] == 'y'),
            }
        }
    }
}

/// `d` is the position of the last `.` in `s`.
pub open spec fn is_last_dot(s: Seq<char>, d: int) -> bool {
    &&& 0 <= d < s.len()
    &&& s[d] == '.'
    &&& forall|j: int| d < j < s.len() ==> s[j] != '.'
}

/// `s` holds no `.`.
pub open spec fn has_no_dot(s: Seq<char>) -> bool {
    forall|j: int| 0 <= j < s.len() ==> s[j] != '.'
}

fn find_last_dot(s: &str) -> (r: Option<usize>)
    ensures
        match r {
            Some(d) => is_last_dot(s@, d as int),
            None => has_no_dot(s@),
        },
{
    let len = s.unicode_len();
    let mut i = len;
    while i > 0
        invariant
            i <= len,
            len == s@.len(),
            forall|j: int| i <= j < len ==> s@[j] != '.',
        decreases i,
    {
        if s.get_char(i - 1) == '.' {
            return Some(i - 1);
        }
        i -= 1;
    }
    None
}

/// Metadata for a config file.
#[derive(Debug, PartialEq, Eq)]
pub struct ConfigFileMetadata {
    /// Config file name with extension.
    pub name: String,
    /// The format that the extension names.
    pub ext: ConfigFormat,
}

impl ConfigFileMetadata {
    /// Reads a configuration file's name, `<stem>.<extension>`: the extension is what follows
    /// the last `.`, and must name a supported format; the stem must not be empty.
    ///
    /// # Arguments
    /// * `file_name` - Name of the file including the extension.
    pub fn new(file_name: &str) -> (r: Result<Self, ConfigError>)
        ensures
            has_no_dot(file_name@) ==> r == Err::<Self, ConfigError>(ConfigError::MissingExtension),
            forall|d: int| #[trigger] is_last_dot(file_name@, d) ==> {
                let ext = file_name@.subrange(d + 1, file_name@.len() as int);
                &&& (forall|f: ConfigFormat| !#[trigger] has_extension(f, ext)) ==> r == Err::<
                    Self,
                    ConfigError,
                >(ConfigError::UnsupportedFormat)
                &&& forall|f: ConfigFormat| #[trigger] has_extension(f, ext) ==> if d == 0 {
                    r == Err::<Self, ConfigError>(ConfigError::EmptyFileStem)
                } else {
                    r is Ok && r->Ok_0.name@ == file_name@ && r->Ok_0.ext == f
                }
            },
    {
        match find_last_dot(file_name) {
            None => Err(ConfigError::MissingExtension),
            Some(d) => {
                proof {
                    assert forall|d2: int| #[trigger] is_last_dot(file_name@, d2) implies d2
                        == d by {
                        if d2 < d {
                            assert(file_name@[d as int] != '.');
                        } else if d2 > d {
                            assert(file_name@[d2] != '.');
                        }
                    }
                }
                let len = file_name.unicode_len();
                let ext = file_name.substring_char(d + 1, len);
                match try_into_format(ext) {
                    Err(e) => Err(e),
                    Ok(format) => {
                        proof {
                            assert forall|f: ConfigFormat| #[trigger] has_extension(f, ext@) implies f
                                == format by {
                                lemma_extensions_disjoint(f, format, ext@);
                            }
                        }
                        if d == 0 {
                            Err(ConfigError::EmptyFileStem)
                        } else {
                            Ok(ConfigFileMetadata { name: file_name.to_string(), ext: format })
                        }
                    },
                }
            },
        }
    }
}

} // verus!

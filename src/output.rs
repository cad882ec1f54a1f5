//! Output formats and the byte sink that every command writes its result to.
use vstd::prelude::*;
use crate::text::{str_eq, owned};
use vstd::utf8::encode_utf8;

verus! {

/// The encodings a response can be printed in.
#[derive(Clone, Copy, Debug, PartialEq, Eq, Structural)]
pub enum OutputFormat {
    Json,
    Yaml,
    Toml,
    Text,
}

/// The name under which a format is selected on the command line.
pub open spec fn format_name(f: OutputFormat) -> Seq<char> {
    match f {
        OutputFormat::Json => "json"@,
        OutputFormat::Yaml => "yaml"@,
        OutputFormat::Toml => "toml"@,
        OutputFormat::Text => "text"@,
    }
}

/// The format that a command-line word selects, if any; `yml` is accepted as
/// a second spelling of `yaml`.
pub open spec fn format_of_name(s: Seq<char>) -> Option<OutputFormat> {
    if s == "json"@ {
        Some(OutputFormat::Json)
    } else if s == "yaml"@ || s == "yml"@ {
        Some(OutputFormat::Yaml)
    } else if s == "toml"@ {
        Some(OutputFormat::Toml)
    } else if s == "text"@ {
        Some(OutputFormat::Text)
    } else {
        None
    }
}

impl Default for OutputFormat {
    fn default() -> (r: OutputFormat)
        ensures
            r == OutputFormat::Json,
    {
        OutputFormat::Json
    }
}

impl OutputFormat {
    /// Reads a format from its command-line name.
    pub fn parse(s: &str) -> (r: Result<OutputFormat, ParseOutputFormatError>)
        ensures
            format_of_name(s@) is Some ==> r == Ok::<OutputFormat, ParseOutputFormatError>(
                format_of_name(s@).unwrap(),
            ),
            format_of_name(s@) is None ==> r is Err && r->Err_0.input@ == s@,
    {
        if str_eq(s, "json") {
            Ok(OutputFormat::Json)
        } else if str_eq(s, "yaml") || str_eq(s, "yml") {
            Ok(OutputFormat::Yaml)
        } else if str_eq(s, "toml") {
            Ok(OutputFormat::Toml)
        } else if str_eq(s, "text") {
            Ok(OutputFormat::Text)
        } else {
            Err(ParseOutputFormatError { input: owned(s) })
        }
    }

    /// The command-line name of the format.
    pub fn name(&self) -> (r: &'static str)
        ensures
            r@ == format_name(*self),
    {
        match self {
            OutputFormat::Json => "json",
            OutputFormat::Yaml => "yaml",
            OutputFormat::Toml => "toml",
            OutputFormat::Text => "text",
        }
    }
}

impl std::str::FromStr for OutputFormat {
    type Err = ParseOutputFormatError;

    fn from_str(s: &str) -> Result<OutputFormat, ParseOutputFormatError> {
        OutputFormat::parse(s)
    }
}

/// A command-line word that names no output format.
#[derive(Debug, PartialEq, Eq)]
pub struct ParseOutputFormatError {
    pub input: String,
}

impl ParseOutputFormatError {
    /// The message shown to the user.
    pub fn message(&self) -> (r: String)
        ensures
            r@ == "provided invalid output format: "@ + self.input@,
    {
        let mut m = String::from_str("provided invalid output format: ");
        m.append(self.input.as_str());
        m
    }
}

/// Encoding a response, or writing it to the sink, failed.
#[derive(Clone, Copy, Debug, PartialEq, Eq, Structural)]
pub struct OutputError {}

impl OutputError {
    /// The message shown to the user.
    pub fn message(&self) -> (r: &'static str)
        ensures
            r@ == "unexpected output error"@,
    {
        "unexpected output error"
    }
}

/// The sink of one command run: a chosen format and the bytes written so far.
pub struct Output {
    pub format: OutputFormat,
    writer: Vec<u8>,
}

impl Output {
    /// The bytes written so far.
    pub closed spec fn bytes(&self) -> Seq<u8> {
        self.writer@
    }

    /// The format responses are encoded in.
    pub closed spec fn chosen_format(&self) -> OutputFormat {
        self.format
    }

    /// The format responses are encoded in.
    pub fn format(&self) -> (r: OutputFormat)
        ensures
            r == self.chosen_format(),
    {
        self.format
    }

    /// A sink in `format` whose first bytes are those already in `writer`.
    pub fn new(format: OutputFormat, writer: Vec<u8>) -> (r: Output)
        ensures
            r.chosen_format() == format,
            r.bytes() == writer@,
    {
        Output { format, writer }
    }

    /// Writes one encoded response. `encoded` is the outcome of encoding the
    /// response in `self.format`: on success its text is appended to the sink
    /// as UTF-8; on failure nothing is written and the error is returned.
    pub fn write(&mut self, encoded: Result<String, OutputError>) -> (r: Result<(), OutputError>)
        ensures
            final(self).chosen_format() == old(self).chosen_format(),
            encoded is Ok ==> r is Ok && final(self).bytes() == old(self).bytes()
                + encode_utf8(encoded->Ok_0@),
            encoded is Err ==> r == Err::<(), OutputError>(encoded->Err_0) && final(self).bytes()
                == old(self).bytes(),
    {
        match encoded {
            Ok(text) => {
                let b: &[u8] = text.as_str().as_bytes();
                let ghost start = self.writer@;
                let mut i: usize = 0;
                while i < b.len()
                    invariant
                        0 <= i <= b@.len(),
                        self.format == old(self).format,
                        self.writer@ == start + b@.subrange(0, i as int),
                    decreases b@.len() - i,
                {
                    self.writer.push(b[i]);
                    proof {
                        assert(b@.subrange(0, i + 1) == b@.subrange(0, i as int).push(b@[i as int]));
                    }
                    i = i + 1;
                }
                proof {
                    assert(b@.subrange(0, b@.len() as int) == b@);
                }
                Ok(())
            },
            Err(e) => Err(e),
        }
    }

    /// Encodes the string `value` in the sink's format and writes it. JSON
    /// and the debug text always succeed. A TOML document must be a table,
    /// so a bare string is refused in TOML. A failure of the YAML emitter is
    /// returned. On failure nothing is written.
    pub fn write_text(&mut self, value: &str) -> (r: Result<(), OutputError>)
        ensures
            final(self).chosen_format() == old(self).chosen_format(),
            r is Ok ==> text_encoding(old(self).chosen_format(), value@) is Some
                && final(self).bytes() == old(self).bytes() + encode_utf8(
                text_encoding(old(self).chosen_format(), value@).unwrap(),
            ),
            r is Err ==> final(self).bytes() == old(self).bytes(),
            old(self).chosen_format() == OutputFormat::Toml ==> r is Err,
            old(self).chosen_format() == OutputFormat::Json || old(self).chosen_format()
                == OutputFormat::Text ==> r is Ok,
    {
        let encoded = match self.format {
            OutputFormat::Json => json_of_str(value),
            OutputFormat::Yaml => yaml_of_str(value),
            OutputFormat::Toml => toml_of_str(value),
            OutputFormat::Text => Ok(debug_of_str(value)),
        };
        self.write(encoded)
    }

    /// Gives back the bytes written so far.
    pub fn into_vec(self) -> (r: Vec<u8>)
        ensures
            r@ == self.bytes(),
    {
        self.writer
    }
}

/// The JSON string literal that holds `s`.
pub uninterp spec fn json_text(s: Seq<char>) -> Seq<char>;

/// The YAML document that holds the string `s`.
pub uninterp spec fn yaml_text(s: Seq<char>) -> Seq<char>;

/// The debug rendering of the string `s`: quoted, with escapes.
pub uninterp spec fn debug_text(s: Seq<char>) -> Seq<char>;

/// How a string is encoded in each format; TOML has no encoding for it.
pub open spec fn text_encoding(f: OutputFormat, s: Seq<char>) -> Option<Seq<char>> {
    match f {
        OutputFormat::Json => Some(json_text(s)),
        OutputFormat::Yaml => Some(yaml_text(s)),
        OutputFormat::Toml => None,
        OutputFormat::Text => Some(debug_text(s)),
    }
}

/// Relies on `serde_json::to_string`: a string is written as one JSON string
/// literal, which depends on its characters alone. The literal is written
/// into a `Vec`, whose writes do not fail, so encoding a string succeeds.
#[verifier::external_body]
fn json_of_str(s: &str) -> (r: Result<String, OutputError>)
    ensures
        r is Ok,
        r is Ok ==> r->Ok_0@ == json_text(s@),
{
    match serde_json::to_string(s) {
        Ok(t) => Ok(t),
        Err(_) => Err(OutputError {}),
    }
}

/// Relies on `serde_yaml::to_string`: a string is written as a YAML document
/// holding one scalar, which depends on its characters alone.
#[verifier::external_body]
fn yaml_of_str(s: &str) -> (r: Result<String, OutputError>)
    ensures
        r is Ok ==> r->Ok_0@ == yaml_text(s@),
{
    match serde_yaml::to_string(s) {
        Ok(t) => Ok(t),
        Err(_) => Err(OutputError {}),
    }
}

/// Relies on `toml::to_string`: its document serializer refuses a bare
/// string (`serialize_str` returns an unsupported-type error), since a TOML
/// document is a table.
#[verifier::external_body]
fn toml_of_str(s: &str) -> (r: Result<String, OutputError>)
    ensures
        r is Err,
{
    match toml::to_string(s) {
        Ok(t) => Ok(t),
        Err(_) => Err(OutputError {}),
    }
}

/// Relies on `str`'s `Debug` formatting: the string quoted, with its special
/// characters escaped, which depends on its characters alone.
#[verifier::external_body]
fn debug_of_str(s: &str) -> (r: String)
    ensures
        r@ == debug_text(s@),
{
    format!("{:?}", s)
}

} // verus!

//! The output formats that a request may ask for.

use vstd::prelude::*;

verus! {

/// An output format: three raster containers and two vector drawings.
#[derive(Clone, Copy, Debug, PartialEq, Eq, Structural)]
pub enum OutputFormat {
    Jpeg,
    Png,
    Webp,
    Svg,
    Eps,
}

/// The upper-case form of a text, as `str::to_uppercase` of the standard
/// library gives it.
pub uninterp spec fn upper_case(s: Seq<char>) -> Seq<char>;

/// Calls `str::to_uppercase`. Trusted: the result is the upper-case form of
/// the argument, a function of the argument's characters alone.
#[verifier::external_body]
fn to_upper(s: &str) -> (r: String)
    ensures
        r@ == upper_case(s@),
{
    s.to_uppercase()
}

/// The format name that a request asks for: its `outputFormat` field in upper
/// case, or `PNG` where the field is absent.
pub open spec fn requested_name(field: Option<Seq<char>>) -> Seq<char> {
    match field {
        Some(text) => upper_case(text),
        None => "PNG"@,
    }
}

/// Whether two texts hold the same characters.
pub fn same_text(a: &str, b: &str) -> (r: bool)
    ensures
        r == (a@ == b@),
{
    let x = String::from_str(a);
    let y = String::from_str(b);
    x == y
}

/// Computes the format name that a request asks for.
pub fn requested_format_name(field: Option<&str>) -> (r: String)
    ensures
        r@ == requested_name(
            match field {
                Some(text) => Some(text@),
                None => None,
            },
        ),
{
    match field {
        Some(text) => to_upper(text),
        None => String::from_str("PNG"),
    }
}

impl OutputFormat {
    /// The format that an upper-case name denotes.
    pub open spec fn named(name: Seq<char>) -> Option<OutputFormat> {
        if name == "JPEG"@ {
            Some(OutputFormat::Jpeg)
        } else if name == "PNG"@ {
            Some(OutputFormat::Png)
        } else if name == "WEBP"@ {
            Some(OutputFormat::Webp)
        } else if name == "SVG"@ {
            Some(OutputFormat::Svg)
        } else if name == "EPS"@ {
            Some(OutputFormat::Eps)
        } else {
            None
        }
    }

    /// The upper-case name of the format.
    pub open spec fn name_text(self) -> Seq<char> {
        match self {
            OutputFormat::Jpeg => "JPEG"@,
            OutputFormat::Png => "PNG"@,
            OutputFormat::Webp => "WEBP"@,
            OutputFormat::Svg => "SVG"@,
            OutputFormat::Eps => "EPS"@,
        }
    }

    /// The MIME type of the format.
    pub open spec fn content_type_text(self) -> Seq<char> {
        match self {
            OutputFormat::Jpeg => "image/jpeg"@,
            OutputFormat::Png => "image/png"@,
            OutputFormat::Webp => "image/webp"@,
            OutputFormat::Svg => "image/svg+xml"@,
            OutputFormat::Eps => "application/postscript"@,
        }
    }

    /// The file extension of the format: its name in lower case.
    pub open spec fn extension_text(self) -> Seq<char> {
        match self {
            OutputFormat::Jpeg => "jpeg"@,
            OutputFormat::Png => "png"@,
            OutputFormat::Webp => "webp"@,
            OutputFormat::Svg => "svg"@,
            OutputFormat::Eps => "eps"@,
        }
    }

    /// Whether the format is a vector drawing, made by the tracer.
    pub open spec fn vector(self) -> bool {
        self == OutputFormat::Svg || self == OutputFormat::Eps
    }

    /// The tracer's flag that selects a vector format.
    pub open spec fn tracer_flag_text(self) -> Seq<char>
        recommends
            self.vector(),
    {
        if self == OutputFormat::Svg {
            "-s"@
        } else {
            "-e"@
        }
    }

    /// Reads an upper-case format name.
    pub fn from_name(name: &str) -> (r: Option<OutputFormat>)
        ensures
            r == Self::named(name@),
    {
        if same_text(name, "JPEG") {
            Some(OutputFormat::Jpeg)
        } else if same_text(name, "PNG") {
            Some(OutputFormat::Png)
        } else if same_text(name, "WEBP") {
            Some(OutputFormat::Webp)
        } else if same_text(name, "SVG") {
            Some(OutputFormat::Svg)
        } else if same_text(name, "EPS") {
            Some(OutputFormat::Eps)
        } else {
            None
        }
    }

    pub fn name(self) -> (r: &'static str)
        ensures
            r@ == self.name_text(),
    {
        match self {
            OutputFormat::Jpeg => "JPEG",
            OutputFormat::Png => "PNG",
            OutputFormat::Webp => "WEBP",
            OutputFormat::Svg => "SVG",
            OutputFormat::Eps => "EPS",
        }
    }

    pub fn content_type(self) -> (r: &'static str)
        ensures
            r@ == self.content_type_text(),
    {
        match self {
            OutputFormat::Jpeg => "image/jpeg",
            OutputFormat::Png => "image/png",
            OutputFormat::Webp => "image/webp",
            OutputFormat::Svg => "image/svg+xml",
            OutputFormat::Eps => "application/postscript",
        }
    }

    pub fn extension(self) -> (r: &'static str)
        ensures
            r@ == self.extension_text(),
    {
        match self {
            OutputFormat::Jpeg => "jpeg",
            OutputFormat::Png => "png",
            OutputFormat::Webp => "webp",
            OutputFormat::Svg => "svg",
            OutputFormat::Eps => "eps",
        }
    }

    pub fn is_vector(self) -> (r: bool)
        ensures
            r == self.vector(),
    {
        match self {
            OutputFormat::Svg => true,
            OutputFormat::Eps => true,
            _ => false,
        }
    }

    pub fn tracer_flag(self) -> (r: &'static str)
        requires
            self.vector(),
        ensures
            r@ == self.tracer_flag_text(),
    {
        match self {
            OutputFormat::Svg => "-s",
            _ => "-e",
        }
    }
}

/// A name denotes a format exactly when it is that format's own name.
pub proof fn lemma_named_is_own_name(format: OutputFormat)
    ensures
        OutputFormat::named(format.name_text()) == Some(format),
{
    reveal_strlit("JPEG");
    reveal_strlit("PNG");
    reveal_strlit("WEBP");
    reveal_strlit("SVG");
    reveal_strlit("EPS");
    match format {
        OutputFormat::Jpeg => {},
        OutputFormat::Png => {
            assert("PNG"@.len() != "JPEG"@.len());
        },
        OutputFormat::Webp => {
            assert("WEBP"@[0] != "JPEG"@[0]);
            assert("WEBP"@.len() != "PNG"@.len());
        },
        OutputFormat::Svg => {
            assert("SVG"@.len() != "JPEG"@.len());
            assert("SVG"@[0] != "PNG"@[0]);
            assert("SVG"@.len() != "WEBP"@.len());
        },
        OutputFormat::Eps => {
            assert("EPS"@.len() != "JPEG"@.len());
            assert("EPS"@[0] != "PNG"@[0]);
            assert("EPS"@.len() != "WEBP"@.len());
            assert("EPS"@[0] != "SVG"@[0]);
        },
    }
}

} // verus!

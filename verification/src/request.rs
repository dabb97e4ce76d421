//! Processing parameters and the rules that a request has to meet.

use vstd::prelude::*;
use crate::format::OutputFormat;
use crate::text::{decimal, decimal_text};

verus! {

/// The rectangle of the source image that is kept.
#[derive(Clone, Copy, Debug, PartialEq, Eq, Structural)]
pub struct CropBox {
    pub x: u32,
    pub y: u32,
    pub width: u32,
    pub height: u32,
}

/// What a request asks for, once its fields have passed the rules.
#[derive(Clone, Copy, Debug, PartialEq, Eq, Structural)]
pub struct ProcessingParameters {
    pub target_width: u32,
    pub target_height: u32,
    pub crop: CropBox,
    pub format: OutputFormat,
}

/// The texts of a list of messages.
pub open spec fn texts(messages: Seq<String>) -> Seq<Seq<char>> {
    Seq::new(messages.len(), |i: int| messages[i]@)
}

/// The list that holds `text` where `present` holds, and nothing else.
pub open spec fn optional(present: bool, text: Seq<char>) -> Seq<Seq<char>> {
    if present {
        seq![text]
    } else {
        Seq::empty()
    }
}

pub open spec fn no_file_text() -> Seq<char> {
    "No file uploaded or file was empty."@
}

pub open spec fn invalid_format_text(name: Seq<char>) -> Seq<char> {
    "Invalid output format selected: '"@ + name + "'. Allowed: JPEG, PNG, WEBP, SVG, EPS"@
}

pub open spec fn target_size_text() -> Seq<char> {
    "Target dimensions (width and height) must be positive."@
}

pub open spec fn crop_size_text() -> Seq<char> {
    "Crop dimensions (cropWidth and cropHeight) must be positive."@
}

pub open spec fn crop_bounds_text(crop: CropBox, width: u32, height: u32) -> Seq<char> {
    "Crop area (x:"@ + decimal_text(crop.x as nat) + "+"@ + decimal_text(crop.width as nat)
        + ", y:"@ + decimal_text(crop.y as nat) + "+"@ + decimal_text(crop.height as nat)
        + ") exceeds image boundaries ("@ + decimal_text(width as nat) + "x"@ + decimal_text(
        height as nat,
    ) + ")."@
}

/// The messages that the fields of a request earn, in the order of the
/// rules: the file is present, the format is known, the target size is
/// positive, the crop size is positive.
pub open spec fn field_problems(
    file_len: nat,
    format_name: Seq<char>,
    target_width: u32,
    target_height: u32,
    crop: CropBox,
) -> Seq<Seq<char>> {
    optional(file_len == 0, no_file_text()) + optional(
        OutputFormat::named(format_name) is None,
        invalid_format_text(format_name),
    ) + optional(target_width == 0 || target_height == 0, target_size_text()) + optional(
        crop.width == 0 || crop.height == 0,
        crop_size_text(),
    )
}

impl CropBox {
    /// Whether the rectangle lies inside an image of the given size.
    pub open spec fn within(self, width: u32, height: u32) -> bool {
        &&& self.x < width
        &&& self.y < height
        &&& self.x + self.width <= width
        &&& self.y + self.height <= height
    }

    /// Tests whether the rectangle lies inside an image of the given size.
    pub fn is_within(self, width: u32, height: u32) -> (r: bool)
        ensures
            r == self.within(width, height),
    {
        let right: u64 = self.x as u64 + self.width as u64;
        let bottom: u64 = self.y as u64 + self.height as u64;
        self.x < width && self.y < height && right <= width as u64 && bottom <= height as u64
    }
}

impl ProcessingParameters {
    /// All four sizes are positive.
    pub open spec fn wf(self) -> bool {
        &&& self.target_width > 0
        &&& self.target_height > 0
        &&& self.crop.width > 0
        &&& self.crop.height > 0
    }

    /// The parameters are well formed and the crop lies inside an image of
    /// the given size.
    pub open spec fn valid_for(self, width: u32, height: u32) -> bool {
        self.wf() && self.crop.within(width, height)
    }
}

/// The message for a format name that is not known.
pub fn invalid_format_message(name: &str) -> (r: String)
    ensures
        r@ == invalid_format_text(name@),
{
    let mut s = String::from_str("Invalid output format selected: '");
    s.append(name);
    s.append("'. Allowed: JPEG, PNG, WEBP, SVG, EPS");
    s
}

/// The message for a crop rectangle that leaves the image.
pub fn crop_bounds_message(crop: CropBox, width: u32, height: u32) -> (r: String)
    ensures
        r@ == crop_bounds_text(crop, width, height),
{
    let mut s = String::from_str("Crop area (x:");
    s.append(decimal(crop.x).as_str());
    s.append("+");
    s.append(decimal(crop.width).as_str());
    s.append(", y:");
    s.append(decimal(crop.y).as_str());
    s.append("+");
    s.append(decimal(crop.height).as_str());
    s.append(") exceeds image boundaries (");
    s.append(decimal(width).as_str());
    s.append("x");
    s.append(decimal(height).as_str());
    s.append(").");
    s
}

/// Holds the fields of a request to the rules. Every rule that fails adds
/// its message; the parameters come back only where none failed.
pub fn check_fields(
    file_len: usize,
    format_name: &str,
    target_width: u32,
    target_height: u32,
    crop: CropBox,
) -> (r: Result<ProcessingParameters, Vec<String>>)
    ensures
        match r {
            Ok(p) => {
                &&& field_problems(
                    file_len as nat,
                    format_name@,
                    target_width,
                    target_height,
                    crop,
                ).len() == 0
                &&& p.wf()
                &&& p.target_width == target_width
                &&& p.target_height == target_height
                &&& p.crop == crop
                &&& Some(p.format) == OutputFormat::named(format_name@)
            },
            Err(messages) => {
                &&& messages@.len() > 0
                &&& texts(messages@) == field_problems(
                    file_len as nat,
                    format_name@,
                    target_width,
                    target_height,
                    crop,
                )
            },
        },
{
    let ghost first = optional(file_len == 0, no_file_text());
    let ghost second = optional(
        OutputFormat::named(format_name@) is None,
        invalid_format_text(format_name@),
    );
    let ghost third = optional(target_width == 0 || target_height == 0, target_size_text());
    let ghost fourth = optional(crop.width == 0 || crop.height == 0, crop_size_text());
    let mut messages: Vec<String> = Vec::new();
    if file_len == 0 {
        messages.push(String::from_str("No file uploaded or file was empty."));
    }
    assert(texts(messages@) =~= first);
    let format = OutputFormat::from_name(format_name);
    if format.is_none() {
        messages.push(invalid_format_message(format_name));
    }
    assert(texts(messages@) =~= first + second);
    if target_width == 0 || target_height == 0 {
        messages.push(String::from_str("Target dimensions (width and height) must be positive."));
    }
    assert(texts(messages@) =~= first + second + third);
    if crop.width == 0 || crop.height == 0 {
        messages.push(
            String::from_str("Crop dimensions (cropWidth and cropHeight) must be positive."),
        );
    }
    assert(texts(messages@) =~= first + second + third + fourth);
    match format {
        Some(f) => {
            if messages.len() == 0 {
                Ok(ProcessingParameters { target_width, target_height, crop, format: f })
            } else {
                Err(messages)
            }
        },
        None => Err(messages),
    }
}

} // verus!

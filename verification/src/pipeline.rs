//! The processing of one request, from the decoded form to the response.

use vstd::prelude::*;
use vstd::utf8::*;
use crate::form::{dimension_field, dimension_or_zero, field_text, FormFields};
use crate::format::{requested_format_name, requested_name, OutputFormat};
use crate::raster::{
    buffers_available, buffers_fit, decode, decoded_image, render, rendered, transform,
    well_formed, Raster, RasterView,
};
use crate::request::{
    check_fields, crop_bounds_message, crop_bounds_text, field_problems, texts, CropBox,
    ProcessingParameters,
};
use crate::text::{base_name, base_of, contains_bytes, decimal, decimal_text, first_line,
    first_line_of, occurs_in};

verus! {

/// The class of a failure: the client's fault or the server's.
#[derive(Clone, Copy, Debug, PartialEq, Eq, Structural)]
pub enum Status {
    BadRequest,
    InternalError,
}

/// A request that failed, with the messages for the error page.
#[derive(Debug)]
pub struct Rejection {
    pub status: Status,
    pub messages: Vec<String>,
}

/// A file to send back.
#[derive(Debug)]
pub struct Download {
    pub content_type: String,
    pub disposition: String,
    pub body: Vec<u8>,
}

/// Work for the tracer: the bitmap to trace, the format to trace it to, and
/// the disposition header of the download that will come of it.
#[derive(Debug)]
pub struct TraceJob {
    pub format: OutputFormat,
    pub bitmap: Vec<u8>,
    pub disposition: String,
}

/// What the processing of a request comes to.
#[derive(Debug)]
pub enum Outcome {
    Done(Download),
    Trace(TraceJob),
    Rejected(Rejection),
}

/// What became of a run of the tracer.
#[derive(Debug)]
pub enum TraceEvent {
    /// No temporary file could be created.
    NoTempFile,
    /// The bitmap could not be written to the temporary file.
    NotSaved,
    /// The temporary file could not be flushed.
    NotFlushed,
    /// The tracer could not be started; the text is the system's error.
    NotLaunched(String),
    /// The tracer ran and ended.
    Exited { success: bool, stdout: Vec<u8>, stderr: String },
}

pub open spec fn decode_failure_text(error: Seq<char>) -> Seq<char> {
    "Error loading image: "@ + error
        + ". Please upload a valid image file (e.g., PNG, JPEG, GIF)."@
}

pub open spec fn too_large_text() -> Seq<char> {
    "Server error: The requested size is too large to process."@
}

pub open spec fn bitmap_failure_text() -> Seq<char> {
    "Server error: Could not save intermediate file for processing."@
}

/// The name by which an encoding failure speaks of a raster format.
pub open spec fn encoder_label(format: OutputFormat) -> Seq<char> {
    match format {
        OutputFormat::Webp => "WebP"@,
        _ => format.name_text(),
    }
}

/// The message for a failure to write the image for a format.
pub open spec fn render_failure_text(format: OutputFormat, error: Seq<char>) -> Seq<char> {
    if format.vector() {
        bitmap_failure_text()
    } else {
        "Error encoding image to "@ + encoder_label(format) + ": "@ + error
    }
}

/// The file name of the download: the base of the uploaded name, or `image`
/// where none was declared, then the target size and the extension.
pub open spec fn download_name_text(
    filename: Option<Seq<char>>,
    format: OutputFormat,
    width: u32,
    height: u32,
) -> Seq<char> {
    base_of(
        match filename {
            Some(name) => name,
            None => "image"@,
        },
    ) + "_processed_"@ + decimal_text(width as nat) + "x"@ + decimal_text(height as nat) + "."@
        + format.extension_text()
}

/// The disposition header of the download.
pub open spec fn disposition_text(
    filename: Option<Seq<char>>,
    format: OutputFormat,
    width: u32,
    height: u32,
) -> Seq<char> {
    "attachment; filename=\""@ + download_name_text(filename, format, width, height) + "\""@
}

pub open spec fn no_temp_file_text() -> Seq<char> {
    "Server error: Could not create temporary file for processing."@
}

pub open spec fn not_flushed_text() -> Seq<char> {
    "Server error: Could not finalize intermediate file."@
}

pub open spec fn not_launched_text(error: Seq<char>) -> Seq<char> {
    "Server configuration error: Failed to run 'potrace' command ("@ + error
        + "). Is it installed and in the system PATH?"@
}

pub open spec fn tracer_missing_text() -> Seq<char> {
    "Server configuration error: 'potrace' command not found. Please ensure it is installed and in the system PATH."@
}

/// The first line of what the tracer wrote to its error stream, or a
/// general phrase where it wrote nothing.
pub open spec fn tracer_complaint(stderr: Seq<char>) -> Seq<char> {
    if stderr.len() == 0 {
        "Unknown potrace error"@
    } else {
        first_line_of(stderr)
    }
}

pub open spec fn tracer_failure_text(format: OutputFormat, stderr: Seq<char>) -> Seq<char> {
    "Error converting image to "@ + format.name_text() + " via potrace: "@ + tracer_complaint(
        stderr,
    )
}

/// Whether the error stream says that the tracer's program was not found.
pub open spec fn speaks_of_missing_tool(stderr: Seq<char>) -> bool {
    occurs_in(encode_utf8(stderr), encode_utf8("No such file or directory"@)) || occurs_in(
        encode_utf8(stderr),
        encode_utf8("not found"@),
    )
}

/// The messages for a tracer that ended in failure.
pub open spec fn tracer_failure_messages(format: OutputFormat, stderr: Seq<char>) -> Seq<
    Seq<char>,
> {
    if speaks_of_missing_tool(stderr) {
        seq![tracer_failure_text(format, stderr), tracer_missing_text()]
    } else {
        seq![tracer_failure_text(format, stderr)]
    }
}

/// The outcome is a rejection of the given class with the given messages.
pub open spec fn rejected_with(outcome: Outcome, status: Status, messages: Seq<Seq<char>>) -> bool {
    outcome matches Outcome::Rejected(rejection) && rejection.status == status && texts(
        rejection.messages@,
    ) == messages
}

/// The rejection is of the given class with the given messages.
pub open spec fn rejection_is(rejection: Rejection, status: Status, messages: Seq<Seq<char>>) -> bool {
    rejection.status == status && texts(rejection.messages@) == messages
}

/// The outcome is what written bytes, or a failure to write, come to for a
/// format and a disposition header.
pub open spec fn delivers(
    outcome: Outcome,
    written: Result<Seq<u8>, Seq<char>>,
    format: OutputFormat,
    disposition: Seq<char>,
) -> bool {
    match written {
        Err(error) => rejected_with(
            outcome,
            Status::InternalError,
            seq![render_failure_text(format, error)],
        ),
        Ok(bytes) => if format.vector() {
            outcome matches Outcome::Trace(job) && job.format == format && job.bitmap@ == bytes
                && job.disposition@ == disposition
        } else {
            outcome matches Outcome::Done(download) && download.content_type@
                == format.content_type_text() && download.disposition@ == disposition
                && download.body@ == bytes
        },
    }
}

/// The outcome is what the resized image `sized` comes to: it has exactly
/// the target size, and the outcome is what its written form, or the failure
/// to write it, comes to for the format and the download's file name.
pub open spec fn finishes(
    outcome: Outcome,
    sized: RasterView,
    p: ProcessingParameters,
    filename: Option<Seq<char>>,
) -> bool {
    &&& sized.0 == p.target_width
    &&& sized.1 == p.target_height
    &&& well_formed(sized)
    &&& delivers(
        outcome,
        rendered(sized, p.format),
        p.format,
        disposition_text(filename, p.format, p.target_width, p.target_height),
    )
}

/// The outcome is what a decoded image comes to under parameters that have
/// passed the rules on the fields: a rejection where the crop leaves the
/// image or the buffers cannot be allocated, else what some image of exactly
/// the target size comes to.
pub open spec fn processes(
    outcome: Outcome,
    image: RasterView,
    p: ProcessingParameters,
    filename: Option<Seq<char>>,
) -> bool {
    if !p.crop.within(image.0, image.1) {
        rejected_with(outcome, Status::BadRequest, seq![crop_bounds_text(p.crop, image.0, image.1)])
    } else if !buffers_fit(p.crop.width, p.target_width, p.target_height) {
        rejected_with(outcome, Status::InternalError, seq![too_large_text()])
    } else {
        exists|sized: RasterView| finishes(outcome, sized, p, filename)
    }
}

/// The outcome is what a request comes to: its file, the declared file name,
/// its text fields and its crop rectangle.
pub open spec fn answers(
    outcome: Outcome,
    file: Seq<u8>,
    filename: Option<Seq<char>>,
    fields: Map<Seq<char>, Seq<char>>,
    crop: CropBox,
) -> bool {
    let name = requested_name(field_text(fields, "outputFormat"@));
    let width = dimension_or_zero(field_text(fields, "width"@));
    let height = dimension_or_zero(field_text(fields, "height"@));
    let problems = field_problems(file.len(), name, width, height, crop);
    if problems.len() > 0 {
        rejected_with(outcome, Status::BadRequest, problems)
    } else {
        match decoded_image(file) {
            Err(error) => rejected_with(
                outcome,
                Status::InternalError,
                seq![decode_failure_text(error)],
            ),
            Ok(image) => processes(
                outcome,
                image,
                (ProcessingParameters {
                    target_width: width,
                    target_height: height,
                    crop: crop,
                    format: OutputFormat::named(name).unwrap(),
                }),
                filename,
            ),
        }
    }
}

/// The download, or the rejection, that a run of the tracer comes to.
pub open spec fn concludes(
    result: Result<Download, Rejection>,
    format: OutputFormat,
    disposition: Seq<char>,
    event: TraceEvent,
) -> bool {
    match event {
        TraceEvent::NoTempFile => result matches Err(r) && rejection_is(
            r,
            Status::InternalError,
            seq![no_temp_file_text()],
        ),
        TraceEvent::NotSaved => result matches Err(r) && rejection_is(
            r,
            Status::InternalError,
            seq![bitmap_failure_text()],
        ),
        TraceEvent::NotFlushed => result matches Err(r) && rejection_is(
            r,
            Status::InternalError,
            seq![not_flushed_text()],
        ),
        TraceEvent::NotLaunched(error) => result matches Err(r) && rejection_is(
            r,
            Status::InternalError,
            seq![not_launched_text(error@)],
        ),
        TraceEvent::Exited { success, stdout, stderr } => if success {
            result matches Ok(download) && download.content_type@ == format.content_type_text()
                && download.disposition@ == disposition && download.body@ == stdout@
        } else {
            result matches Err(r) && rejection_is(
                r,
                Status::InternalError,
                tracer_failure_messages(format, stderr@),
            )
        },
    }
}

/// The view of an optional text.
pub open spec fn optional_text(text: Option<&str>) -> Option<Seq<char>> {
    match text {
        Some(t) => Some(t@),
        None => None,
    }
}

/// The view of an optional owned text.
pub open spec fn optional_string(text: Option<String>) -> Option<Seq<char>> {
    match text {
        Some(t) => Some(t@),
        None => None,
    }
}

impl Status {
    /// The HTTP status code of the class.
    pub open spec fn code_of(self) -> u16 {
        match self {
            Status::BadRequest => 400,
            Status::InternalError => 500,
        }
    }

    pub fn code(self) -> (r: u16)
        ensures
            r == self.code_of(),
    {
        match self {
            Status::BadRequest => 400,
            Status::InternalError => 500,
        }
    }
}

/// A rejection with one message.
pub fn rejection(status: Status, message: String) -> (r: Rejection)
    ensures
        rejection_is(r, status, seq![message@]),
{
    let mut messages: Vec<String> = Vec::new();
    messages.push(message);
    assert(texts(messages@) =~= seq![message@]);
    Rejection { status, messages }
}

/// Writes the disposition header of a download.
pub fn disposition(filename: Option<&str>, format: OutputFormat, width: u32, height: u32) -> (r:
    String)
    ensures
        r@ == disposition_text(optional_text(filename), format, width, height),
{
    let mut name = match filename {
        Some(n) => base_name(n),
        None => base_name("image"),
    };
    name.append("_processed_");
    name.append(decimal(width).as_str());
    name.append("x");
    name.append(decimal(height).as_str());
    name.append(".");
    name.append(format.extension());
    let mut s = String::from_str("attachment; filename=\"");
    s.append(name.as_str());
    s.append("\"");
    s
}

/// The message for a failure to write the image for a format.
pub fn render_failure_message(format: OutputFormat, error: &str) -> (r: String)
    ensures
        r@ == render_failure_text(format, error@),
{
    if format.is_vector() {
        String::from_str("Server error: Could not save intermediate file for processing.")
    } else {
        let mut s = String::from_str("Error encoding image to ");
        match format {
            OutputFormat::Webp => s.append("WebP"),
            _ => s.append(format.name()),
        }
        s.append(": ");
        s.append(error);
        s
    }
}

/// Turns written bytes, or a failure to write them, into the outcome: a
/// download for a raster format, work for the tracer for a vector format.
pub fn deliver(written: Result<Vec<u8>, String>, format: OutputFormat, disposition: String) -> (r:
    Outcome)
    ensures
        delivers(r, crate::raster::bytes_result_view(written), format, disposition@),
{
    match written {
        Err(error) => Outcome::Rejected(
            rejection(Status::InternalError, render_failure_message(format, error.as_str())),
        ),
        Ok(bytes) => {
            if format.is_vector() {
                Outcome::Trace(TraceJob { format, bitmap: bytes, disposition })
            } else {
                Outcome::Done(
                    Download {
                        content_type: String::from_str(format.content_type()),
                        disposition,
                        body: bytes,
                    },
                )
            }
        },
    }
}

/// Writes the resized image for the format of the parameters and turns the
/// result into the outcome: a download for a raster format, work for the
/// tracer for a vector format, a server error where the image cannot be
/// written.
pub fn finish_image(sized: &Raster, p: &ProcessingParameters, filename: Option<&str>) -> (r:
    Outcome)
    requires
        well_formed(sized@),
    ensures
        delivers(
            r,
            rendered(sized@, p.format),
            p.format,
            disposition_text(optional_text(filename), p.format, p.target_width, p.target_height),
        ),
        r matches Outcome::Rejected(rejection) ==> rejection.messages@.len() > 0,
{
    let written = render(sized, p.format);
    let header = disposition(filename, p.format, p.target_width, p.target_height);
    let out = deliver(written, p.format, header);
    assert(out matches Outcome::Rejected(r) ==> texts(r.messages@).len() == r.messages@.len());
    out
}

/// Processes a decoded image under parameters that have passed the rules on
/// the fields: checks the crop against the image, transforms and writes it.
pub fn process_image(image: &Raster, p: &ProcessingParameters, filename: Option<&str>) -> (r:
    Outcome)
    requires
        well_formed(image@),
        p.wf(),
    ensures
        processes(r, image@, *p, optional_text(filename)),
        r matches Outcome::Rejected(rejection) ==> rejection.messages@.len() > 0,
{
    if !p.crop.is_within(image.width, image.height) {
        let r = rejection(
            Status::BadRequest,
            crop_bounds_message(p.crop, image.width, image.height),
        );
        assert(texts(r.messages@).len() == 1);
        return Outcome::Rejected(r);
    }
    if !buffers_available(p.crop.width, p.target_width, p.target_height) {
        let r = rejection(
            Status::InternalError,
            String::from_str("Server error: The requested size is too large to process."),
        );
        assert(texts(r.messages@).len() == 1);
        return Outcome::Rejected(r);
    }
    let sized = transform(image, p);
    let out = finish_image(&sized, p, filename);
    assert(finishes(out, sized@, *p, optional_text(filename)));
    out
}

/// Processes a request: holds its fields to the rules, decodes the file and
/// processes the image.
pub fn process(file: &[u8], filename: Option<&str>, fields: &FormFields, crop: CropBox) -> (r:
    Outcome)
    ensures
        answers(r, file@, optional_text(filename), fields@, crop),
        r matches Outcome::Rejected(rejection) ==> rejection.messages@.len() > 0,
{
    let name = requested_format_name(fields.get("outputFormat"));
    let width = dimension_field(fields.get("width"));
    let height = dimension_field(fields.get("height"));
    match check_fields(file.len(), name.as_str(), width, height, crop) {
        Err(messages) => Outcome::Rejected(Rejection { status: Status::BadRequest, messages }),
        Ok(p) => match decode(file) {
            Err(error) => {
                let mut text = String::from_str("Error loading image: ");
                text.append(error.as_str());
                text.append(". Please upload a valid image file (e.g., PNG, JPEG, GIF).");
                let r = rejection(Status::InternalError, text);
                assert(texts(r.messages@).len() == 1);
                Outcome::Rejected(r)
            },
            Ok(image) => process_image(&image, &p, filename),
        },
    }
}

/// The program that traces bitmaps.
pub fn tracer_program() -> (r: &'static str)
    ensures
        r@ == "potrace"@,
{
    "potrace"
}

/// The arguments of a run of the tracer: the bitmap's path, the flag of the
/// format, and the request to write to standard output.
pub fn tracer_arguments(path: &str, format: OutputFormat) -> (r: Vec<String>)
    requires
        format.vector(),
    ensures
        texts(r@) == seq![path@, format.tracer_flag_text(), "-o"@, "-"@],
{
    let mut arguments: Vec<String> = Vec::new();
    arguments.push(String::from_str(path));
    arguments.push(String::from_str(format.tracer_flag()));
    arguments.push(String::from_str("-o"));
    arguments.push(String::from_str("-"));
    assert(texts(arguments@) =~= seq![path@, format.tracer_flag_text(), "-o"@, "-"@]);
    arguments
}

/// The messages for a tracer that ended in failure.
pub fn tracer_failure(format: OutputFormat, stderr: &str) -> (r: Rejection)
    ensures
        rejection_is(r, Status::InternalError, tracer_failure_messages(format, stderr@)),
        r.messages@.len() > 0,
{
    let mut text = String::from_str("Error converting image to ");
    text.append(format.name());
    text.append(" via potrace: ");
    match first_line(stderr) {
        Some(line) => text.append(line.as_str()),
        None => text.append("Unknown potrace error"),
    }
    let mut messages: Vec<String> = Vec::new();
    messages.push(text);
    let missing = contains_bytes(stderr.as_bytes(), "No such file or directory".as_bytes())
        || contains_bytes(stderr.as_bytes(), "not found".as_bytes());
    if missing {
        messages.push(
            String::from_str(
                "Server configuration error: 'potrace' command not found. Please ensure it is installed and in the system PATH.",
            ),
        );
    }
    assert(texts(messages@) =~= tracer_failure_messages(format, stderr@));
    Rejection { status: Status::InternalError, messages }
}

/// Concludes a trace job from what became of the tracer's run.
pub fn finish_trace(job: TraceJob, event: TraceEvent) -> (r: Result<Download, Rejection>)
    ensures
        concludes(r, job.format, job.disposition@, event),
        r matches Err(rejection) ==> rejection.messages@.len() > 0,
{
    let r = match event {
        TraceEvent::NoTempFile => Err(
            rejection(
                Status::InternalError,
                String::from_str("Server error: Could not create temporary file for processing."),
            ),
        ),
        TraceEvent::NotSaved => Err(
            rejection(
                Status::InternalError,
                String::from_str("Server error: Could not save intermediate file for processing."),
            ),
        ),
        TraceEvent::NotFlushed => Err(
            rejection(
                Status::InternalError,
                String::from_str("Server error: Could not finalize intermediate file."),
            ),
        ),
        TraceEvent::NotLaunched(error) => {
            let mut text = String::from_str(
                "Server configuration error: Failed to run 'potrace' command (",
            );
            text.append(error.as_str());
            text.append("). Is it installed and in the system PATH?");
            Err(rejection(Status::InternalError, text))
        },
        TraceEvent::Exited { success, stdout, stderr } => {
            if success {
                Ok(
                    Download {
                        content_type: String::from_str(job.format.content_type()),
                        disposition: job.disposition,
                        body: stdout,
                    },
                )
            } else {
                Err(tracer_failure(job.format, stderr.as_str()))
            }
        },
    };
    assert(r matches Err(rej) ==> texts(rej.messages@).len() == rej.messages@.len());
    r
}

/// Whether two outcomes are the same response: the same download, the same
/// work for the tracer, or the same rejection.
pub open spec fn same_response(a: Outcome, b: Outcome) -> bool {
    match (a, b) {
        (Outcome::Done(x), Outcome::Done(y)) => x.content_type@ == y.content_type@
            && x.disposition@ == y.disposition@ && x.body@ == y.body@,
        (Outcome::Trace(x), Outcome::Trace(y)) => x.format == y.format && x.bitmap@ == y.bitmap@
            && x.disposition@ == y.disposition@,
        (Outcome::Rejected(x), Outcome::Rejected(y)) => x.status == y.status && texts(x.messages@)
            == texts(y.messages@),
        _ => false,
    }
}

/// Whether one of the rules on the fields of a request fails on its sizes
/// or its format: a target or crop size of zero, or a format name that is
/// not known.
pub open spec fn asks_for_the_impossible(fields: Map<Seq<char>, Seq<char>>, crop: CropBox) -> bool {
    ||| dimension_or_zero(field_text(fields, "width"@)) == 0
    ||| dimension_or_zero(field_text(fields, "height"@)) == 0
    ||| crop.width == 0
    ||| crop.height == 0
    ||| OutputFormat::named(requested_name(field_text(fields, "outputFormat"@))) is None
}

/// Whether a request is settled before any image is resized: a rule on its
/// fields fails, the file does not decode, the crop leaves the image, or the
/// buffers cannot be allocated.
pub open spec fn settled_before_resizing(
    file: Seq<u8>,
    fields: Map<Seq<char>, Seq<char>>,
    crop: CropBox,
) -> bool {
    let name = requested_name(field_text(fields, "outputFormat"@));
    let width = dimension_or_zero(field_text(fields, "width"@));
    let height = dimension_or_zero(field_text(fields, "height"@));
    field_problems(file.len(), name, width, height, crop).len() > 0 || match decoded_image(file) {
        Err(_) => true,
        Ok(image) => !crop.within(image.0, image.1) || !buffers_fit(crop.width, width, height),
    }
}

/// From the resized image on, processing is deterministic: two outcomes of
/// the same resized image under the same parameters and file name are the
/// same response, byte for byte.
pub proof fn lemma_same_image_same_response(
    a: Outcome,
    b: Outcome,
    sized: RasterView,
    p: ProcessingParameters,
    filename: Option<Seq<char>>,
)
    requires
        finishes(a, sized, p, filename),
        finishes(b, sized, p, filename),
    ensures
        same_response(a, b),
{
}

/// Two outcomes of the same request that is settled before any image is
/// resized are the same rejection.
pub proof fn lemma_same_request_same_rejection(
    a: Outcome,
    b: Outcome,
    file: Seq<u8>,
    filename: Option<Seq<char>>,
    fields: Map<Seq<char>, Seq<char>>,
    crop: CropBox,
)
    requires
        answers(a, file, filename, fields, crop),
        answers(b, file, filename, fields, crop),
        settled_before_resizing(file, fields, crop),
    ensures
        a is Rejected,
        same_response(a, b),
{
}

/// A request with a target size of zero, a crop size of zero or an unknown
/// format name is rejected as a bad request, with at least one message.
pub proof fn lemma_impossible_requests_are_rejected(
    outcome: Outcome,
    file: Seq<u8>,
    filename: Option<Seq<char>>,
    fields: Map<Seq<char>, Seq<char>>,
    crop: CropBox,
)
    requires
        answers(outcome, file, filename, fields, crop),
        asks_for_the_impossible(fields, crop),
    ensures
        outcome matches Outcome::Rejected(r) && r.status == Status::BadRequest
            && r.status.code_of() == 400 && r.messages@.len() > 0,
{
    let name = requested_name(field_text(fields, "outputFormat"@));
    let width = dimension_or_zero(field_text(fields, "width"@));
    let height = dimension_or_zero(field_text(fields, "height"@));
    let problems = field_problems(file.len(), name, width, height, crop);
    assert(problems.len() > 0);
    assert(outcome matches Outcome::Rejected(r) && texts(r.messages@).len() == r.messages@.len());
}

/// A crop rectangle that leaves the decoded image on any side is rejected as
/// a bad request, with at least one message.
pub proof fn lemma_crop_beyond_the_image_is_rejected(
    outcome: Outcome,
    image: RasterView,
    p: ProcessingParameters,
    filename: Option<Seq<char>>,
)
    requires
        processes(outcome, image, p, filename),
        !p.crop.within(image.0, image.1),
    ensures
        outcome matches Outcome::Rejected(r) && r.status == Status::BadRequest
            && r.status.code_of() == 400 && r.messages@.len() > 0,
{
    assert(outcome matches Outcome::Rejected(r) && texts(r.messages@).len() == r.messages@.len());
}

/// A download that comes of processing a decoded image is the written form
/// of an image that has exactly the target size.
pub proof fn lemma_download_has_the_target_size(
    outcome: Outcome,
    image: RasterView,
    p: ProcessingParameters,
    filename: Option<Seq<char>>,
)
    requires
        processes(outcome, image, p, filename),
        outcome is Done,
    ensures
        exists|sized: RasterView|
            finishes(outcome, sized, p, filename) && sized.0 == p.target_width && sized.1
                == p.target_height && (outcome matches Outcome::Done(download) && rendered(
                sized,
                p.format,
            ) == Ok::<Seq<u8>, Seq<char>>(download.body@)),
{
    let sized = choose|sized: RasterView| finishes(outcome, sized, p, filename);
    assert(finishes(outcome, sized, p, filename));
}

/// A request whose file decodes, and whose crop rectangle leaves the decoded
/// image on any side, is rejected as a bad request with at least one message.
pub proof fn lemma_request_beyond_the_image_is_rejected(
    outcome: Outcome,
    file: Seq<u8>,
    filename: Option<Seq<char>>,
    fields: Map<Seq<char>, Seq<char>>,
    crop: CropBox,
    image: RasterView,
)
    requires
        answers(outcome, file, filename, fields, crop),
        decoded_image(file) == Ok::<RasterView, Seq<char>>(image),
        !crop.within(image.0, image.1),
    ensures
        outcome matches Outcome::Rejected(r) && r.status == Status::BadRequest
            && r.status.code_of() == 400 && r.messages@.len() > 0,
{
    assert(outcome matches Outcome::Rejected(r) && texts(r.messages@).len() == r.messages@.len());
}

/// A request is answered with a download or with work for the tracer only
/// where every rule holds: the file is present and decodes, the format is
/// known, the sizes are positive and the crop lies inside the image.
pub proof fn lemma_success_means_all_rules_hold(
    outcome: Outcome,
    file: Seq<u8>,
    filename: Option<Seq<char>>,
    fields: Map<Seq<char>, Seq<char>>,
    crop: CropBox,
)
    requires
        answers(outcome, file, filename, fields, crop),
        !(outcome is Rejected),
    ensures
        file.len() > 0,
        !asks_for_the_impossible(fields, crop),
        decoded_image(file) matches Ok(image) && crop.within(image.0, image.1),
        outcome is Trace <==> OutputFormat::named(
            requested_name(field_text(fields, "outputFormat"@)),
        ).unwrap().vector(),
{
    let name = requested_name(field_text(fields, "outputFormat"@));
    let width = dimension_or_zero(field_text(fields, "width"@));
    let height = dimension_or_zero(field_text(fields, "height"@));
    let problems = field_problems(file.len(), name, width, height, crop);
    assert(problems.len() == 0);
}

/// The parameters that the fields and the crop rectangle of a request ask
/// for, where the format name is known.
pub open spec fn requested_parameters(fields: Map<Seq<char>, Seq<char>>, crop: CropBox) -> ProcessingParameters {
    ProcessingParameters {
        target_width: dimension_or_zero(field_text(fields, "width"@)),
        target_height: dimension_or_zero(field_text(fields, "height"@)),
        crop: crop,
        format: OutputFormat::named(requested_name(field_text(fields, "outputFormat"@))).unwrap(),
    }
}

/// A request that meets every rule is taken as far as a resized image:
/// where the file is present and decodes, the sizes are positive, the format
/// is known, the crop lies inside the image and the buffers can be
/// allocated, the answer is what an image of exactly the target size comes
/// to: its written form as a download for a raster format, as work for the
/// tracer for a vector format, and a server error only where the imaging
/// library cannot write it.
pub proof fn lemma_valid_request_is_answered(
    outcome: Outcome,
    file: Seq<u8>,
    filename: Option<Seq<char>>,
    fields: Map<Seq<char>, Seq<char>>,
    crop: CropBox,
    image: RasterView,
)
    requires
        answers(outcome, file, filename, fields, crop),
        file.len() > 0,
        !asks_for_the_impossible(fields, crop),
        decoded_image(file) == Ok::<RasterView, Seq<char>>(image),
        crop.within(image.0, image.1),
        buffers_fit(
            crop.width,
            requested_parameters(fields, crop).target_width,
            requested_parameters(fields, crop).target_height,
        ),
    ensures
        exists|sized: RasterView|
            finishes(outcome, sized, requested_parameters(fields, crop), filename),
{
    let name = requested_name(field_text(fields, "outputFormat"@));
    let width = dimension_or_zero(field_text(fields, "width"@));
    let height = dimension_or_zero(field_text(fields, "height"@));
    let problems = field_problems(file.len(), name, width, height, crop);
    assert(problems.len() == 0);
}

} // verus!

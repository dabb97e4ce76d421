use resize_service::form::FormFields;
use resize_service::format::OutputFormat;
use resize_service::pipeline::{
    deliver, disposition, finish_image, finish_trace, process, process_image, rejection,
    render_failure_message,
    tracer_arguments, tracer_failure, tracer_program, Outcome, Status, TraceEvent, TraceJob,
};
use resize_service::raster::{
    buffers_available, crop as cut, decode, render, transform, without_alpha, Raster,
};
use resize_service::request::{
    check_fields, crop_bounds_message, invalid_format_message, CropBox, ProcessingParameters,
};

fn gradient(width: u32, height: u32) -> Raster {
    let mut pixels = Vec::new();
    for y in 0..height {
        for x in 0..width {
            pixels.push((x * 2) as u8);
            pixels.push((y * 2) as u8);
            pixels.push((x + y) as u8);
            pixels.push(255);
        }
    }
    Raster::new(width, height, pixels).unwrap()
}

fn png_file(width: u32, height: u32) -> Vec<u8> {
    render(&gradient(width, height), OutputFormat::Png).unwrap()
}

fn form(width: &str, height: &str, format: Option<&str>) -> FormFields {
    let mut fields = FormFields::new();
    fields.insert("width".to_string(), width.to_string());
    fields.insert("height".to_string(), height.to_string());
    if let Some(name) = format {
        fields.insert("outputFormat".to_string(), name.to_string());
    }
    fields
}

fn crop(x: u32, y: u32, width: u32, height: u32) -> CropBox {
    CropBox { x, y, width, height }
}

fn parameters(w: u32, h: u32, c: CropBox, format: OutputFormat) -> ProcessingParameters {
    ProcessingParameters { target_width: w, target_height: h, crop: c, format }
}

fn rejected(outcome: Outcome) -> (Status, Vec<String>) {
    match outcome {
        Outcome::Rejected(r) => (r.status, r.messages),
        other => panic!("not rejected: {:?}", other),
    }
}

#[test]
fn raster_new_wants_four_bytes_for_each_pixel() {
    assert!(Raster::new(2, 3, vec![0; 24]).is_some());
    assert!(Raster::new(2, 3, vec![0; 23]).is_none());
    assert!(Raster::new(2, 3, vec![0; 25]).is_none());
    assert!(Raster::new(0, 3, Vec::new()).is_some());
    let image = Raster::new(1, 1, vec![1, 2, 3, 4]).unwrap();
    assert_eq!((image.width, image.height), (1, 1));
    assert_eq!(image.pixels, vec![1, 2, 3, 4]);
}

#[test]
fn crop_box_within_the_image() {
    assert!(crop(0, 0, 100, 100).is_within(100, 100));
    assert!(crop(10, 10, 50, 50).is_within(100, 100));
    assert!(crop(99, 99, 1, 1).is_within(100, 100));
    assert!(!crop(60, 60, 50, 50).is_within(100, 100));
    assert!(!crop(100, 0, 0, 1).is_within(100, 100));
    assert!(!crop(0, 100, 1, 0).is_within(100, 100));
    assert!(!crop(0, 0, 101, 1).is_within(100, 100));
    assert!(!crop(0, 0, 1, 101).is_within(100, 100));
    assert!(!crop(1, 0, u32::MAX, 1).is_within(100, 100));
    assert!(!crop(0, 1, 1, u32::MAX).is_within(100, 100));
}

#[test]
fn transformed_image_has_the_target_size() {
    let source = gradient(100, 100);
    for (w, h) in [(200u32, 200u32), (1, 1), (37, 113), (50, 50), (300, 2)] {
        let p = parameters(w, h, crop(10, 10, 50, 50), OutputFormat::Png);
        let out = transform(&source, &p);
        assert_eq!((out.width, out.height), (w, h));
        assert_eq!(out.pixels.len(), (w * h * 4) as usize);
    }
}

#[test]
fn transform_at_the_crop_size_gives_the_cropped_pixels() {
    let source = gradient(20, 10);
    let p = parameters(4, 3, crop(5, 2, 4, 3), OutputFormat::Png);
    let out = transform(&source, &p);
    let mut expected = Vec::new();
    for y in 2..5u32 {
        for x in 5..9u32 {
            let at = ((y * 20 + x) * 4) as usize;
            expected.extend_from_slice(&source.pixels[at..at + 4]);
        }
    }
    assert_eq!(out.pixels, expected);
}

#[test]
fn transform_changes_the_image() {
    let source = gradient(20, 10);
    let p = parameters(40, 20, crop(0, 0, 20, 10), OutputFormat::Png);
    let out = transform(&source, &p);
    assert_ne!(out.pixels, source.pixels);
    assert_eq!(out.pixels[3], 255);
}

#[test]
fn transform_is_deterministic() {
    let source = gradient(64, 48);
    let p = parameters(33, 77, crop(3, 4, 40, 30), OutputFormat::Png);
    let first = transform(&source, &p);
    let second = transform(&source, &p);
    assert_eq!(first.pixels, second.pixels);
    for format in [OutputFormat::Png, OutputFormat::Jpeg, OutputFormat::Webp] {
        assert_eq!(render(&first, format).unwrap(), render(&second, format).unwrap());
    }
}

#[test]
fn png_round_trip_keeps_size_and_pixels() {
    let source = gradient(30, 30);
    let p = parameters(17, 45, crop(1, 2, 20, 25), OutputFormat::Png);
    let out = transform(&source, &p);
    let file = render(&out, OutputFormat::Png).unwrap();
    let back = decode(&file).unwrap();
    assert_eq!((back.width, back.height), (17, 45));
    assert_eq!(back.pixels, out.pixels);
}

#[test]
fn webp_round_trip_keeps_the_size() {
    let out = gradient(12, 9);
    let file = render(&out, OutputFormat::Webp).unwrap();
    assert_eq!(&file[0..4], b"RIFF");
    assert_eq!(&file[8..12], b"WEBP");
    let back = decode(&file).unwrap();
    assert_eq!((back.width, back.height), (12, 9));
}

#[test]
fn jpeg_is_written_without_alpha() {
    let mut source = gradient(16, 16);
    for i in 0..source.pixels.len() / 4 {
        source.pixels[i * 4 + 3] = 0;
    }
    let file = render(&source, OutputFormat::Jpeg).unwrap();
    assert_eq!(&file[0..2], &[0xff, 0xd8]);
    let decoded = image::load_from_memory(&file).unwrap();
    assert_eq!(decoded.color(), image::ColorType::Rgb8);
    let back = decode(&file).unwrap();
    assert_eq!((back.width, back.height), (16, 16));
    assert!(back.pixels.iter().skip(3).step_by(4).all(|a| *a == 255));
}

#[test]
fn vector_formats_are_written_as_a_bitmap_without_alpha() {
    let source = gradient(8, 8);
    for format in [OutputFormat::Svg, OutputFormat::Eps] {
        let file = render(&source, format).unwrap();
        assert_eq!(&file[0..2], b"BM");
        let decoded = image::load_from_memory(&file).unwrap();
        assert_eq!(decoded.color(), image::ColorType::Rgb8);
        assert_eq!((decoded.width(), decoded.height()), (8, 8));
        assert_eq!(decoded.to_rgba8().into_raw(), source.pixels);
    }
}

#[test]
fn decode_reads_a_png_file() {
    let picture = image::RgbaImage::from_pixel(3, 2, image::Rgba([10, 20, 30, 40]));
    let mut file = std::io::Cursor::new(Vec::new());
    image::DynamicImage::ImageRgba8(picture).write_to(&mut file, image::ImageFormat::Png).unwrap();
    let image = decode(&file.into_inner()).unwrap();
    assert_eq!((image.width, image.height), (3, 2));
    assert_eq!(image.pixels, [10u8, 20, 30, 40].repeat(6));
}

#[test]
fn decode_refuses_what_is_no_image() {
    assert!(decode(b"this is no image").is_err());
    assert!(decode(b"").is_err());
}

#[test]
fn buffers_available_for_ordinary_sizes() {
    assert!(buffers_available(100, 200, 200));
    assert!(buffers_available(1, 1, 1));
    assert!(!buffers_available(u32::MAX, 1, u32::MAX));
    assert!(!buffers_available(1, u32::MAX, u32::MAX));
}

#[test]
fn scenario_crop_and_enlarge_to_png() {
    let file = png_file(100, 100);
    let fields = form("200", "200", Some("PNG"));
    match process(&file, Some("photo.jpg"), &fields, crop(10, 10, 50, 50)) {
        Outcome::Done(download) => {
            assert_eq!(download.content_type, "image/png");
            assert_eq!(
                download.disposition,
                "attachment; filename=\"photo_processed_200x200.png\""
            );
            let back = image::load_from_memory(&download.body).unwrap();
            assert_eq!((back.width(), back.height()), (200, 200));
        }
        other => panic!("no download: {:?}", other),
    }
}

#[test]
fn scenario_crop_beyond_the_image() {
    let file = png_file(100, 100);
    let fields = form("200", "200", Some("PNG"));
    let (status, messages) = rejected(process(&file, None, &fields, crop(60, 60, 50, 50)));
    assert_eq!(status, Status::BadRequest);
    assert_eq!(status.code(), 400);
    assert_eq!(
        messages,
        vec!["Crop area (x:60+50, y:60+50) exceeds image boundaries (100x100).".to_string()]
    );
    assert!(messages[0].contains("exceeds image boundaries"));
}

#[test]
fn scenario_unknown_format() {
    let file = png_file(100, 100);
    let fields = form("200", "200", Some("GIF"));
    let (status, messages) = rejected(process(&file, None, &fields, crop(10, 10, 50, 50)));
    assert_eq!(status.code(), 400);
    assert_eq!(
        messages,
        vec!["Invalid output format selected: 'GIF'. Allowed: JPEG, PNG, WEBP, SVG, EPS"
            .to_string()]
    );
}

#[test]
fn scenario_tracer_is_missing() {
    let job = TraceJob {
        format: OutputFormat::Svg,
        bitmap: vec![1, 2, 3],
        disposition: "attachment; filename=\"a_processed_1x1.svg\"".to_string(),
    };
    let event = TraceEvent::NotLaunched("No such file or directory (os error 2)".to_string());
    let rejection = finish_trace(job, event).unwrap_err();
    assert_eq!(rejection.status.code(), 500);
    assert_eq!(
        rejection.messages,
        vec!["Server configuration error: Failed to run 'potrace' command (No such file or directory (os error 2)). Is it installed and in the system PATH?".to_string()]
    );
}

#[test]
fn rejects_zero_target_width() {
    let file = png_file(10, 10);
    let (status, messages) =
        rejected(process(&file, None, &form("0", "5", None), crop(0, 0, 5, 5)));
    assert_eq!(status, Status::BadRequest);
    assert_eq!(messages, vec!["Target dimensions (width and height) must be positive."]);
}

#[test]
fn rejects_zero_target_height() {
    let file = png_file(10, 10);
    let (status, messages) =
        rejected(process(&file, None, &form("5", "0", None), crop(0, 0, 5, 5)));
    assert_eq!(status, Status::BadRequest);
    assert_eq!(messages, vec!["Target dimensions (width and height) must be positive."]);
}

#[test]
fn rejects_missing_or_unreadable_target_size() {
    let file = png_file(10, 10);
    let (status, messages) =
        rejected(process(&file, None, &FormFields::new(), crop(0, 0, 5, 5)));
    assert_eq!(status, Status::BadRequest);
    assert_eq!(messages, vec!["Target dimensions (width and height) must be positive."]);
    let (status, _) = rejected(process(&file, None, &form("wide", "5", None), crop(0, 0, 5, 5)));
    assert_eq!(status, Status::BadRequest);
}

#[test]
fn rejects_zero_crop_width() {
    let file = png_file(10, 10);
    let (status, messages) =
        rejected(process(&file, None, &form("5", "5", None), crop(0, 0, 0, 5)));
    assert_eq!(status, Status::BadRequest);
    assert_eq!(messages, vec!["Crop dimensions (cropWidth and cropHeight) must be positive."]);
}

#[test]
fn rejects_zero_crop_height() {
    let file = png_file(10, 10);
    let (status, messages) =
        rejected(process(&file, None, &form("5", "5", None), crop(0, 0, 5, 0)));
    assert_eq!(status, Status::BadRequest);
    assert_eq!(messages, vec!["Crop dimensions (cropWidth and cropHeight) must be positive."]);
}

#[test]
fn rejects_a_crop_that_leaves_the_image_on_any_side() {
    let file = png_file(10, 10);
    for c in [crop(6, 0, 5, 5), crop(0, 6, 5, 5), crop(10, 0, 1, 1), crop(0, 10, 1, 1)] {
        let (status, messages) = rejected(process(&file, None, &form("5", "5", None), c));
        assert_eq!(status, Status::BadRequest);
        assert_eq!(messages, vec![crop_bounds_message(c, 10, 10)]);
    }
}

#[test]
fn rejects_a_misspelled_format() {
    let file = png_file(10, 10);
    let (status, messages) =
        rejected(process(&file, None, &form("5", "5", Some("jpg")), crop(0, 0, 5, 5)));
    assert_eq!(status, Status::BadRequest);
    assert_eq!(messages, vec![invalid_format_message("JPG")]);
}

#[test]
fn rejects_a_missing_file() {
    let (status, messages) =
        rejected(process(&[], None, &form("5", "5", None), crop(0, 0, 5, 5)));
    assert_eq!(status, Status::BadRequest);
    assert_eq!(messages, vec!["No file uploaded or file was empty."]);
}

#[test]
fn collects_the_messages_of_all_field_rules() {
    let (status, messages) =
        rejected(process(&[], None, &form("0", "7", Some("tiff")), crop(0, 0, 0, 0)));
    assert_eq!(status, Status::BadRequest);
    assert_eq!(
        messages,
        vec![
            "No file uploaded or file was empty.",
            "Invalid output format selected: 'TIFF'. Allowed: JPEG, PNG, WEBP, SVG, EPS",
            "Target dimensions (width and height) must be positive.",
            "Crop dimensions (cropWidth and cropHeight) must be positive.",
        ]
    );
}

#[test]
fn a_file_that_is_no_image_is_a_server_error() {
    let (status, messages) =
        rejected(process(b"no image at all", None, &form("5", "5", None), crop(0, 0, 5, 5)));
    assert_eq!(status, Status::InternalError);
    assert_eq!(status.code(), 500);
    assert_eq!(messages.len(), 1);
    assert!(messages[0].starts_with("Error loading image: "));
    assert!(messages[0]
        .ends_with(". Please upload a valid image file (e.g., PNG, JPEG, GIF)."));
    assert!(messages[0].len() > 80);
}

#[test]
fn a_size_beyond_memory_is_a_server_error() {
    let source = gradient(4, 4);
    let p = parameters(u32::MAX, u32::MAX, crop(0, 0, 4, 4), OutputFormat::Png);
    let (status, messages) = rejected(process_image(&source, &p, None));
    assert_eq!(status, Status::InternalError);
    assert_eq!(messages, vec!["Server error: The requested size is too large to process."]);
}

#[test]
fn format_names_are_taken_in_any_case() {
    let file = png_file(10, 10);
    match process(&file, Some("a.b.png"), &form("4", "6", Some("jpeg")), crop(0, 0, 5, 5)) {
        Outcome::Done(download) => {
            assert_eq!(download.content_type, "image/jpeg");
            assert_eq!(
                download.disposition,
                "attachment; filename=\"a.b_processed_4x6.jpeg\""
            );
            let back = image::load_from_memory(&download.body).unwrap();
            assert_eq!((back.width(), back.height()), (4, 6));
        }
        other => panic!("no download: {:?}", other),
    }
}

#[test]
fn the_format_defaults_to_png() {
    let file = png_file(10, 10);
    match process(&file, None, &form("+4", "06", None), crop(0, 0, 5, 5)) {
        Outcome::Done(download) => {
            assert_eq!(download.content_type, "image/png");
            assert_eq!(
                download.disposition,
                "attachment; filename=\"image_processed_4x6.png\""
            );
            assert_eq!(&download.body[1..4], b"PNG");
        }
        other => panic!("no download: {:?}", other),
    }
}

#[test]
fn process_is_deterministic() {
    let file = png_file(40, 40);
    for name in ["PNG", "JPEG", "WEBP"] {
        let fields = form("25", "35", Some(name));
        let first = process(&file, Some("x.png"), &fields, crop(2, 3, 30, 20));
        let second = process(&file, Some("x.png"), &fields, crop(2, 3, 30, 20));
        match (first, second) {
            (Outcome::Done(a), Outcome::Done(b)) => {
                assert_eq!(a.body, b.body);
                assert_eq!(a.disposition, b.disposition);
            }
            other => panic!("no downloads: {:?}", other),
        }
    }
}

#[test]
fn vector_formats_give_work_for_the_tracer() {
    let file = png_file(10, 10);
    match process(&file, Some("logo.png"), &form("8", "6", Some("svg")), crop(0, 0, 5, 5)) {
        Outcome::Trace(job) => {
            assert_eq!(job.format, OutputFormat::Svg);
            assert_eq!(job.disposition, "attachment; filename=\"logo_processed_8x6.svg\"");
            let bitmap = image::load_from_memory(&job.bitmap).unwrap();
            assert_eq!((bitmap.width(), bitmap.height()), (8, 6));
        }
        other => panic!("no trace job: {:?}", other),
    }
}

#[test]
fn process_image_checks_the_crop_against_the_image() {
    let source = gradient(100, 100);
    let p = parameters(200, 200, crop(60, 60, 50, 50), OutputFormat::Png);
    let (status, messages) = rejected(process_image(&source, &p, Some("a.png")));
    assert_eq!(status, Status::BadRequest);
    assert_eq!(
        messages,
        vec!["Crop area (x:60+50, y:60+50) exceeds image boundaries (100x100)."]
    );
}

#[test]
fn check_fields_gives_the_parameters() {
    let p = check_fields(10, "WEBP", 3, 4, crop(1, 2, 5, 6)).unwrap();
    assert_eq!(p, parameters(3, 4, crop(1, 2, 5, 6), OutputFormat::Webp));
}

#[test]
fn check_fields_collects_messages() {
    let messages = check_fields(0, "PNG", 3, 4, crop(1, 2, 0, 6)).unwrap_err();
    assert_eq!(
        messages,
        vec![
            "No file uploaded or file was empty.",
            "Crop dimensions (cropWidth and cropHeight) must be positive.",
        ]
    );
}

#[test]
fn crop_bounds_message_names_the_rectangle_and_the_image() {
    assert_eq!(
        crop_bounds_message(crop(1, 22, 333, 4444), 55555, 4294967295),
        "Crop area (x:1+333, y:22+4444) exceeds image boundaries (55555x4294967295)."
    );
}

#[test]
fn disposition_names_the_download() {
    assert_eq!(
        disposition(Some("holiday.jpeg"), OutputFormat::Webp, 640, 480),
        "attachment; filename=\"holiday_processed_640x480.webp\""
    );
    assert_eq!(
        disposition(Some("noext"), OutputFormat::Eps, 1, 2),
        "attachment; filename=\"noext_processed_1x2.eps\""
    );
    assert_eq!(
        disposition(None, OutputFormat::Jpeg, 10, 20),
        "attachment; filename=\"image_processed_10x20.jpeg\""
    );
    assert_eq!(
        disposition(Some(".hidden"), OutputFormat::Svg, 3, 3),
        "attachment; filename=\"_processed_3x3.svg\""
    );
}

#[test]
fn deliver_turns_a_failure_into_a_server_error() {
    let (status, messages) =
        rejected(deliver(Err("disk on fire".to_string()), OutputFormat::Webp, String::new()));
    assert_eq!(status, Status::InternalError);
    assert_eq!(messages, vec!["Error encoding image to WebP: disk on fire"]);
    assert_eq!(
        render_failure_message(OutputFormat::Jpeg, "bad"),
        "Error encoding image to JPEG: bad"
    );
    assert_eq!(
        render_failure_message(OutputFormat::Png, "bad"),
        "Error encoding image to PNG: bad"
    );
    assert_eq!(
        render_failure_message(OutputFormat::Svg, "bad"),
        "Server error: Could not save intermediate file for processing."
    );
}

#[test]
fn deliver_sends_raster_bytes_as_a_download() {
    match deliver(Ok(vec![1, 2, 3]), OutputFormat::Png, "header".to_string()) {
        Outcome::Done(download) => {
            assert_eq!(download.body, vec![1, 2, 3]);
            assert_eq!(download.content_type, "image/png");
            assert_eq!(download.disposition, "header");
        }
        other => panic!("no download: {:?}", other),
    }
}

#[test]
fn deliver_hands_vector_work_to_the_tracer() {
    match deliver(Ok(vec![4, 5]), OutputFormat::Eps, "header".to_string()) {
        Outcome::Trace(job) => {
            assert_eq!(job.bitmap, vec![4, 5]);
            assert_eq!(job.format, OutputFormat::Eps);
            assert_eq!(job.disposition, "header");
        }
        other => panic!("no trace job: {:?}", other),
    }
}

#[test]
fn rejection_holds_one_message() {
    let r = rejection(Status::BadRequest, "no".to_string());
    assert_eq!(r.status, Status::BadRequest);
    assert_eq!(r.messages, vec!["no"]);
}

#[test]
fn tracer_is_called_with_path_flag_and_standard_output() {
    assert_eq!(tracer_program(), "potrace");
    assert_eq!(tracer_arguments("/tmp/x.bmp", OutputFormat::Svg), vec!["/tmp/x.bmp", "-s", "-o", "-"]);
    assert_eq!(tracer_arguments("/tmp/x.bmp", OutputFormat::Eps), vec!["/tmp/x.bmp", "-e", "-o", "-"]);
}

fn job(format: OutputFormat) -> TraceJob {
    TraceJob { format, bitmap: vec![0], disposition: "header".to_string() }
}

#[test]
fn finish_trace_sends_what_the_tracer_wrote() {
    let event = TraceEvent::Exited {
        success: true,
        stdout: b"<svg/>".to_vec(),
        stderr: "warning".to_string(),
    };
    let download = finish_trace(job(OutputFormat::Svg), event).unwrap();
    assert_eq!(download.body, b"<svg/>".to_vec());
    assert_eq!(download.content_type, "image/svg+xml");
    assert_eq!(download.disposition, "header");
    let event = TraceEvent::Exited { success: true, stdout: vec![1], stderr: String::new() };
    let download = finish_trace(job(OutputFormat::Eps), event).unwrap();
    assert_eq!(download.content_type, "application/postscript");
}

#[test]
fn finish_trace_reports_the_first_line_of_the_error_stream() {
    let event = TraceEvent::Exited {
        success: false,
        stdout: Vec::new(),
        stderr: "potrace: bad input\nsecond line\n".to_string(),
    };
    let rejection = finish_trace(job(OutputFormat::Eps), event).unwrap_err();
    assert_eq!(rejection.status, Status::InternalError);
    assert_eq!(
        rejection.messages,
        vec!["Error converting image to EPS via potrace: potrace: bad input"]
    );
}

#[test]
fn finish_trace_reports_a_silent_failure() {
    let event =
        TraceEvent::Exited { success: false, stdout: Vec::new(), stderr: String::new() };
    let rejection = finish_trace(job(OutputFormat::Svg), event).unwrap_err();
    assert_eq!(
        rejection.messages,
        vec!["Error converting image to SVG via potrace: Unknown potrace error"]
    );
}

#[test]
fn finish_trace_hints_at_a_missing_tool() {
    for stderr in ["sh: 1: potrace: not found\n", "first\nNo such file or directory"] {
        let rejection = tracer_failure(OutputFormat::Svg, stderr);
        assert_eq!(rejection.status.code(), 500);
        assert_eq!(rejection.messages.len(), 2);
        assert_eq!(
            rejection.messages[1],
            "Server configuration error: 'potrace' command not found. Please ensure it is installed and in the system PATH."
        );
    }
    let rejection = tracer_failure(OutputFormat::Svg, "sh: 1: potrace: not found\n");
    assert_eq!(
        rejection.messages[0],
        "Error converting image to SVG via potrace: sh: 1: potrace: not found"
    );
}

#[test]
fn finish_trace_reports_trouble_with_the_temporary_file() {
    let r = finish_trace(job(OutputFormat::Svg), TraceEvent::NoTempFile).unwrap_err();
    assert_eq!(r.status, Status::InternalError);
    assert_eq!(r.messages, vec!["Server error: Could not create temporary file for processing."]);
    let r = finish_trace(job(OutputFormat::Svg), TraceEvent::NotSaved).unwrap_err();
    assert_eq!(r.messages, vec!["Server error: Could not save intermediate file for processing."]);
    let r = finish_trace(job(OutputFormat::Svg), TraceEvent::NotFlushed).unwrap_err();
    assert_eq!(r.messages, vec!["Server error: Could not finalize intermediate file."]);
}

#[test]
fn status_codes() {
    assert_eq!(Status::BadRequest.code(), 400);
    assert_eq!(Status::InternalError.code(), 500);
}

#[test]
fn without_alpha_keeps_red_green_and_blue() {
    let image = Raster::new(2, 1, vec![1, 2, 3, 4, 5, 6, 7, 8]).unwrap();
    assert_eq!(without_alpha(&image), vec![1, 2, 3, 5, 6, 7]);
    let empty = Raster::new(0, 0, Vec::new()).unwrap();
    assert_eq!(without_alpha(&empty), Vec::<u8>::new());
    let source = gradient(5, 4);
    let rgb = without_alpha(&source);
    assert_eq!(rgb.len(), 5 * 4 * 3);
    for k in 0..rgb.len() {
        assert_eq!(rgb[k], source.pixels[(k / 3) * 4 + k % 3]);
    }
}

#[test]
fn bitmap_ignores_the_alpha_channel() {
    let solid = gradient(6, 5);
    let mut clear = gradient(6, 5);
    for i in 0..clear.pixels.len() / 4 {
        clear.pixels[i * 4 + 3] = 17;
    }
    assert_eq!(
        render(&solid, OutputFormat::Svg).unwrap(),
        render(&clear, OutputFormat::Svg).unwrap()
    );
    assert_eq!(
        render(&solid, OutputFormat::Jpeg).unwrap(),
        render(&clear, OutputFormat::Jpeg).unwrap()
    );
    assert_ne!(
        render(&solid, OutputFormat::Png).unwrap(),
        render(&clear, OutputFormat::Png).unwrap()
    );
}

#[test]
fn buffers_are_counted_at_their_own_pixel_size() {
    if usize::BITS == 64 {
        assert!(buffers_available(1, 1 << 30, 1 << 30));
        assert!(!buffers_available(1 << 30, 1, 1 << 30));
        assert!(!buffers_available(1, 1 << 31, 1 << 31));
    }
}

#[test]
fn crop_cuts_the_rectangle_out() {
    let source = gradient(20, 10);
    let out = cut(&source, crop(5, 2, 4, 3));
    assert_eq!((out.width, out.height), (4, 3));
    let mut expected = Vec::new();
    for y in 2..5u32 {
        for x in 5..9u32 {
            let at = ((y * 20 + x) * 4) as usize;
            expected.extend_from_slice(&source.pixels[at..at + 4]);
        }
    }
    assert_eq!(out.pixels, expected);
    let whole = cut(&source, crop(0, 0, 20, 10));
    assert_eq!(whole.pixels, source.pixels);
    let corner = cut(&source, crop(19, 9, 1, 1));
    assert_eq!(corner.pixels, source.pixels[source.pixels.len() - 4..].to_vec());
}

#[test]
fn finish_image_writes_the_image_as_a_download() {
    let sized = gradient(7, 5);
    let p = parameters(7, 5, crop(0, 0, 1, 1), OutputFormat::Png);
    match finish_image(&sized, &p, Some("cat.gif")) {
        Outcome::Done(download) => {
            assert_eq!(download.content_type, "image/png");
            assert_eq!(download.disposition, "attachment; filename=\"cat_processed_7x5.png\"");
            assert_eq!(download.body, render(&sized, OutputFormat::Png).unwrap());
            let back = decode(&download.body).unwrap();
            assert_eq!(back.pixels, sized.pixels);
        }
        other => panic!("no download: {:?}", other),
    }
}

#[test]
fn finish_image_hands_a_bitmap_to_the_tracer() {
    let sized = gradient(7, 5);
    let p = parameters(7, 5, crop(0, 0, 1, 1), OutputFormat::Eps);
    match finish_image(&sized, &p, None) {
        Outcome::Trace(job) => {
            assert_eq!(job.format, OutputFormat::Eps);
            assert_eq!(job.disposition, "attachment; filename=\"image_processed_7x5.eps\"");
            assert_eq!(job.bitmap, render(&sized, OutputFormat::Eps).unwrap());
        }
        other => panic!("no trace job: {:?}", other),
    }
}

#[test]
fn finish_image_reports_an_image_that_cannot_be_written() {
    let wide = Raster::new(70000, 1, vec![0; 70000 * 4]).unwrap();
    let p = parameters(70000, 1, crop(0, 0, 1, 1), OutputFormat::Jpeg);
    let (status, messages) = rejected(finish_image(&wide, &p, None));
    assert_eq!(status, Status::InternalError);
    assert_eq!(messages.len(), 1);
    assert!(messages[0].starts_with("Error encoding image to JPEG: "));
    assert!(messages[0].len() > "Error encoding image to JPEG: ".len());
}

//! Request validation and image processing for a crop-and-resize service.
//!
//! A request is a multipart form with an image file and text fields. The
//! form decoder collects its parts, the rules on the fields turn them into
//! processing parameters, the image is cropped, resized and written in the
//! format asked for, and the outcome becomes an HTTP response. Reading the
//! request, running the tracer for vector formats and sending the response
//! are left to the program around this library.

pub mod form;
pub mod format;
pub mod pipeline;
pub mod raster;
pub mod request;
pub mod response;
pub mod text;

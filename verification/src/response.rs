//! The responses of the service: downloads, and pages made by the template
//! engine.

use vstd::prelude::*;
use vstd::utf8::*;
use crate::pipeline::{Download, Rejection, Status};
use crate::request::texts;

verus! {

/// The template engine's set of compiled templates.
#[verifier::external_type_specification]
#[verifier::external_body]
pub struct ExTera(tera::Tera);

/// An HTTP response: status code, content type, the disposition header
/// where there is one, and the body. Where the template engine could not
/// render the page, `diagnostic` holds the text of its error, which is for
/// the log and is not sent.
#[derive(Debug)]
pub struct Response {
    pub status: u16,
    pub content_type: String,
    pub disposition: Option<String>,
    pub body: Vec<u8>,
    pub diagnostic: Option<String>,
}

pub open spec fn html_type_text() -> Seq<char> {
    "text/html"@
}

pub open spec fn error_page_type_text() -> Seq<char> {
    "text/html; charset=utf-8"@
}

pub open spec fn plain_type_text() -> Seq<char> {
    "text/plain; charset=utf-8"@
}

pub open spec fn index_failure_text() -> Seq<char> {
    "Failed to render page."@
}

pub open spec fn error_page_failure_text() -> Seq<char> {
    "Failed to render page. Please try again."@
}

/// The response is a text without disposition header, with the given
/// status and content type, and nothing for the log.
pub open spec fn is_page(response: Response, status: u16, content_type: Seq<char>, text: Seq<char>) -> bool {
    &&& response.status == status
    &&& response.content_type@ == content_type
    &&& response.disposition is None
    &&& response.body@ == encode_utf8(text)
    &&& response.diagnostic is None
}

/// The response is an internal error with the given text as its body, and
/// the engine's error for the log.
pub open spec fn is_render_failure(response: Response, text: Seq<char>, error: Seq<char>) -> bool {
    &&& response.status == 500
    &&& response.content_type@ == plain_type_text()
    &&& response.disposition is None
    &&& response.body@ == encode_utf8(text)
    &&& response.diagnostic matches Some(d) && d@ == error
}

/// The response sends the download as an attachment.
pub open spec fn is_download(response: Response, download: Download) -> bool {
    &&& response.status == 200
    &&& response.content_type@ == download.content_type@
    &&& response.disposition matches Some(header) && header@ == download.disposition@
    &&& response.body@ == download.body@
    &&& response.diagnostic is None
}

/// The response is what a rendering of the index page comes to.
pub open spec fn is_index_page(response: Response, rendered: Result<String, String>) -> bool {
    match rendered {
        Ok(html) => is_page(response, 200, html_type_text(), html@),
        Err(error) => is_render_failure(response, index_failure_text(), error@),
    }
}

/// The response is what a rendering of the error page comes to: the page
/// with the status of the failure, or an internal error where the page
/// itself could not be rendered.
pub open spec fn is_error_page(
    response: Response,
    rendered: Result<String, String>,
    status: Status,
) -> bool {
    match rendered {
        Ok(html) => is_page(response, status.code_of(), error_page_type_text(), html@),
        Err(error) => is_render_failure(response, error_page_failure_text(), error@),
    }
}

/// What is handed to the template engine for a page: the template's name,
/// and the messages with the key under which the template finds them.
#[derive(Debug)]
pub struct PageRequest {
    pub template: String,
    pub key: String,
    pub messages: Vec<String>,
}

/// The request asks for the page of the service with the given messages, in
/// their order.
pub open spec fn page_request_is(request: PageRequest, messages: Seq<Seq<char>>) -> bool {
    &&& request.template@ == "index.html"@
    &&& request.key@ == "messages"@
    &&& texts(request.messages@) == messages
}

/// Calls `Context::new`, `Context::insert` and `Tera::render`: renders the
/// named template with the messages under the given key, and gives the page
/// or the text of the engine's error. Nothing is claimed of the outcome,
/// which depends on the templates that were loaded.
#[verifier::external_body]
fn render_page(templates: &tera::Tera, template: &str, key: &str, messages: &Vec<String>) -> (r:
    Result<String, String>) {
    let mut context = tera::Context::new();
    context.insert(key, messages);
    match templates.render(template, &context) {
        Ok(page) => Ok(page),
        Err(e) => Err(e.to_string()),
    }
}

/// The request for the index page: the page of the service without
/// messages.
pub fn index_request() -> (r: PageRequest)
    ensures
        page_request_is(r, Seq::empty()),
{
    let r = PageRequest {
        template: String::from_str("index.html"),
        key: String::from_str("messages"),
        messages: Vec::new(),
    };
    assert(texts(r.messages@) =~= Seq::<Seq<char>>::empty());
    r
}

/// The request for the error page of a rejection: the page of the service
/// with the messages of the rejection, each of them, in their order.
pub fn error_request(rejection: &Rejection) -> (r: PageRequest)
    ensures
        page_request_is(r, texts(rejection.messages@)),
{
    let mut messages: Vec<String> = Vec::new();
    let mut i: usize = 0;
    while i < rejection.messages.len()
        invariant
            i <= rejection.messages@.len(),
            messages@.len() == i,
            forall|k: int| 0 <= k < i ==> messages@[k]@ == rejection.messages@[k]@,
        decreases rejection.messages@.len() - i,
    {
        messages.push(rejection.messages[i].clone());
        i += 1;
    }
    assert(texts(messages@) =~= texts(rejection.messages@));
    PageRequest {
        template: String::from_str("index.html"),
        key: String::from_str("messages"),
        messages,
    }
}

/// Hands a page request to the template engine. The page comes back where
/// the engine can render it, else the text of its error; which of the two
/// depends on the templates that were loaded.
pub fn request_page(templates: &tera::Tera, request: &PageRequest) -> (r: Result<String, String>) {
    render_page(templates, request.template.as_str(), request.key.as_str(), &request.messages)
}

fn page(status: u16, content_type: &str, text: &str) -> (r: Response)
    ensures
        is_page(r, status, content_type@, text@),
{
    Response {
        status,
        content_type: String::from_str(content_type),
        disposition: None,
        body: text.as_bytes_vec(),
        diagnostic: None,
    }
}

fn render_failure(text: &str, error: String) -> (r: Response)
    ensures
        is_render_failure(r, text@, error@),
{
    Response {
        status: 500,
        content_type: String::from_str("text/plain; charset=utf-8"),
        disposition: None,
        body: text.as_bytes_vec(),
        diagnostic: Some(error),
    }
}

/// The response for a rendering of the index page.
pub fn index_page(rendered: Result<String, String>) -> (r: Response)
    ensures
        is_index_page(r, rendered),
{
    match rendered {
        Ok(html) => page(200, "text/html", html.as_str()),
        Err(error) => render_failure("Failed to render page.", error),
    }
}

/// The response for a rendering of the error page of a failure.
pub fn error_page(rendered: Result<String, String>, status: Status) -> (r: Response)
    ensures
        is_error_page(r, rendered, status),
{
    match rendered {
        Ok(html) => page(status.code(), "text/html; charset=utf-8", html.as_str()),
        Err(error) => render_failure("Failed to render page. Please try again.", error),
    }
}

/// The response that sends a download as an attachment.
pub fn download_response(download: Download) -> (r: Response)
    ensures
        is_download(r, download),
{
    Response {
        status: 200,
        content_type: download.content_type,
        disposition: Some(download.disposition),
        body: download.body,
        diagnostic: None,
    }
}

/// Renders the index page without messages: hands the request of
/// `index_request` to the template engine and answers with `index_page` of
/// what came back.
pub fn show_index(templates: &tera::Tera) -> (r: Response)
    ensures
        exists|rendered: Result<String, String>| is_index_page(r, rendered),
{
    let request = index_request();
    let rendered = request_page(templates, &request);
    let r = index_page(rendered);
    assert(is_index_page(r, rendered));
    r
}

/// Answers a request: sends the download, or hands the request of
/// `error_request` to the template engine and answers with `error_page` of
/// what came back.
pub fn respond(templates: &tera::Tera, result: Result<Download, Rejection>) -> (r: Response)
    ensures
        match result {
            Ok(download) => is_download(r, download),
            Err(rejection) => exists|rendered: Result<String, String>|
                is_error_page(r, rendered, rejection.status),
        },
{
    match result {
        Ok(download) => download_response(download),
        Err(rejection) => {
            let request = error_request(&rejection);
            let rendered = request_page(templates, &request);
            let r = error_page(rendered, rejection.status);
            assert(is_error_page(r, rendered, rejection.status));
            r
        },
    }
}

} // verus!

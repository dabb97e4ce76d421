//! The decoded form: the uploaded file and the named text fields.

use vstd::hash_map::StringHashMap;
use vstd::prelude::*;
use vstd::utf8::*;
use crate::format::same_text;
use crate::text::{dimension_of, parse_dimension};

verus! {

/// The text fields of a form, by name. A later field of the same name
/// replaces an earlier one.
pub struct FormFields {
    pub map: StringHashMap<String>,
}

/// The byte buffer of the `bytes` crate, in which the chunks of a part are
/// collected.
#[verifier::external_type_specification]
#[verifier::external_body]
pub struct ExBytesMut(bytes::BytesMut);

/// The bytes that a buffer holds, in order.
pub uninterp spec fn buffered(buffer: bytes::BytesMut) -> Seq<u8>;

/// One part of a multipart form while its chunks arrive: its name, the file
/// name that the sender declared, and the bytes so far.
#[derive(Debug)]
pub struct PartBuffer {
    pub name: String,
    pub filename: Option<String>,
    pub data: bytes::BytesMut,
}

/// The uploaded file: its bytes, empty where none came, and the file name
/// that the sender declared.
#[derive(Debug)]
pub struct Upload {
    pub bytes: Vec<u8>,
    pub filename: Option<String>,
}

/// Collects the parts of a multipart form.
pub struct FormDecoder {
    pub upload: Upload,
    pub fields: FormFields,
}

/// The value of the field `name`, if the form has it.
pub open spec fn field_text(fields: Map<Seq<char>, Seq<char>>, name: Seq<char>) -> Option<
    Seq<char>,
> {
    if fields.contains_key(name) {
        Some(fields[name])
    } else {
        None
    }
}

/// The text that the bytes of a field stand for: their UTF-8 decoding, or the
/// empty text where they are not UTF-8.
pub open spec fn text_of(bytes: Seq<u8>) -> Seq<char> {
    if valid_utf8(bytes) {
        decode_utf8(bytes)
    } else {
        Seq::empty()
    }
}

/// The dimension that a field asks for: the number it denotes, or zero where
/// the field is absent or denotes none.
pub open spec fn dimension_or_zero(field: Option<Seq<char>>) -> u32 {
    match field {
        Some(text) => match dimension_of(text) {
            Some(v) => v,
            None => 0,
        },
        None => 0,
    }
}

/// The name of the part that carries the file.
pub open spec fn file_part_name() -> Seq<char> {
    "file"@
}

/// Calls `String::from_utf8`. Trusted: it succeeds exactly on valid UTF-8
/// and then gives the text that the bytes encode.
#[verifier::external_body]
fn utf8_text(data: Vec<u8>) -> (r: Option<String>)
    ensures
        r is Some <==> valid_utf8(data@),
        r matches Some(text) ==> text@ == decode_utf8(data@),
{
    String::from_utf8(data).ok()
}

/// Calls `BytesMut::new`. Trusted: the new buffer holds no bytes.
#[verifier::external_body]
fn empty_buffer() -> (r: bytes::BytesMut)
    ensures
        buffered(r) == Seq::<u8>::empty(),
{
    bytes::BytesMut::new()
}

/// Calls `BytesMut::extend_from_slice`. Trusted: the buffer then holds what
/// it held, followed by the bytes of the slice.
#[verifier::external_body]
fn extend_buffer(buffer: &mut bytes::BytesMut, chunk: &[u8])
    ensures
        buffered(*final(buffer)) == buffered(*old(buffer)) + chunk@,
{
    buffer.extend_from_slice(chunk);
}

/// Calls `to_vec` on the slice that a `BytesMut` dereferences to. Trusted:
/// the vector holds the buffer's bytes.
#[verifier::external_body]
fn buffer_bytes(buffer: &bytes::BytesMut) -> (r: Vec<u8>)
    ensures
        r@ == buffered(*buffer),
{
    buffer.to_vec()
}

/// Reads a dimension field.
pub fn dimension_field(field: Option<&str>) -> (r: u32)
    ensures
        r == dimension_or_zero(
            match field {
                Some(text) => Some(text@),
                None => None,
            },
        ),
{
    match field {
        Some(text) => match parse_dimension(text) {
            Some(v) => v,
            None => 0,
        },
        None => 0,
    }
}

impl View for FormFields {
    type V = Map<Seq<char>, Seq<char>>;

    open spec fn view(&self) -> Map<Seq<char>, Seq<char>> {
        self.map@.map_values(|value: String| value@)
    }
}

impl FormFields {
    /// A form without fields.
    pub fn new() -> (r: FormFields)
        ensures
            r@ == Map::<Seq<char>, Seq<char>>::empty(),
    {
        let r = FormFields { map: StringHashMap::new() };
        assert(r@ =~= Map::<Seq<char>, Seq<char>>::empty());
        r
    }

    /// Sets the field `name` to `value`.
    pub fn insert(&mut self, name: String, value: String)
        ensures
            final(self)@ == old(self)@.insert(name@, value@),
    {
        let ghost before = self@;
        self.map.insert(name, value);
        assert(self@ =~= before.insert(name@, value@));
    }

    /// The value of the field `name`.
    pub fn get(&self, name: &str) -> (r: Option<&str>)
        ensures
            match r {
                Some(value) => Some(value@) == field_text(self@, name@),
                None => field_text(self@, name@) is None,
            },
    {
        match self.map.get(name) {
            Some(value) => Some(value.as_str()),
            None => None,
        }
    }
}

impl PartBuffer {
    /// The bytes collected so far.
    pub open spec fn bytes(&self) -> Seq<u8> {
        buffered(self.data)
    }

    /// Begins a part that has no bytes yet.
    pub fn begin(name: String, filename: Option<String>) -> (r: PartBuffer)
        ensures
            r.name == name,
            r.filename == filename,
            r.bytes() == Seq::<u8>::empty(),
    {
        PartBuffer { name, filename, data: empty_buffer() }
    }

    /// Adds a chunk at the end of the bytes collected so far.
    pub fn push_chunk(&mut self, chunk: &[u8])
        ensures
            final(self).name == old(self).name,
            final(self).filename == old(self).filename,
            final(self).bytes() == old(self).bytes() + chunk@,
    {
        extend_buffer(&mut self.data, chunk);
    }

    /// The bytes collected so far, as a vector.
    pub fn to_vec(&self) -> (r: Vec<u8>)
        ensures
            r@ == self.bytes(),
    {
        buffer_bytes(&self.data)
    }
}

impl FormDecoder {
    /// A decoder that has seen no part yet.
    pub fn new() -> (r: FormDecoder)
        ensures
            r.upload.bytes@.len() == 0,
            r.upload.filename is None,
            r.fields@ == Map::<Seq<char>, Seq<char>>::empty(),
    {
        FormDecoder {
            upload: Upload { bytes: Vec::new(), filename: None },
            fields: FormFields::new(),
        }
    }

    /// Takes a complete part: the file where its name says so, else a text
    /// field. A declared file name is kept even where the file is empty; an
    /// empty file leaves the bytes of an earlier one in place.
    pub fn accept(&mut self, part: PartBuffer)
        ensures
            part.name@ == file_part_name() ==> {
                &&& final(self).fields@ == old(self).fields@
                &&& final(self).upload.filename == (if part.filename is Some {
                    part.filename
                } else {
                    old(self).upload.filename
                })
                &&& final(self).upload.bytes@ == (if part.bytes().len() > 0 {
                    part.bytes()
                } else {
                    old(self).upload.bytes@
                })
            },
            part.name@ != file_part_name() ==> {
                &&& final(self).fields@ == old(self).fields@.insert(
                    part.name@,
                    text_of(part.bytes()),
                )
                &&& final(self).upload == old(self).upload
            },
    {
        let data = part.to_vec();
        if same_text(part.name.as_str(), "file") {
            if part.filename.is_some() {
                self.upload.filename = part.filename;
            }
            if data.len() > 0 {
                self.upload.bytes = data;
            }
        } else {
            let text = match utf8_text(data) {
                Some(text) => text,
                None => String::new(),
            };
            self.fields.insert(part.name, text);
        }
    }
}

} // verus!

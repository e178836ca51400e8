//! The payload operations that each language binding offers, over the
//! shared `Payload`: creation from raw parts or text, part lengths, and
//! copies of the parts for the caller.

use vstd::prelude::*;
use vstd::utf8::*;
use vstd::string::*;
use bytes::Bytes;
use crate::buffer::{bytes_content, bytes_copy_from_slice, bytes_from_vec};
use crate::payload::{Payload, PayloadBuilder, PayloadView, part_len, utf8_text};
use crate::text::{decimal_text, u32_to_decimal};

verus! {

/// A raw part handed over by C: absent when the pointer is null or the
/// length is zero.
pub open spec fn raw_part(part: Option<&[u8]>) -> Option<Seq<u8>> {
    match part {
        Some(s) => if s@.len() > 0 {
            Some(s@)
        } else {
            None
        },
        None => None,
    }
}

/// The bytes of an optional byte vector.
pub open spec fn vec_part(part: Option<Vec<u8>>) -> Option<Seq<u8>> {
    match part {
        Some(v) => Some(v@),
        None => None,
    }
}

/// The UTF-8 bytes of an optional string slice.
pub open spec fn str_part(part: Option<&str>) -> Option<Seq<u8>> {
    match part {
        Some(s) => Some(encode_utf8(s@)),
        None => None,
    }
}

/// The UTF-8 bytes of an optional string.
pub open spec fn string_part(part: Option<String>) -> Option<Seq<u8>> {
    match part {
        Some(s) => Some(encode_utf8(s@)),
        None => None,
    }
}

/// Builds a payload from two optional parts.
fn payload_from_parts(data: Option<Bytes>, metadata: Option<Bytes>) -> (p: Payload)
    ensures
        p@.data == match data {
            Some(b) => Some(bytes_content(b)),
            None => None::<Seq<u8>>,
        },
        p@.metadata == match metadata {
            Some(b) => Some(bytes_content(b)),
            None => None::<Seq<u8>>,
        },
{
    let mut builder = Payload::builder();
    match data {
        Some(d) => {
            builder = builder.set_data(d);
        },
        None => {},
    }
    match metadata {
        Some(m) => {
            builder = builder.set_metadata(m);
        },
        None => {},
    }
    builder.build()
}

// ---------------------------------------------------------------- C ----

/// A payload from raw C parts; a null or empty part is left absent.
pub fn rsocket_payload_create(data: Option<&[u8]>, metadata: Option<&[u8]>) -> (p: Payload)
    ensures
        p@ == (PayloadView { data: raw_part(data), metadata: raw_part(metadata) }),
{
    let d = match data {
        Some(s) => if s.len() > 0 {
            Some(bytes_copy_from_slice(s))
        } else {
            None
        },
        None => None,
    };
    let m = match metadata {
        Some(s) => if s.len() > 0 {
            Some(bytes_copy_from_slice(s))
        } else {
            None
        },
        None => None,
    };
    payload_from_parts(d, m)
}

/// A payload from C strings: the data is the text (empty for a null
/// pointer) and the metadata is the text when given.
pub fn rsocket_payload_create_from_string(data: Option<&str>, metadata: Option<&str>) -> (p:
    Payload)
    ensures
        p@.data == Some(
            match data {
                Some(s) => encode_utf8(s@),
                None => Seq::<u8>::empty(),
            },
        ),
        p@.metadata == str_part(metadata),
{
    let d = match data {
        Some(s) => bytes_copy_from_slice(s.as_bytes()),
        None => bytes_from_vec(Vec::new()),
    };
    let m = match metadata {
        Some(s) => Some(bytes_copy_from_slice(s.as_bytes())),
        None => None,
    };
    payload_from_parts(Some(d), m)
}

/// Length of a payload's data, zero for a null payload or absent data.
pub fn rsocket_payload_get_data_length(payload: Option<&Payload>) -> (n: usize)
    ensures
        n == match payload {
            Some(p) => part_len(p@.data),
            None => 0,
        },
{
    match payload {
        Some(p) => p.data_len(),
        None => 0,
    }
}

/// Length of a payload's metadata, zero for a null payload or absent metadata.
pub fn rsocket_payload_get_metadata_length(payload: Option<&Payload>) -> (n: usize)
    ensures
        n == match payload {
            Some(p) => part_len(p@.metadata),
            None => 0,
        },
{
    match payload {
        Some(p) => p.metadata_len(),
        None => 0,
    }
}

/// Copies as much of the payload's data as fits into `buffer` and returns
/// how many bytes were copied; the rest of the buffer is left as it was.
/// A null payload or absent data copies nothing.
pub fn rsocket_payload_copy_data(payload: Option<&Payload>, buffer: &mut [u8]) -> (n: usize)
    ensures
        n == match payload {
            Some(p) => match p@.data {
                Some(d) => if d.len() < old(buffer)@.len() {
                    d.len()
                } else {
                    old(buffer)@.len()
                },
                None => 0,
            },
            None => 0,
        },
        final(buffer)@.len() == old(buffer)@.len(),
        forall|i: int| 0 <= i < n ==> final(buffer)@[i] == payload.unwrap()@.data.unwrap()[i],
        forall|i: int| n <= i < old(buffer)@.len() ==> final(buffer)@[i] == old(buffer)@[i],
{
    match payload {
        Some(p) => match p.data() {
            Some(d) => {
                let n = if d.len() < buffer.len() {
                    d.len()
                } else {
                    buffer.len()
                };
                let mut i: usize = 0;
                while i < n
                    invariant
                        n <= d@.len(),
                        n <= buffer@.len(),
                        buffer@.len() == old(buffer)@.len(),
                        0 <= i <= n,
                        forall|j: int| 0 <= j < i ==> buffer@[j] == d@[j],
                        forall|j: int| i <= j < buffer@.len() ==> buffer@[j] == old(buffer)@[j],
                    decreases n - i,
                {
                    buffer[i] = d[i];
                    i = i + 1;
                }
                n
            },
            None => 0,
        },
        None => 0,
    }
}

// --------------------------------------------------------------- Go ----

/// A payload owned on behalf of the Go side.
pub struct GoRSocketPayload {
    inner: Box<Payload>,
}

impl View for GoRSocketPayload {
    type V = PayloadView;

    closed spec fn view(&self) -> PayloadView {
        self.inner@
    }
}

impl GoRSocketPayload {
    /// Takes ownership of a payload.
    pub fn new(payload: Payload) -> (res: GoRSocketPayload)
        ensures
            res@ == payload@,
    {
        GoRSocketPayload { inner: Box::new(payload) }
    }

    /// The payload held.
    pub fn inner(&self) -> (res: &Payload)
        ensures
            res@ == self@,
    {
        &self.inner
    }
}

/// A Go payload from text, made as `rsocket_payload_create_from_string`
/// makes a C one: the data text's bytes (empty for a null string) and the
/// metadata text's bytes when there is metadata.
pub fn rsocket_go_payload_create_from_string(data: Option<&str>, metadata: Option<&str>) -> (p:
    GoRSocketPayload)
    ensures
        p@.data == Some(
            match data {
                Some(s) => encode_utf8(s@),
                None => Seq::<u8>::empty(),
            },
        ),
        p@.metadata == str_part(metadata),
{
    GoRSocketPayload::new(rsocket_payload_create_from_string(data, metadata))
}

/// Length of a Go payload's data, zero for a null payload or absent data.
pub fn rsocket_go_payload_get_data_length(payload: Option<&GoRSocketPayload>) -> (n: usize)
    ensures
        n == match payload {
            Some(p) => part_len(p@.data),
            None => 0,
        },
{
    match payload {
        Some(p) => p.inner().data_len(),
        None => 0,
    }
}

/// Length of a Go payload's metadata, zero for a null payload or absent
/// metadata.
pub fn rsocket_go_payload_get_metadata_length(payload: Option<&GoRSocketPayload>) -> (n: usize)
    ensures
        n == match payload {
            Some(p) => part_len(p@.metadata),
            None => 0,
        },
{
    match payload {
        Some(p) => p.inner().metadata_len(),
        None => 0,
    }
}

// ------------------------------------------------------------- Java ----

/// A payload owned on behalf of the Java side.
pub struct JavaRSocketPayload {
    inner: Box<Payload>,
}

impl View for JavaRSocketPayload {
    type V = PayloadView;

    closed spec fn view(&self) -> PayloadView {
        self.inner@
    }
}

impl JavaRSocketPayload {
    /// Takes ownership of a payload.
    pub fn new(payload: Payload) -> (res: JavaRSocketPayload)
        ensures
            res@ == payload@,
    {
        JavaRSocketPayload { inner: Box::new(payload) }
    }

    /// The payload held.
    pub fn inner(&self) -> (res: &Payload)
        ensures
            res@ == self@,
    {
        &self.inner
    }

    /// Gives the payload back.
    pub fn into_inner(self) -> (res: Payload)
        ensures
            res@ == self@,
    {
        *self.inner
    }
}

/// A payload from Java byte arrays; a null array leaves its part absent,
/// an empty one gives an empty part.
pub fn Java_com_rsocket_rust_Payload_create(data: Option<Vec<u8>>, metadata: Option<Vec<u8>>) -> (res:
    JavaRSocketPayload)
    ensures
        res@ == (PayloadView { data: vec_part(data), metadata: vec_part(metadata) }),
{
    let d = match data {
        Some(v) => Some(bytes_from_vec(v)),
        None => None,
    };
    let m = match metadata {
        Some(v) => Some(bytes_from_vec(v)),
        None => None,
    };
    JavaRSocketPayload::new(payload_from_parts(d, m))
}

/// A payload from Java strings: the data is the text (empty for null) and
/// the metadata is the text when given.
pub fn Java_com_rsocket_rust_Payload_createFromString(data: Option<String>, metadata: Option<String>) -> (res:
    JavaRSocketPayload)
    ensures
        res@.data == Some(
            match data {
                Some(s) => encode_utf8(s@),
                None => Seq::<u8>::empty(),
            },
        ),
        res@.metadata == string_part(metadata),
{
    let d = match &data {
        Some(s) => bytes_copy_from_slice(s.as_str().as_bytes()),
        None => bytes_from_vec(Vec::new()),
    };
    let m = match &metadata {
        Some(s) => Some(bytes_copy_from_slice(s.as_str().as_bytes())),
        None => None,
    };
    JavaRSocketPayload::new(payload_from_parts(Some(d), m))
}

/// Length of the data as a Java `int` (the length cast to 32 bits), zero
/// for a null payload or absent data.
pub fn Java_com_rsocket_rust_Payload_getDataLength(payload: Option<&JavaRSocketPayload>) -> (n: i32)
    ensures
        n == match payload {
            Some(p) => part_len(p@.data) as i32,
            None => 0,
        },
{
    match payload {
        Some(p) => p.inner().data_len() as i32,
        None => 0,
    }
}

/// A copy of the data for a Java byte array; `None` (a null array) for a
/// null payload or absent data.
pub fn Java_com_rsocket_rust_Payload_getData(payload: Option<&JavaRSocketPayload>) -> (res: Option<
    Vec<u8>,
>)
    ensures
        vec_part(res) == match payload {
            Some(p) => p@.data,
            None => None,
        },
{
    match payload {
        Some(p) => p.inner().data_to_vec(),
        None => None,
    }
}

// ------------------------------------------------------- JavaScript ----

/// A payload as seen from JavaScript.
pub struct JsPayload {
    inner: Payload,
}

impl View for JsPayload {
    type V = PayloadView;

    closed spec fn view(&self) -> PayloadView {
        self.inner@
    }
}

impl JsPayload {
    /// A payload from optional buffers; an absent buffer leaves its part absent.
    pub fn new(data: Option<Vec<u8>>, metadata: Option<Vec<u8>>) -> (res: JsPayload)
        ensures
            res@ == (PayloadView { data: vec_part(data), metadata: vec_part(metadata) }),
    {
        let d = match data {
            Some(v) => Some(bytes_from_vec(v)),
            None => None,
        };
        let m = match metadata {
            Some(v) => Some(bytes_from_vec(v)),
            None => None,
        };
        JsPayload { inner: payload_from_parts(d, m) }
    }

    /// A copy of the data, if present.
    pub fn get_data(&self) -> (res: Option<Vec<u8>>)
        ensures
            vec_part(res) == self@.data,
    {
        self.inner.data_to_vec()
    }

    /// A copy of the metadata, if present.
    pub fn get_metadata(&self) -> (res: Option<Vec<u8>>)
        ensures
            vec_part(res) == self@.metadata,
    {
        self.inner.metadata_to_vec()
    }

    /// The data as text, if present and UTF-8.
    pub fn get_data_utf8(&self) -> (res: Option<String>)
        ensures
            match res {
                Some(s) => utf8_text(self@.data) == Some(s@),
                None => utf8_text(self@.data) is None,
            },
    {
        match self.inner.data_utf8() {
            Some(s) => Some(s.to_owned()),
            None => None,
        }
    }

    /// The metadata as text, if present and UTF-8.
    pub fn get_metadata_utf8(&self) -> (res: Option<String>)
        ensures
            match res {
                Some(s) => utf8_text(self@.metadata) == Some(s@),
                None => utf8_text(self@.metadata) is None,
            },
    {
        match self.inner.metadata_utf8() {
            Some(s) => Some(s.to_owned()),
            None => None,
        }
    }

    /// Whether the data part is present.
    pub fn has_data(&self) -> (res: bool)
        ensures
            res == self@.data is Some,
    {
        match self.inner.data() {
            Some(_) => true,
            None => false,
        }
    }

    /// Whether the metadata part is present.
    pub fn has_metadata(&self) -> (res: bool)
        ensures
            res == self@.metadata is Some,
    {
        match self.inner.metadata() {
            Some(_) => true,
            None => false,
        }
    }

    /// Length of the data cast to 32 bits, zero when absent.
    pub fn data_len(&self) -> (n: u32)
        ensures
            n == part_len(self@.data) as u32,
    {
        self.inner.data_len() as u32
    }

    /// Length of the metadata cast to 32 bits, zero when absent.
    pub fn metadata_len(&self) -> (n: u32)
        ensures
            n == part_len(self@.metadata) as u32,
    {
        self.inner.metadata_len() as u32
    }

    /// `JsPayload(data: <data length>, metadata: <metadata length>)`.
    pub fn to_string(&self) -> (s: String)
        ensures
            s@ == "JsPayload(data: "@ + decimal_text(part_len(self@.data) as u32 as nat)
                + ", metadata: "@ + decimal_text(part_len(self@.metadata) as u32 as nat) + ")"@,
    {
        let mut s = String::from_str("JsPayload(data: ");
        s.append(u32_to_decimal(self.data_len()).as_str());
        s.append(", metadata: ");
        s.append(u32_to_decimal(self.metadata_len()).as_str());
        s.append(")");
        s
    }

    /// A payload whose data is the text and whose metadata is the given text, if any.
    pub fn from_string(data: String, metadata: Option<String>) -> (res: JsPayload)
        ensures
            res@ == (PayloadView { data: Some(encode_utf8(data@)), metadata: string_part(metadata) }),
    {
        let d = bytes_copy_from_slice(data.as_str().as_bytes());
        let m = match &metadata {
            Some(s) => Some(bytes_copy_from_slice(s.as_str().as_bytes())),
            None => None,
        };
        JsPayload { inner: payload_from_parts(Some(d), m) }
    }

    /// Same as `from_string`: JSON text is carried as it is.
    pub fn from_json(data: String, metadata: Option<String>) -> (res: JsPayload)
        ensures
            res@ == (PayloadView { data: Some(encode_utf8(data@)), metadata: string_part(metadata) }),
    {
        Self::from_string(data, metadata)
    }

    /// The payload to send.
    pub fn to_rsocket_payload(&self) -> (res: Payload)
        ensures
            res@ == self@,
    {
        self.inner.duplicate()
    }

    /// Wraps a received payload.
    pub fn from_rsocket_payload(payload: Payload) -> (res: JsPayload)
        ensures
            res@ == payload@,
    {
        JsPayload { inner: payload }
    }
}

/// A JavaScript payload from optional buffers.
pub fn create_payload(data: Option<Vec<u8>>, metadata: Option<Vec<u8>>) -> (res: JsPayload)
    ensures
        res@ == (PayloadView { data: vec_part(data), metadata: vec_part(metadata) }),
{
    JsPayload::new(data, metadata)
}

/// A JavaScript payload whose data is the text, without metadata.
pub fn create_payload_from_string(data: String) -> (res: JsPayload)
    ensures
        res@ == (PayloadView { data: Some(encode_utf8(data@)), metadata: None }),
{
    JsPayload::from_string(data, None)
}

// ----------------------------------------------------------- Python ----

/// A payload as seen from Python.
pub struct PyPayload {
    inner: Payload,
}

impl View for PyPayload {
    type V = PayloadView;

    closed spec fn view(&self) -> PayloadView {
        self.inner@
    }
}

/// A payload builder as seen from Python, changed in place.
pub struct PyPayloadBuilder {
    inner: PayloadBuilder,
}

impl View for PyPayloadBuilder {
    type V = PayloadView;

    closed spec fn view(&self) -> PayloadView {
        self.inner@
    }
}

impl PyPayload {
    /// A builder with neither part set.
    pub fn builder() -> (res: PyPayloadBuilder)
        ensures
            res@ == (PayloadView { data: None, metadata: None }),
    {
        PyPayloadBuilder { inner: Payload::builder() }
    }

    /// The data as text, if present and UTF-8.
    pub fn data_utf8(&self) -> (res: Option<String>)
        ensures
            match res {
                Some(s) => utf8_text(self@.data) == Some(s@),
                None => utf8_text(self@.data) is None,
            },
    {
        match self.inner.data_utf8() {
            Some(s) => Some(s.to_owned()),
            None => None,
        }
    }

    /// The metadata as text, if present and UTF-8.
    pub fn metadata_utf8(&self) -> (res: Option<String>)
        ensures
            match res {
                Some(s) => utf8_text(self@.metadata) == Some(s@),
                None => utf8_text(self@.metadata) is None,
            },
    {
        match self.inner.metadata_utf8() {
            Some(s) => Some(s.to_owned()),
            None => None,
        }
    }

    /// A copy of the data, if present.
    pub fn data(&self) -> (res: Option<Vec<u8>>)
        ensures
            vec_part(res) == self@.data,
    {
        self.inner.data_to_vec()
    }

    /// A copy of the metadata, if present.
    pub fn metadata(&self) -> (res: Option<Vec<u8>>)
        ensures
            vec_part(res) == self@.metadata,
    {
        self.inner.metadata_to_vec()
    }

    /// Wraps a received payload.
    pub fn from_rust(payload: Payload) -> (res: PyPayload)
        ensures
            res@ == payload@,
    {
        PyPayload { inner: payload }
    }

    /// The payload to send.
    pub fn to_rust(self) -> (res: Payload)
        ensures
            res@ == self@,
    {
        self.inner
    }
}

impl PyPayloadBuilder {
    /// Sets the data to the UTF-8 encoding of the text.
    pub fn set_data_utf8(&mut self, data: &str)
        ensures
            final(self)@ == (PayloadView { data: Some(encode_utf8(data@)), ..old(self)@ }),
    {
        let mut b = Payload::builder();
        std::mem::swap(&mut self.inner, &mut b);
        self.inner = b.set_data_utf8(data);
    }

    /// Sets the metadata to the UTF-8 encoding of the text.
    pub fn set_metadata_utf8(&mut self, metadata: &str)
        ensures
            final(self)@ == (PayloadView { metadata: Some(encode_utf8(metadata@)), ..old(self)@ }),
    {
        let mut b = Payload::builder();
        std::mem::swap(&mut self.inner, &mut b);
        self.inner = b.set_metadata_utf8(metadata);
    }

    /// Sets the data to the bytes.
    pub fn set_data(&mut self, data: Vec<u8>)
        ensures
            final(self)@ == (PayloadView { data: Some(data@), ..old(self)@ }),
    {
        let mut b = Payload::builder();
        std::mem::swap(&mut self.inner, &mut b);
        self.inner = b.set_data(bytes_from_vec(data));
    }

    /// Sets the metadata to the bytes.
    pub fn set_metadata(&mut self, metadata: Vec<u8>)
        ensures
            final(self)@ == (PayloadView { metadata: Some(metadata@), ..old(self)@ }),
    {
        let mut b = Payload::builder();
        std::mem::swap(&mut self.inner, &mut b);
        self.inner = b.set_metadata(bytes_from_vec(metadata));
    }

    /// The payload built so far; the builder starts over empty.
    pub fn build(&mut self) -> (res: PyPayload)
        ensures
            res@ == old(self)@,
            final(self)@ == (PayloadView { data: None, metadata: None }),
    {
        let mut b = Payload::builder();
        std::mem::swap(&mut self.inner, &mut b);
        PyPayload { inner: b.build() }
    }
}

} // verus!

//! RSocket payloads: an optional data part and an optional metadata part,
//! each a byte buffer, and the builder that assembles them.

use vstd::prelude::*;
use vstd::utf8::*;
use vstd::string::*;
use vstd::slice::slice_to_vec;
use bytes::Bytes;
use crate::buffer::{bytes_content, bytes_copy_from_slice, bytes_clone, bytes_len, bytes_as_slice};
use crate::text::str_from_utf8;

verus! {

/// The bytes of an optional buffer.
pub open spec fn content_of(b: Option<Bytes>) -> Option<Seq<u8>> {
    match b {
        Some(x) => Some(bytes_content(x)),
        None => None,
    }
}

/// What a payload holds: its data and its metadata, each possibly absent.
pub struct PayloadView {
    pub data: Option<Seq<u8>>,
    pub metadata: Option<Seq<u8>>,
}

/// The text that a payload part reads as: `None` for an absent part or for
/// bytes that are not UTF-8, else the decoded characters.
pub open spec fn utf8_text(part: Option<Seq<u8>>) -> Option<Seq<char>> {
    match part {
        Some(b) => if valid_utf8(b) {
            Some(decode_utf8(b))
        } else {
            None
        },
        None => None,
    }
}

/// Length of an optional payload part, absent counting as zero.
pub open spec fn part_len(part: Option<Seq<u8>>) -> nat {
    match part {
        Some(b) => b.len(),
        None => 0,
    }
}

/// An RSocket payload.
pub struct Payload {
    data: Option<Bytes>,
    metadata: Option<Bytes>,
}

impl View for Payload {
    type V = PayloadView;

    closed spec fn view(&self) -> PayloadView {
        PayloadView { data: content_of(self.data), metadata: content_of(self.metadata) }
    }
}

/// Assembles a payload part by part.
pub struct PayloadBuilder {
    data: Option<Bytes>,
    metadata: Option<Bytes>,
}

impl View for PayloadBuilder {
    type V = PayloadView;

    closed spec fn view(&self) -> PayloadView {
        PayloadView { data: content_of(self.data), metadata: content_of(self.metadata) }
    }
}

/// A copy of an optional buffer handle.
fn clone_part(b: &Option<Bytes>) -> (res: Option<Bytes>)
    ensures
        content_of(res) == content_of(*b),
{
    match b {
        Some(x) => Some(bytes_clone(x)),
        None => None,
    }
}

/// Length of an optional buffer, absent counting as zero.
fn len_of_part(b: &Option<Bytes>) -> (n: usize)
    ensures
        n == part_len(content_of(*b)),
{
    match b {
        Some(x) => bytes_len(x),
        None => 0,
    }
}

/// The bytes of an optional buffer as a slice.
fn slice_of_part(b: &Option<Bytes>) -> (res: Option<&[u8]>)
    ensures
        match res {
            Some(s) => content_of(*b) == Some(s@),
            None => content_of(*b) is None,
        },
{
    match b {
        Some(x) => Some(bytes_as_slice(x)),
        None => None,
    }
}

/// The text of an optional buffer, when it is UTF-8.
fn text_of_part(b: &Option<Bytes>) -> (res: Option<&str>)
    ensures
        match res {
            Some(s) => utf8_text(content_of(*b)) == Some(s@),
            None => utf8_text(content_of(*b)) is None,
        },
{
    match b {
        Some(x) => str_from_utf8(bytes_as_slice(x)),
        None => None,
    }
}

impl PayloadBuilder {
    /// Sets the data part.
    pub fn set_data(self, data: Bytes) -> (res: PayloadBuilder)
        ensures
            res@ == (PayloadView { data: Some(bytes_content(data)), ..self@ }),
    {
        PayloadBuilder { data: Some(data), metadata: self.metadata }
    }

    /// Sets the metadata part.
    pub fn set_metadata(self, metadata: Bytes) -> (res: PayloadBuilder)
        ensures
            res@ == (PayloadView { metadata: Some(bytes_content(metadata)), ..self@ }),
    {
        PayloadBuilder { data: self.data, metadata: Some(metadata) }
    }

    /// Sets the data part to the UTF-8 encoding of `data`.
    pub fn set_data_utf8(self, data: &str) -> (res: PayloadBuilder)
        ensures
            res@ == (PayloadView { data: Some(encode_utf8(data@)), ..self@ }),
    {
        let b = bytes_copy_from_slice(data.as_bytes());
        self.set_data(b)
    }

    /// Sets the metadata part to the UTF-8 encoding of `metadata`.
    pub fn set_metadata_utf8(self, metadata: &str) -> (res: PayloadBuilder)
        ensures
            res@ == (PayloadView { metadata: Some(encode_utf8(metadata@)), ..self@ }),
    {
        let b = bytes_copy_from_slice(metadata.as_bytes());
        self.set_metadata(b)
    }

    /// The payload holding the parts set so far.
    pub fn build(self) -> (res: Payload)
        ensures
            res@ == self@,
    {
        Payload { data: self.data, metadata: self.metadata }
    }
}

impl Payload {
    /// A builder with neither part set.
    pub fn builder() -> (res: PayloadBuilder)
        ensures
            res@ == (PayloadView { data: None, metadata: None }),
    {
        PayloadBuilder { data: None, metadata: None }
    }

    /// A second payload holding the same parts.
    pub fn duplicate(&self) -> (res: Payload)
        ensures
            res@ == self@,
    {
        Payload { data: clone_part(&self.data), metadata: clone_part(&self.metadata) }
    }

    /// The data part.
    pub fn data(&self) -> (res: Option<&[u8]>)
        ensures
            match res {
                Some(s) => self@.data == Some(s@),
                None => self@.data is None,
            },
    {
        slice_of_part(&self.data)
    }

    /// The metadata part.
    pub fn metadata(&self) -> (res: Option<&[u8]>)
        ensures
            match res {
                Some(s) => self@.metadata == Some(s@),
                None => self@.metadata is None,
            },
    {
        slice_of_part(&self.metadata)
    }

    /// Length of the data part, zero when absent.
    pub fn data_len(&self) -> (n: usize)
        ensures
            n == part_len(self@.data),
    {
        len_of_part(&self.data)
    }

    /// Length of the metadata part, zero when absent.
    pub fn metadata_len(&self) -> (n: usize)
        ensures
            n == part_len(self@.metadata),
    {
        len_of_part(&self.metadata)
    }

    /// The data part as text, when present and valid UTF-8.
    pub fn data_utf8(&self) -> (res: Option<&str>)
        ensures
            match res {
                Some(s) => utf8_text(self@.data) == Some(s@),
                None => utf8_text(self@.data) is None,
            },
    {
        text_of_part(&self.data)
    }

    /// The metadata part as text, when present and valid UTF-8.
    pub fn metadata_utf8(&self) -> (res: Option<&str>)
        ensures
            match res {
                Some(s) => utf8_text(self@.metadata) == Some(s@),
                None => utf8_text(self@.metadata) is None,
            },
    {
        text_of_part(&self.metadata)
    }

    /// A fresh copy of the data part's bytes.
    pub fn data_to_vec(&self) -> (res: Option<Vec<u8>>)
        ensures
            match res {
                Some(v) => self@.data == Some(v@),
                None => self@.data is None,
            },
    {
        match self.data() {
            Some(s) => Some(slice_to_vec(s)),
            None => None,
        }
    }

    /// A fresh copy of the metadata part's bytes.
    pub fn metadata_to_vec(&self) -> (res: Option<Vec<u8>>)
        ensures
            match res {
                Some(v) => self@.metadata == Some(v@),
                None => self@.metadata is None,
            },
    {
        match self.metadata() {
            Some(s) => Some(slice_to_vec(s)),
            None => None,
        }
    }
}

/// Text stored with `set_data_utf8` or `set_metadata_utf8` reads back
/// unchanged with `data_utf8` or `metadata_utf8`.
pub proof fn law_utf8_part_round_trip(text: Seq<char>)
    ensures
        utf8_text(Some(encode_utf8(text))) == Some(text),
{
    encode_utf8_valid_utf8(text);
    encode_utf8_decode_utf8(text);
}

} // verus!

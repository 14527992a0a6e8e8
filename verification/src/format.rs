//! Formats: codecs between typed values and bytes, each known by a content
//! type, and the choice of one of them for a call or a connection.

use crate::text::same_text;
use vstd::prelude::*;

verus! {

/// Information on a particular format
#[derive(Debug, Clone, Copy, PartialEq, Eq)]
pub struct FormatInfo {
    /// The MIME type for this format
    pub http_content_type: &'static str,
}

/// A format which is able to deserialise `Read` and serialise `Write`
pub trait Format<Read, Write> {
    /// The content type by which the format is negotiated
    fn content_type(&self) -> (name: &'static str);

    /// Read a value from the given bytes
    fn read(&self, bytes: &[u8]) -> (value: Result<Read, String>);

    /// Write the given value as bytes
    fn write(&self, value: Write) -> (bytes: Result<Vec<u8>, String>);
}

/// A format which is able to deserialise `Readable` and serialise
/// `Writeable`, for use where formats of several kinds are kept together
pub trait DynFormat<Readable, Writeable> {
    /// Read a value from the given bytes
    fn read(&self, bytes: &[u8]) -> (value: Result<Readable, String>);

    /// Write the given value as bytes
    fn write(&self, value: Writeable) -> (bytes: Result<Vec<u8>, String>);

    /// Returns info related to this format
    fn info(&self) -> (info: FormatInfo);
}

impl<F, Readable, Writeable> DynFormat<Readable, Writeable> for F where
    F: Format<Readable, Writeable>,
 {
    /// What the format itself reads from these bytes.
    fn read(&self, bytes: &[u8]) -> (value: Result<Readable, String>)
        ensures
            call_ensures(<F as Format<Readable, Writeable>>::read, (self, bytes), value),
    {
        Format::<Readable, Writeable>::read(self, bytes)
    }

    /// What the format itself writes for this value.
    fn write(&self, value: Writeable) -> (bytes: Result<Vec<u8>, String>)
        ensures
            call_ensures(<F as Format<Readable, Writeable>>::write, (self, value), bytes),
    {
        Format::<Readable, Writeable>::write(self, value)
    }

    /// The format's own content type.
    fn info(&self) -> (info: FormatInfo)
        ensures
            call_ensures(
                <F as Format<Readable, Writeable>>::content_type,
                (self,),
                info.http_content_type,
            ),
    {
        FormatInfo { http_content_type: Format::<Readable, Writeable>::content_type(self) }
    }
}

/// The content type of JSON
pub open spec fn json_content_type() -> Seq<char> {
    seq![
        'a', 'p', 'p', 'l', 'i', 'c', 'a', 't', 'i', 'o', 'n', '/', 'j', 's', 'o', 'n',
    ]
}

/// The content type of CBOR
pub open spec fn cbor_content_type() -> Seq<char> {
    seq![
        'a', 'p', 'p', 'l', 'i', 'c', 'a', 't', 'i', 'o', 'n', '/', 'c', 'b', 'o', 'r',
    ]
}

/// [JavaScript Object Notation](https://www.json.org/)
#[derive(Debug, Clone, Copy, PartialEq, Eq)]
pub struct Json;

/// [Concise Binary Object Representation](https://cbor.io/)
#[derive(Debug, Clone, Copy, PartialEq, Eq)]
pub struct Cbor;

/// [JavaScript Object Notation](https://www.json.org/), as the browser reads and writes it
#[derive(Debug, Clone, Copy, PartialEq, Eq)]
pub struct BrowserJson;

impl Json {
    /// The content type under which the format is negotiated
    pub fn content_type(&self) -> (name: &'static str)
        ensures
            name@ == json_content_type(),
    {
        proof {
            reveal_strlit("application/json");
        }
        let name = "application/json";
        assert(name@ =~= json_content_type());
        name
    }

    /// Information on the format
    pub fn info(&self) -> (info: FormatInfo)
        ensures
            info.http_content_type@ == json_content_type(),
    {
        FormatInfo { http_content_type: self.content_type() }
    }
}

impl Cbor {
    /// The content type under which the format is negotiated
    pub fn content_type(&self) -> (name: &'static str)
        ensures
            name@ == cbor_content_type(),
    {
        proof {
            reveal_strlit("application/cbor");
        }
        let name = "application/cbor";
        assert(name@ =~= cbor_content_type());
        name
    }

    /// Information on the format
    pub fn info(&self) -> (info: FormatInfo)
        ensures
            info.http_content_type@ == cbor_content_type(),
    {
        FormatInfo { http_content_type: self.content_type() }
    }
}

impl BrowserJson {
    /// The content type under which the format is negotiated
    pub fn content_type(&self) -> (name: &'static str)
        ensures
            name@ == json_content_type(),
    {
        Json.content_type()
    }

    /// Information on the format
    pub fn info(&self) -> (info: FormatInfo)
        ensures
            info.http_content_type@ == json_content_type(),
    {
        FormatInfo { http_content_type: self.content_type() }
    }
}

/// Whether one of the formats before `upto` has the given content type.
pub open spec fn offers(formats: Seq<FormatInfo>, content_type: Seq<char>, upto: int) -> bool {
    exists|i: int| 0 <= i < upto && (#[trigger] formats[i]).http_content_type@ == content_type
}

/// Chooses the format for a request by its content type: the first of the
/// supported formats with that content type. Where none has it, the request
/// is to be rejected as of an unsupported media type.
pub fn negotiate(supported: &Vec<FormatInfo>, content_type: &str) -> (chosen: Option<usize>)
    ensures
        match chosen {
            Some(i) => i < supported@.len() && supported@[i as int].http_content_type@
                == content_type@ && !offers(supported@, content_type@, i as int),
            None => !offers(supported@, content_type@, supported@.len() as int),
        },
{
    let mut i: usize = 0;
    while i < supported.len()
        invariant
            i <= supported@.len(),
            !offers(supported@, content_type@, i as int),
        decreases supported@.len() - i,
    {
        if same_text(supported[i].http_content_type, content_type) {
            return Some(i);
        }
        i += 1;
    }
    None
}

/// Whether one of the content types before `upto` is the given one.
pub open spec fn lists(offered: Seq<String>, content_type: Seq<char>, upto: int) -> bool {
    exists|i: int| 0 <= i < upto && (#[trigger] offered[i])@ == content_type
}

/// Whether one of the formats before `upto` is among the content types offered.
pub open spec fn agreeable(supported: Seq<FormatInfo>, offered: Seq<String>, upto: int) -> bool {
    exists|i: int|
        0 <= i < upto && lists(
            offered,
            (#[trigger] supported[i]).http_content_type@,
            offered.len() as int,
        )
}

/// Whether the content type is among those offered.
pub fn is_offered(offered: &Vec<String>, content_type: &str) -> (listed: bool)
    ensures
        listed == lists(offered@, content_type@, offered@.len() as int),
{
    let mut i: usize = 0;
    while i < offered.len()
        invariant
            i <= offered@.len(),
            !lists(offered@, content_type@, i as int),
        decreases offered@.len() - i,
    {
        if same_text(offered[i].as_str(), content_type) {
            return true;
        }
        i += 1;
    }
    false
}

/// Chooses the one format of a persistent connection: the first of the
/// supported formats, in their order of preference, that the other side
/// offers. Where there is none, the connection cannot be established.
pub fn agree(supported: &Vec<FormatInfo>, offered: &Vec<String>) -> (chosen: Option<usize>)
    ensures
        match chosen {
            Some(i) => i < supported@.len() && lists(
                offered@,
                supported@[i as int].http_content_type@,
                offered@.len() as int,
            ) && !agreeable(supported@, offered@, i as int),
            None => !agreeable(supported@, offered@, supported@.len() as int),
        },
{
    let mut i: usize = 0;
    while i < supported.len()
        invariant
            i <= supported@.len(),
            !agreeable(supported@, offered@, i as int),
        decreases supported@.len() - i,
    {
        if is_offered(offered, supported[i].http_content_type) {
            return Some(i);
        }
        i += 1;
    }
    None
}

} // verus!

use vstd::prelude::*;

use crate::mime::classify_spec;
use crate::mime::MimeType;
use vstd::utf8::encode_utf8;

verus! {

/// Read surface shared by every blob-like value: the byte size and the
/// classified content type that the host reports for it. Reading either
/// is pure and idempotent.
pub trait Blob {
    /// The byte size the host reports for this blob.
    spec fn spec_size(&self) -> nat;

    /// The content-type string the host reports for this blob.
    spec fn spec_mime(&self) -> Seq<char>;

    /// The blob's size in bytes.
    fn size(&self) -> (r: usize)
        ensures
            r as nat == self.spec_size(),
    ;

    /// The blob's declared content type, classified: `ApplicationJson`
    /// if and only if the host-reported string is exactly
    /// `"application/json"`.
    fn mime_type(&self) -> (r: MimeType)
        ensures
            r == classify_spec(self.spec_mime()),
    ;
}

/// A handle to one host file: the byte size and content-type string
/// captured from the host file object it stands for.
pub struct File {
    size: usize,
    mime: String,
}

impl File {
    /// Wraps the size and content-type string reported by a host file
    /// object.
    pub fn new(size: usize, mime: String) -> (f: File)
        ensures
            f.spec_size() == size as nat,
            f.spec_mime() == mime@,
    {
        File { size, mime }
    }
}

impl Clone for File {
    /// The copy reports the same size and content type as the original.
    fn clone(&self) -> (r: Self)
        ensures
            r == *self,
    {
        File { size: self.size, mime: self.mime.clone() }
    }
}

impl Blob for File {
    closed spec fn spec_size(&self) -> nat {
        self.size as nat
    }

    closed spec fn spec_mime(&self) -> Seq<char> {
        self.mime@
    }

    fn size(&self) -> (r: usize) {
        self.size
    }

    fn mime_type(&self) -> (r: MimeType) {
        MimeType::classify(&self.mime)
    }
}

/// An in-memory blob built from a UTF-8 string. Unlike a file handle it
/// owns its content, so the text the host would deliver for it is known
/// at construction time.
pub struct DataBlob {
    content: String,
    mime: String,
}

impl DataBlob {
    /// The text the blob was built from.
    pub closed spec fn spec_content(&self) -> Seq<char> {
        self.content@
    }

    /// Builds a blob holding `content`. The host allocates storage for
    /// it and reports an empty content-type string.
    pub fn new(content: &str) -> (b: DataBlob)
        ensures
            b.spec_content() == content@,
            b.spec_mime() == Seq::<char>::empty(),
            b.spec_size() == encode_utf8(content@).len(),
    {
        DataBlob { content: content.to_owned(), mime: String::new() }
    }

    /// Builds a blob holding `content` whose declared content type is
    /// `mime`, as when the host blob constructor is handed an explicit
    /// content-type option.
    pub fn new_with_mime(content: &str, mime: String) -> (b: DataBlob)
        ensures
            b.spec_content() == content@,
            b.spec_mime() == mime@,
            b.spec_size() == encode_utf8(content@).len(),
    {
        DataBlob { content: content.to_owned(), mime }
    }

    /// The blob's content, exactly the text a host read-as-text call
    /// would deliver for it.
    pub fn content(&self) -> (r: &str)
        ensures
            r@ == self.spec_content(),
    {
        self.content.as_str()
    }
}

impl Blob for DataBlob {
    /// The size the host reports for a blob built from a string: the
    /// byte length of the string under UTF-8 encoding.
    closed spec fn spec_size(&self) -> nat {
        encode_utf8(self.content@).len()
    }

    closed spec fn spec_mime(&self) -> Seq<char> {
        self.mime@
    }

    fn size(&self) -> (r: usize) {
        self.content.as_str().as_bytes().len()
    }

    fn mime_type(&self) -> (r: MimeType) {
        MimeType::classify(&self.mime)
    }
}

} // verus!

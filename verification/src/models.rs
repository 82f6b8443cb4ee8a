//! The typed values the library returns to callers: resources decoded
//! from successful responses, and the single classified error value that
//! every failing path collapses into.

use vstd::prelude::*;
use vstd::string::StrSliceExecFns;
use vstd::string::StringExecFns;

use crate::text;

verus! {

/// Response wrapper: the service answers `{"data": ...}` on success and
/// on failure alike; this mirrors that envelope.
#[derive(Debug)]
pub struct Data<T> {
    /// The payload under the envelope's single field.
    pub data: T,
}

/// A single image, decoded from a success envelope.
#[derive(Debug, Clone)]
pub struct Image {
    /// Image identifier.
    pub id: String,
    /// Image title; the empty string where the service sent `null`.
    pub title: String,
    /// Image description; the empty string where the service sent `null`.
    pub description: String,
    /// Creation timestamp, seconds.
    pub datetime: u64,
    /// MIME type (the wire field named `type`).
    pub mime: String,
    /// Direct content URL.
    pub link: String,
}

/// A named, ordered collection of images, decoded from a success envelope.
#[derive(Debug)]
pub struct Album {
    /// Album identifier.
    pub id: String,
    /// Album title; the empty string where the service sent `null`.
    pub title: String,
    /// Album description; the empty string where the service sent `null`.
    pub description: String,
    /// Creation timestamp, seconds.
    pub datetime: u64,
    /// The album's images, in the order the service returned them.
    pub images: Vec<Image>,
}

/// The error payload the service places under `"data"` on a failure status.
#[derive(Debug)]
pub struct ImgurError {
    /// Upstream error message.
    pub error: String,
    /// Request path that failed.
    pub request: String,
    /// HTTP method of the failed request.
    pub method: String,
}

/// Which failing path produced a [`ClassifiedError`].
#[derive(Debug, Clone, Copy, PartialEq, Eq, Structural)]
pub enum ErrorKind {
    /// Failure status with a well-formed error body.
    ApiError,
    /// Success status, but the body did not match the success envelope.
    MalformedSuccessBody,
    /// Failure status whose error body itself could not be decoded.
    MalformedErrorBody,
    /// The request could not be completed at all.
    TransportFailure,
    /// Copying downloaded content into the caller's sink failed.
    SinkWriteFailure,
}

/// The one error type surfaced to callers: every failing response,
/// transport fault or decode fault becomes exactly one of these.
#[derive(Debug)]
pub struct ClassifiedError {
    /// Which failing path produced this error.
    pub kind: ErrorKind,
    /// The HTTP status code, where one was observed.
    pub status: Option<u16>,
    /// Upstream message, or a description of the local fault.
    pub message: String,
    /// Request path reported by the service, where its error body had one.
    pub request: String,
    /// HTTP method reported by the service, where its error body had one.
    pub method: String,
}

/// Mathematical model of a [`ClassifiedError`].
pub ghost struct ClassifiedErrorV {
    pub kind: ErrorKind,
    pub status: Option<u16>,
    pub message: Seq<char>,
    pub request: Seq<char>,
    pub method: Seq<char>,
}

impl View for ClassifiedError {
    type V = ClassifiedErrorV;

    open spec fn view(&self) -> ClassifiedErrorV {
        ClassifiedErrorV {
            kind: self.kind,
            status: self.status,
            message: self.message@,
            request: self.request@,
            method: self.method@,
        }
    }
}

/// The one-line report of a classified error: the status code where one
/// was observed, the message, and the failing request path.
pub open spec fn spec_describe(e: ClassifiedErrorV) -> Seq<char> {
    match e.status {
        Some(code) => text::dec_rep(code as nat) + ": "@ + e.message + " ("@ + e.request + ")"@,
        None => e.message,
    }
}

impl ClassifiedError {
    /// A failure status whose error body was read: carries all three of
    /// the payload's fields.
    pub fn api_error(status: u16, payload: ImgurError) -> (r: ClassifiedError)
        ensures
            r@.kind == ErrorKind::ApiError,
            r@.status == Some(status),
            r@.message == payload@.error,
            r@.request == payload@.request,
            r@.method == payload@.method,
    {
        ClassifiedError {
            kind: ErrorKind::ApiError,
            status: Some(status),
            message: payload.error,
            request: payload.request,
            method: payload.method,
        }
    }

    /// A success status whose body did not match the success envelope.
    pub fn malformed_success_body(status: u16) -> (r: ClassifiedError)
        ensures
            r@.kind == ErrorKind::MalformedSuccessBody,
            r@.status == Some(status),
            r@.message == "success body unreadable"@,
            r@.request == Seq::<char>::empty(),
            r@.method == Seq::<char>::empty(),
    {
        ClassifiedError {
            kind: ErrorKind::MalformedSuccessBody,
            status: Some(status),
            message: "success body unreadable".to_owned(),
            request: String::new(),
            method: String::new(),
        }
    }

    /// A failure status whose error body itself could not be read:
    /// degrades to status-code-only reporting.
    pub fn malformed_error_body(status: u16) -> (r: ClassifiedError)
        ensures
            r@.kind == ErrorKind::MalformedErrorBody,
            r@.status == Some(status),
            r@.message == "error body unreadable"@,
            r@.request == Seq::<char>::empty(),
            r@.method == Seq::<char>::empty(),
    {
        ClassifiedError {
            kind: ErrorKind::MalformedErrorBody,
            status: Some(status),
            message: "error body unreadable".to_owned(),
            request: String::new(),
            method: String::new(),
        }
    }

    /// A request that could not be completed at all; no status code was
    /// observed.
    pub fn transport_failure(description: String) -> (r: ClassifiedError)
        ensures
            r@.kind == ErrorKind::TransportFailure,
            r@.status is None,
            r@.message == description@,
            r@.request == Seq::<char>::empty(),
            r@.method == Seq::<char>::empty(),
    {
        ClassifiedError {
            kind: ErrorKind::TransportFailure,
            status: None,
            message: description,
            request: String::new(),
            method: String::new(),
        }
    }

    /// A download whose copy into the caller's sink failed partway.
    pub fn sink_write_failure(description: String) -> (r: ClassifiedError)
        ensures
            r@.kind == ErrorKind::SinkWriteFailure,
            r@.status is None,
            r@.message == description@,
            r@.request == Seq::<char>::empty(),
            r@.method == Seq::<char>::empty(),
    {
        ClassifiedError {
            kind: ErrorKind::SinkWriteFailure,
            status: None,
            message: description,
            request: String::new(),
            method: String::new(),
        }
    }

    /// Renders the error as one human-readable line.
    pub fn describe(&self) -> (r: String)
        ensures
            r@ == spec_describe(self@),
    {
        match self.status {
            Some(code) => {
                let mut s = text::dec_string(code);
                s.append(": ");
                s.append(self.message.as_str());
                s.append(" (");
                s.append(self.request.as_str());
                s.append(")");
                proof {
                    assert(s@ =~= spec_describe(self@));
                }
                s
            },
            None => self.message.clone(),
        }
    }
}

/// Mathematical model of an [`Image`].
pub ghost struct ImageV {
    pub id: Seq<char>,
    pub title: Seq<char>,
    pub description: Seq<char>,
    pub datetime: u64,
    pub mime: Seq<char>,
    pub link: Seq<char>,
}

/// Mathematical model of an [`Album`].
pub ghost struct AlbumV {
    pub id: Seq<char>,
    pub title: Seq<char>,
    pub description: Seq<char>,
    pub datetime: u64,
    pub images: Seq<ImageV>,
}

/// Mathematical model of an [`ImgurError`].
pub ghost struct ImgurErrorV {
    pub error: Seq<char>,
    pub request: Seq<char>,
    pub method: Seq<char>,
}

impl View for Image {
    type V = ImageV;

    open spec fn view(&self) -> ImageV {
        ImageV {
            id: self.id@,
            title: self.title@,
            description: self.description@,
            datetime: self.datetime,
            mime: self.mime@,
            link: self.link@,
        }
    }
}

impl View for Album {
    type V = AlbumV;

    open spec fn view(&self) -> AlbumV {
        AlbumV {
            id: self.id@,
            title: self.title@,
            description: self.description@,
            datetime: self.datetime,
            images: Seq::new(self.images@.len(), |i: int| self.images@[i]@),
        }
    }
}

impl View for ImgurError {
    type V = ImgurErrorV;

    open spec fn view(&self) -> ImgurErrorV {
        ImgurErrorV { error: self.error@, request: self.request@, method: self.method@ }
    }
}

/// The suffix of `s` after its last `/`; `s` itself when it has none.
pub open spec fn after_last_slash(s: Seq<char>) -> Seq<char>
    decreases s.len(),
{
    if s.len() == 0 {
        s
    } else if s.last() == '/' {
        Seq::empty()
    } else {
        after_last_slash(s.drop_last()).push(s.last())
    }
}

/// A type carrying a downloadable file: a content URL and the file name
/// under which the content would naturally be stored.
pub trait ProvidesFile {
    /// The content URL, as a sequence of characters.
    spec fn spec_url(&self) -> Seq<char>;

    /// Get the download url from the type.
    fn get_url(&self) -> (r: &str)
        ensures
            r@ == self.spec_url(),
    ;

    /// Get the filename from the type: the part of the URL after its
    /// last path separator.
    fn filename(&self) -> (r: &str)
        ensures
            r@ == after_last_slash(self.spec_url()),
    ;
}

/// Dropping characters from the front of a sequence that contains no `/`
/// in the dropped part does not change the suffix after the last `/`.
proof fn lemma_after_last_slash_suffix(s: Seq<char>, k: int)
    requires
        0 <= k <= s.len(),
        forall|j: int| k <= j < s.len() ==> s[j] != '/',
        k == 0 || s[k - 1] == '/',
    ensures
        after_last_slash(s) == s.subrange(k, s.len() as int),
    decreases s.len() - k,
{
    if k == s.len() {
        if s.len() == 0 {
            assert(after_last_slash(s) =~= s.subrange(k, s.len() as int));
        } else {
            assert(s.last() == '/');
            assert(after_last_slash(s) =~= s.subrange(k, s.len() as int));
        }
    } else {
        lemma_after_last_slash_suffix(s.drop_last(), k);
        assert(s.drop_last().subrange(k, s.drop_last().len() as int).push(s.last()) =~= s.subrange(
            k,
            s.len() as int,
        ));
    }
}

impl ProvidesFile for Image {
    open spec fn spec_url(&self) -> Seq<char> {
        self.link@
    }

    fn get_url(&self) -> (r: &str)
        ensures
            r@ == self.spec_url(),
    {
        self.link.as_str()
    }

    fn filename(&self) -> (r: &str)
        ensures
            r@ == after_last_slash(self.spec_url()),
    {
        let s = self.link.as_str();
        let n = s.unicode_len();
        let mut k: usize = n;
        let mut found = false;
        while k > 0 && !found
            invariant
                n == s@.len(),
                k <= n,
                forall|j: int| k <= j < n ==> s@[j] != '/',
                found ==> k > 0 && s@[k - 1] == '/',
            decreases k + (if found { 0int } else { 1int }),
        {
            if s.get_char(k - 1) == '/' {
                found = true;
            } else {
                k = k - 1;
            }
        }
        proof {
            lemma_after_last_slash_suffix(s@, k as int);
        }
        s.substring_char(k, n)
    }
}

} // verus!

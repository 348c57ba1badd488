//! What a finished upload request is answered with.
use vstd::prelude::*;
use vstd::string::*;
use crate::decimal::{numeral, render};
use crate::error::{UploadError, STATUS_OK};

verus! {

/// The names under which the file parts of one request were stored, in the
/// order in which the parts arrived.
pub struct UploadResult {
    saved_names: Vec<String>,
}

impl View for UploadResult {
    type V = Seq<Seq<char>>;

    closed spec fn view(&self) -> Seq<Seq<char>> {
        Seq::new(self.saved_names@.len(), |i: int| self.saved_names@[i]@)
    }
}

impl UploadResult {
    /// The result of a request before any part was stored.
    pub fn new() -> (result: UploadResult)
        ensures
            result@ == Seq::<Seq<char>>::empty(),
    {
        let result = UploadResult { saved_names: Vec::new() };
        assert(result@ =~= Seq::<Seq<char>>::empty());
        result
    }

    /// Appends `name` as the most recently stored file.
    pub fn record(&mut self, name: String)
        ensures
            final(self)@ == old(self)@.push(name@),
    {
        self.saved_names.push(name);
        assert(self@ =~= old(self)@.push(name@));
    }

    /// How many files were stored.
    pub fn count(&self) -> (n: usize)
        ensures
            n == self@.len(),
    {
        self.saved_names.len()
    }

    /// The name of the `i`-th stored file, counting from zero, if there are
    /// that many.
    pub fn name(&self, i: usize) -> (name: Option<&String>)
        ensures
            match name {
                Some(n) => i < self@.len() && n@ == self@[i as int],
                None => i >= self@.len(),
            },
    {
        if i < self.saved_names.len() {
            Some(&self.saved_names[i])
        } else {
            None
        }
    }

    /// The name of the first stored file, if any file was stored.
    pub fn first(&self) -> (name: Option<&String>)
        ensures
            match name {
                Some(n) => self@.len() > 0 && n@ == self@[0],
                None => self@.len() == 0,
            },
    {
        self.name(0)
    }

    /// The stored names, in order.
    pub fn saved_names(&self) -> (names: &Vec<String>)
        ensures
            names@.len() == self@.len(),
            forall|i: int| 0 <= i < names@.len() ==> (#[trigger] names@[i])@ == self@[i],
    {
        &self.saved_names
    }
}

/// A response: an HTTP status and a short human-readable text.
#[derive(Clone, Debug, PartialEq, Eq)]
pub struct Reply {
    pub status: u16,
    pub body: String,
}

/// A [`Reply`] as a mathematical value.
pub struct ReplyView {
    pub status: u16,
    pub body: Seq<char>,
}

impl View for Reply {
    type V = ReplyView;

    open spec fn view(&self) -> ReplyView {
        ReplyView { status: self.status, body: self.body@ }
    }
}

/// The confirmation for a request that stored the files `saved`: their count
/// and, when there is one, the name of the first.
pub open spec fn success_text(saved: Seq<Seq<char>>) -> Seq<char> {
    let head = "Saved "@ + numeral(saved.len()) + " file(s)"@;
    if saved.len() == 0 {
        head
    } else {
        head + "; first: "@ + saved[0]
    }
}

/// The text that reports the error `e`.
pub open spec fn failure_text(e: UploadError) -> Seq<char> {
    match e {
        UploadError::TooLarge => "Payload too large"@,
        UploadError::LengthRequired => "Length required"@,
        UploadError::MissingBoundary => "Missing multipart boundary"@,
        UploadError::Decode => "Malformed multipart body"@,
        UploadError::Io => "Failed to store file"@,
        UploadError::OutOfOrder => "Upload aborted"@,
    }
}

/// The reply to a request that completed after storing `saved`.
pub open spec fn success_reply(saved: Seq<Seq<char>>) -> ReplyView {
    ReplyView { status: STATUS_OK, body: success_text(saved) }
}

/// The reply to a request that failed with `e`.
pub open spec fn failure_reply(e: UploadError) -> ReplyView {
    ReplyView { status: e.spec_status(), body: failure_text(e) }
}

impl Reply {
    /// Builds the confirmation for a completed request.
    pub fn success(result: &UploadResult) -> (reply: Reply)
        ensures
            reply@ == success_reply(result@),
    {
        let n = result.count();
        let mut body = String::from_str("Saved ");
        let count = render(n as u64);
        body.append(count.as_str());
        body.append(" file(s)");
        match result.first() {
            Some(name) => {
                body.append("; first: ");
                body.append(name.as_str());
            },
            None => {},
        }
        assert(body@ =~= success_text(result@));
        Reply { status: STATUS_OK, body }
    }

    /// Builds the reply that reports `e`.
    pub fn failure(e: UploadError) -> (reply: Reply)
        ensures
            reply@ == failure_reply(e),
    {
        let text = match e {
            UploadError::TooLarge => "Payload too large",
            UploadError::LengthRequired => "Length required",
            UploadError::MissingBoundary => "Missing multipart boundary",
            UploadError::Decode => "Malformed multipart body",
            UploadError::Io => "Failed to store file",
            UploadError::OutOfOrder => "Upload aborted",
        };
        Reply { status: e.status(), body: String::from_str(text) }
    }

    /// Whether this reply reports success.
    pub fn is_success(&self) -> (ok: bool)
        ensures
            ok == (self@.status == STATUS_OK),
    {
        self.status == STATUS_OK
    }
}

/// Only a completed request is answered with the success status: every
/// failure reply carries a client or server error status.
pub proof fn failure_is_never_success(e: UploadError)
    ensures
        failure_reply(e).status != STATUS_OK,
        400 <= failure_reply(e).status < 600,
{
}

} // verus!

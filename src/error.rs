//! The protocol's error model: error codes, their transport status, and the
//! error value that a server handler returns.
use vstd::prelude::*;

verus! {

/// The error codes of the protocol.
#[derive(Debug, PartialEq, Eq, Structural, Clone, Copy)]
pub enum ErrorCode {
    Canceled,
    Unknown,
    InvalidArgument,
    Malformed,
    DeadlineExceeded,
    NotFound,
    BadRoute,
    AlreadyExists,
    PermissionDenied,
    Unauthenticated,
    ResourceExhausted,
    FailedPrecondition,
    Aborted,
    OutOfRange,
    Unimplemented,
    Internal,
    Unavailable,
    DataLoss,
}

/// The transport status that goes with each code.
pub open spec fn status_of(code: ErrorCode) -> u16 {
    match code {
        ErrorCode::Canceled => 408,
        ErrorCode::Unknown => 500,
        ErrorCode::InvalidArgument => 400,
        ErrorCode::Malformed => 400,
        ErrorCode::DeadlineExceeded => 408,
        ErrorCode::NotFound => 404,
        ErrorCode::BadRoute => 404,
        ErrorCode::AlreadyExists => 409,
        ErrorCode::PermissionDenied => 403,
        ErrorCode::Unauthenticated => 401,
        ErrorCode::ResourceExhausted => 429,
        ErrorCode::FailedPrecondition => 412,
        ErrorCode::Aborted => 409,
        ErrorCode::OutOfRange => 400,
        ErrorCode::Unimplemented => 501,
        ErrorCode::Internal => 500,
        ErrorCode::Unavailable => 503,
        ErrorCode::DataLoss => 500,
    }
}

/// The name of each code in the error envelope.
pub open spec fn code_text(code: ErrorCode) -> Seq<char> {
    match code {
        ErrorCode::Canceled => "canceled"@,
        ErrorCode::Unknown => "unknown"@,
        ErrorCode::InvalidArgument => "invalid_argument"@,
        ErrorCode::Malformed => "malformed"@,
        ErrorCode::DeadlineExceeded => "deadline_exceeded"@,
        ErrorCode::NotFound => "not_found"@,
        ErrorCode::BadRoute => "bad_route"@,
        ErrorCode::AlreadyExists => "already_exists"@,
        ErrorCode::PermissionDenied => "permission_denied"@,
        ErrorCode::Unauthenticated => "unauthenticated"@,
        ErrorCode::ResourceExhausted => "resource_exhausted"@,
        ErrorCode::FailedPrecondition => "failed_precondition"@,
        ErrorCode::Aborted => "aborted"@,
        ErrorCode::OutOfRange => "out_of_range"@,
        ErrorCode::Unimplemented => "unimplemented"@,
        ErrorCode::Internal => "internal"@,
        ErrorCode::Unavailable => "unavailable"@,
        ErrorCode::DataLoss => "dataloss"@,
    }
}

impl ErrorCode {
    /// The transport status for this code.
    pub fn http_status(&self) -> (r: u16)
        ensures
            r == status_of(*self),
    {
        match self {
            ErrorCode::Canceled => 408,
            ErrorCode::Unknown => 500,
            ErrorCode::InvalidArgument => 400,
            ErrorCode::Malformed => 400,
            ErrorCode::DeadlineExceeded => 408,
            ErrorCode::NotFound => 404,
            ErrorCode::BadRoute => 404,
            ErrorCode::AlreadyExists => 409,
            ErrorCode::PermissionDenied => 403,
            ErrorCode::Unauthenticated => 401,
            ErrorCode::ResourceExhausted => 429,
            ErrorCode::FailedPrecondition => 412,
            ErrorCode::Aborted => 409,
            ErrorCode::OutOfRange => 400,
            ErrorCode::Unimplemented => 501,
            ErrorCode::Internal => 500,
            ErrorCode::Unavailable => 503,
            ErrorCode::DataLoss => 500,
        }
    }

    /// The code's name in the error envelope.
    pub fn as_str(&self) -> (r: &'static str)
        ensures
            r@ == code_text(*self),
    {
        match self {
            ErrorCode::Canceled => "canceled",
            ErrorCode::Unknown => "unknown",
            ErrorCode::InvalidArgument => "invalid_argument",
            ErrorCode::Malformed => "malformed",
            ErrorCode::DeadlineExceeded => "deadline_exceeded",
            ErrorCode::NotFound => "not_found",
            ErrorCode::BadRoute => "bad_route",
            ErrorCode::AlreadyExists => "already_exists",
            ErrorCode::PermissionDenied => "permission_denied",
            ErrorCode::Unauthenticated => "unauthenticated",
            ErrorCode::ResourceExhausted => "resource_exhausted",
            ErrorCode::FailedPrecondition => "failed_precondition",
            ErrorCode::Aborted => "aborted",
            ErrorCode::OutOfRange => "out_of_range",
            ErrorCode::Unimplemented => "unimplemented",
            ErrorCode::Internal => "internal",
            ErrorCode::Unavailable => "unavailable",
            ErrorCode::DataLoss => "dataloss",
        }
    }

    /// The code whose envelope name is `text`, if any.
    pub fn from_text(text: &String) -> (r: Option<ErrorCode>)
        ensures
            r matches Some(c) ==> code_text(c) == text@,
            r is None ==> forall|c: ErrorCode| code_text(c) != text@,
    {
        if text_is(text, "canceled") {
            Some(ErrorCode::Canceled)
        } else if text_is(text, "unknown") {
            Some(ErrorCode::Unknown)
        } else if text_is(text, "invalid_argument") {
            Some(ErrorCode::InvalidArgument)
        } else if text_is(text, "malformed") {
            Some(ErrorCode::Malformed)
        } else if text_is(text, "deadline_exceeded") {
            Some(ErrorCode::DeadlineExceeded)
        } else if text_is(text, "not_found") {
            Some(ErrorCode::NotFound)
        } else if text_is(text, "bad_route") {
            Some(ErrorCode::BadRoute)
        } else if text_is(text, "already_exists") {
            Some(ErrorCode::AlreadyExists)
        } else if text_is(text, "permission_denied") {
            Some(ErrorCode::PermissionDenied)
        } else if text_is(text, "unauthenticated") {
            Some(ErrorCode::Unauthenticated)
        } else if text_is(text, "resource_exhausted") {
            Some(ErrorCode::ResourceExhausted)
        } else if text_is(text, "failed_precondition") {
            Some(ErrorCode::FailedPrecondition)
        } else if text_is(text, "aborted") {
            Some(ErrorCode::Aborted)
        } else if text_is(text, "out_of_range") {
            Some(ErrorCode::OutOfRange)
        } else if text_is(text, "unimplemented") {
            Some(ErrorCode::Unimplemented)
        } else if text_is(text, "internal") {
            Some(ErrorCode::Internal)
        } else if text_is(text, "unavailable") {
            Some(ErrorCode::Unavailable)
        } else if text_is(text, "dataloss") {
            Some(ErrorCode::DataLoss)
        } else {
            None
        }
    }
}

fn text_is(text: &String, name: &str) -> (r: bool)
    ensures
        r == (text@ == name@),
{
    *text == name.to_owned()
}

/// The error a server handler returns, sent to the client as the envelope
/// `{ "code": ..., "msg": ..., "meta": { ... } }`.
#[derive(Debug, Clone)]
pub struct ServerError {
    pub code: ErrorCode,
    pub msg: String,
    /// Metadata entries, at most one per key.
    pub meta: Vec<(String, String)>,
}

/// The metadata as a map from key to value.
pub open spec fn meta_map(meta: Seq<(String, String)>) -> Map<Seq<char>, Seq<char>>
    decreases meta.len(),
{
    if meta.len() == 0 {
        Map::empty()
    } else {
        meta_map(meta.drop_last()).insert(meta.last().0@, meta.last().1@)
    }
}

impl ServerError {
    /// No key occurs twice in the metadata.
    pub open spec fn wf(&self) -> bool {
        forall|i: int, j: int|
            0 <= i < self.meta@.len() && 0 <= j < self.meta@.len() && i != j
                ==> self.meta@[i].0@ != self.meta@[j].0@
    }

    /// An error with the given code and message and no metadata.
    pub fn new(code: ErrorCode, msg: String) -> (r: ServerError)
        ensures
            r.code == code,
            r.msg@ == msg@,
            r.meta@.len() == 0,
            r.wf(),
    {
        ServerError { code, msg, meta: Vec::new() }
    }

    /// The transport status for this error's code.
    pub fn http_status(&self) -> (r: u16)
        ensures
            r == status_of(self.code),
    {
        self.code.http_status()
    }

    /// Sets `key` to `value` in the metadata, replacing an earlier value.
    pub fn with_meta(self, key: String, value: String) -> (r: ServerError)
        requires
            self.wf(),
        ensures
            r.wf(),
            r.code == self.code,
            r.msg == self.msg,
            meta_map(r.meta@) == meta_map(self.meta@).insert(key@, value@),
    {
        let mut e = self;
        let n = e.meta.len();
        let mut i: usize = 0;
        while i < n
            invariant
                n == e.meta@.len(),
                i <= n,
                e.meta@ == self.meta@,
                e.code == self.code,
                e.msg == self.msg,
                self.wf(),
                forall|k: int| 0 <= k < i ==> e.meta@[k].0@ != key@,
            decreases n - i,
        {
            if e.meta[i].0 == key {
                let ghost before = e.meta@;
                e.meta.set(i, (key, value));
                proof { lemma_meta_map_replace(before, i as int, e.meta@[i as int]); }
                return e;
            }
            i += 1;
        }
        let ghost before = e.meta@;
        e.meta.push((key, value));
        assert(e.meta@.drop_last() =~= before);
        e
    }
}

/// Replacing the entry at `i` by one with the same key updates that key.
proof fn lemma_meta_map_replace(meta: Seq<(String, String)>, i: int, entry: (String, String))
    requires
        0 <= i < meta.len(),
        meta[i].0@ == entry.0@,
        forall|a: int, b: int|
            0 <= a < meta.len() && 0 <= b < meta.len() && a != b ==> meta[a].0@ != meta[b].0@,
    ensures
        meta_map(meta.update(i, entry)) == meta_map(meta).insert(entry.0@, entry.1@),
    decreases meta.len(),
{
    let upd = meta.update(i, entry);
    if i == meta.len() - 1 {
        assert(upd.drop_last() =~= meta.drop_last());
        assert(meta_map(meta.drop_last()).insert(meta.last().0@, meta.last().1@).insert(entry.0@, entry.1@)
            =~= meta_map(meta.drop_last()).insert(entry.0@, entry.1@));
    } else {
        assert(upd.drop_last() =~= meta.drop_last().update(i, entry));
        lemma_meta_map_replace(meta.drop_last(), i, entry);
        assert(meta.last().0@ != entry.0@);
        assert(meta_map(upd) =~= meta_map(meta).insert(entry.0@, entry.1@));
    }
}

/// An `internal` error with the given message, for failures a handler did
/// not expect.
pub fn internal(msg: &str) -> (r: ServerError)
    ensures
        r.code == ErrorCode::Internal,
        r.msg@ == msg@,
        r.meta@.len() == 0,
        r.wf(),
{
    ServerError::new(ErrorCode::Internal, msg.to_owned())
}

} // verus!

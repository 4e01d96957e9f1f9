//! The values that requests and replies are made of.

use vstd::prelude::*;

verus! {

/// The failures a client can be told of.
#[derive(Debug, Clone, Copy, PartialEq, Eq, Structural)]
pub enum Error {
    /// The fields of an account request are unacceptable.
    InvalidRequest,
    /// The user name is already taken.
    UserExists,
    /// The credentials are missing, unacceptable, or do not match.
    Unauthorized,
    /// The document key of a pull is unacceptable.
    DocumentFieldMissing,
    /// The store failed.
    Internal,
}

/// A store operation that did not complete. It carries no detail: none is
/// ever shown to a client.
#[derive(Debug, Clone, Copy, PartialEq, Eq, Structural)]
pub struct Fault;

/// The principal of a request: the name of the user it was authenticated as.
#[derive(Debug, Clone, PartialEq, Eq)]
pub struct Authed(pub String);

/// A request to open an account.
#[derive(Debug, Clone, PartialEq, Eq)]
pub struct CreateUser {
    pub username: String,
    pub password: String,
}

/// The reading position of one document, as a device reports it and as the
/// store keeps it.
///
/// `percentage` is the bit pattern of an IEEE-754 binary64 number. Nothing
/// here interprets it: it is stored and handed back as it came.
#[derive(Debug, PartialEq, Eq)]
pub struct ProgressState {
    pub document: String,
    pub percentage: u64,
    pub progress_cursor: String,
    pub device: String,
    pub device_id: String,
    pub timestamp: Option<u64>,
}

/// The mathematical content of a `ProgressState`.
pub struct ProgressData {
    pub document: Seq<char>,
    pub percentage: u64,
    pub progress_cursor: Seq<char>,
    pub device: Seq<char>,
    pub device_id: Seq<char>,
    pub timestamp: Option<u64>,
}

impl ProgressData {
    /// The same record with its timestamp replaced by `now`.
    pub open spec fn stamped(self, now: u64) -> ProgressData {
        ProgressData { timestamp: Some(now), ..self }
    }
}

impl View for ProgressState {
    type V = ProgressData;

    open spec fn view(&self) -> ProgressData {
        ProgressData {
            document: self.document@,
            percentage: self.percentage,
            progress_cursor: self.progress_cursor@,
            device: self.device@,
            device_id: self.device_id@,
            timestamp: self.timestamp,
        }
    }
}

impl Clone for ProgressState {
    fn clone(&self) -> (r: Self)
        ensures
            r@ == self@,
    {
        ProgressState {
            document: self.document.clone(),
            percentage: self.percentage,
            progress_cursor: self.progress_cursor.clone(),
            device: self.device.clone(),
            device_id: self.device_id.clone(),
            timestamp: self.timestamp,
        }
    }
}

/// What a successful operation answers.
#[derive(Debug, Clone, PartialEq, Eq)]
pub enum Reply {
    /// The credentials are good.
    Authorized,
    /// The service is up and the credentials are good.
    Healthy,
    /// The account was opened under this name.
    Created { username: String },
    /// The stored position of the document asked for.
    Progress(ProgressState),
    /// Nothing is stored yet for this document.
    NoProgress { document: String },
    /// The position was stored at this server time.
    Updated { document: String, timestamp: u64 },
}

/// The mathematical content of a `Reply`.
pub enum ReplyData {
    Authorized,
    Healthy,
    Created { username: Seq<char> },
    Progress(ProgressData),
    NoProgress { document: Seq<char> },
    Updated { document: Seq<char>, timestamp: u64 },
}

impl View for Reply {
    type V = ReplyData;

    open spec fn view(&self) -> ReplyData {
        match self {
            Reply::Authorized => ReplyData::Authorized,
            Reply::Healthy => ReplyData::Healthy,
            Reply::Created { username } => ReplyData::Created { username: username@ },
            Reply::Progress(state) => ReplyData::Progress(state@),
            Reply::NoProgress { document } => ReplyData::NoProgress { document: document@ },
            Reply::Updated { document, timestamp } => ReplyData::Updated {
                document: document@,
                timestamp: *timestamp,
            },
        }
    }
}

/// The status that goes with a reply: 201 for a new account, 200 otherwise.
pub open spec fn reply_status(reply: ReplyData) -> u16 {
    match reply {
        ReplyData::Created { .. } => 201,
        _ => 200,
    }
}

/// The status that goes with a failure.
pub open spec fn error_status(error: Error) -> u16 {
    match error {
        Error::InvalidRequest => 403,
        Error::UserExists => 402,
        Error::Unauthorized => 401,
        Error::DocumentFieldMissing => 403,
        Error::Internal => 500,
    }
}

/// The number by which a client tells one failure from another.
pub open spec fn error_code(error: Error) -> u16 {
    match error {
        Error::Internal => 2000,
        Error::Unauthorized => 2001,
        Error::UserExists => 2002,
        Error::InvalidRequest => 2003,
        Error::DocumentFieldMissing => 2004,
    }
}

impl Reply {
    /// The HTTP status of this reply.
    pub fn status(&self) -> (r: u16)
        ensures
            r == reply_status(self@),
    {
        match self {
            Reply::Created { .. } => 201,
            _ => 200,
        }
    }
}

impl Error {
    /// The HTTP status of this failure.
    pub fn status(&self) -> (r: u16)
        ensures
            r == error_status(*self),
    {
        match self {
            Error::InvalidRequest => 403,
            Error::UserExists => 402,
            Error::Unauthorized => 401,
            Error::DocumentFieldMissing => 403,
            Error::Internal => 500,
        }
    }

    /// The number of this failure in the body of the response.
    pub fn code(&self) -> (r: u16)
        ensures
            r == error_code(*self),
    {
        match self {
            Error::Internal => 2000,
            Error::Unauthorized => 2001,
            Error::UserExists => 2002,
            Error::InvalidRequest => 2003,
            Error::DocumentFieldMissing => 2004,
        }
    }
}

/// The view of an outcome: the reply's content, or the failure.
pub open spec fn outcome_view(r: Result<Reply, Error>) -> Result<ReplyData, Error> {
    match r {
        Ok(reply) => Ok(reply@),
        Err(e) => Err(e),
    }
}

} // verus!

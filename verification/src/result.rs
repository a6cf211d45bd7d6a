use vstd::prelude::*;

verus! {

/// A value that a rule reports with a complaint.
#[derive(Clone, Debug)]
pub enum Param {
    /// A bound of the rule.
    Number(u64),
    /// A text, such as the value that broke the rule.
    Text(String),
    /// Any other value, written as JSON.
    Json(String),
}

/// One complaint about one field of a request body: the code of the rule
/// that is broken, what to tell the client, and the rule's parameters by
/// name.
#[derive(Clone, Debug)]
pub struct FieldIssue {
    pub code: String,
    pub message: Option<String>,
    pub params: Vec<(String, Param)>,
}

/// What a validator reports under one key of a request body.
#[derive(Clone, Debug)]
pub enum IssueKind {
    /// Complaints about the field itself.
    Field(Vec<FieldIssue>),
    /// Complaints about a nested structure.
    Struct,
    /// Complaints about the members of a list.
    List,
}

/// The outcomes that a caller of the service can be told about.
#[derive(Clone, Debug)]
pub enum Error {
    /// A record with the same unique key is already stored.
    AlreadyExists,
    /// No record matched.
    NotFound,
    /// The request body broke a rule; each entry names a field and its issues.
    FieldValidation(Vec<(String, Vec<FieldIssue>)>),
    /// Bad credentials, or a token that is missing, invalid or expired.
    Authorization,
    /// Hashing, signing or storage failed, or a stored hash is malformed.
    Internal,
    /// The operation exists but does nothing yet.
    NotImplemented,
}

/// What the storage layer reports when an operation on a record fails.
#[derive(Clone, Copy, Debug, PartialEq, Eq, Structural)]
pub enum StorageFailure {
    /// No record matched the query.
    NotFound,
    /// A unique constraint rejected the write.
    UniqueViolation,
    /// Anything else: lost connection, pool exhausted, malformed query.
    Other,
}

/// The class of an outcome, without the detail that `FieldValidation` carries.
#[derive(Clone, Copy, Debug, PartialEq, Eq, Structural)]
pub enum ErrorKind {
    AlreadyExists,
    NotFound,
    FieldValidation,
    Authorization,
    Internal,
    NotImplemented,
}

impl Error {
    pub open spec fn kind_spec(&self) -> ErrorKind {
        match self {
            Error::AlreadyExists => ErrorKind::AlreadyExists,
            Error::NotFound => ErrorKind::NotFound,
            Error::FieldValidation(_) => ErrorKind::FieldValidation,
            Error::Authorization => ErrorKind::Authorization,
            Error::Internal => ErrorKind::Internal,
            Error::NotImplemented => ErrorKind::NotImplemented,
        }
    }

    /// The class of this outcome.
    pub fn kind(&self) -> (k: ErrorKind)
        ensures
            k == self.kind_spec(),
    {
        match self {
            Error::AlreadyExists => ErrorKind::AlreadyExists,
            Error::NotFound => ErrorKind::NotFound,
            Error::FieldValidation(_) => ErrorKind::FieldValidation,
            Error::Authorization => ErrorKind::Authorization,
            Error::Internal => ErrorKind::Internal,
            Error::NotImplemented => ErrorKind::NotImplemented,
        }
    }

    /// A missing record and a broken unique constraint have outcomes of their
    /// own; every other storage failure is internal.
    pub open spec fn from_storage_spec(failure: StorageFailure) -> Error {
        match failure {
            StorageFailure::NotFound => Error::NotFound,
            StorageFailure::UniqueViolation => Error::AlreadyExists,
            StorageFailure::Other => Error::Internal,
        }
    }

    pub fn from_storage(failure: StorageFailure) -> (e: Error)
        ensures
            e == Self::from_storage_spec(failure),
    {
        match failure {
            StorageFailure::NotFound => Error::NotFound,
            StorageFailure::UniqueViolation => Error::AlreadyExists,
            StorageFailure::Other => Error::Internal,
        }
    }
}

/// How an outcome is sent to the client.
#[derive(Clone, Copy, Debug, PartialEq, Eq, Structural)]
pub struct Reply {
    /// The HTTP status.
    pub status: u16,
    /// Whether the outcome is written into the body.
    pub with_body: bool,
}

impl ErrorKind {
    /// The name of the class in a response body.
    pub open spec fn name_spec(self) -> Seq<char> {
        match self {
            ErrorKind::AlreadyExists => "already_exists"@,
            ErrorKind::NotFound => "not_found"@,
            ErrorKind::FieldValidation => "field_validation"@,
            ErrorKind::Authorization => "authorization"@,
            ErrorKind::Internal => "internal"@,
            ErrorKind::NotImplemented => "not_implemented"@,
        }
    }

    pub fn name(self) -> (r: &'static str)
        ensures
            r@ == self.name_spec(),
    {
        match self {
            ErrorKind::AlreadyExists => "already_exists",
            ErrorKind::NotFound => "not_found",
            ErrorKind::FieldValidation => "field_validation",
            ErrorKind::Authorization => "authorization",
            ErrorKind::Internal => "internal",
            ErrorKind::NotImplemented => "not_implemented",
        }
    }

    /// What is said of the class in a log.
    pub open spec fn describe_spec(self) -> Seq<char> {
        match self {
            ErrorKind::AlreadyExists => "Entity already exists"@,
            ErrorKind::NotFound => "Entity not found"@,
            ErrorKind::FieldValidation => "Validation error"@,
            ErrorKind::Authorization => "Authorization error"@,
            ErrorKind::Internal => "Internal server error"@,
            ErrorKind::NotImplemented => "Not Implemented"@,
        }
    }

    pub fn describe(self) -> (r: &'static str)
        ensures
            r@ == self.describe_spec(),
    {
        match self {
            ErrorKind::AlreadyExists => "Entity already exists",
            ErrorKind::NotFound => "Entity not found",
            ErrorKind::FieldValidation => "Validation error",
            ErrorKind::Authorization => "Authorization error",
            ErrorKind::Internal => "Internal server error",
            ErrorKind::NotImplemented => "Not Implemented",
        }
    }

    /// The outcomes that a client can act on travel in the body of a
    /// successful response; the two that it cannot are bare statuses, so that
    /// nothing internal leaks.
    pub open spec fn reply_spec(self) -> Reply {
        match self {
            ErrorKind::Internal => Reply { status: 500, with_body: false },
            ErrorKind::NotImplemented => Reply { status: 501, with_body: false },
            _ => Reply { status: 200, with_body: true },
        }
    }

    pub fn reply(self) -> (r: Reply)
        ensures
            r == self.reply_spec(),
    {
        match self {
            ErrorKind::Internal => Reply { status: 500, with_body: false },
            ErrorKind::NotImplemented => Reply { status: 501, with_body: false },
            _ => Reply { status: 200, with_body: true },
        }
    }
}

/// The entries of a validator's report that speak of a field itself, in the
/// order of the report; what it says of nested structures and lists is left
/// out.
pub open spec fn field_entries(report: Seq<(String, IssueKind)>) -> Seq<(String, Vec<FieldIssue>)>
    decreases report.len(),
{
    if report.len() == 0 {
        seq![]
    } else {
        let rest = field_entries(report.drop_first());
        match report[0].1 {
            IssueKind::Field(issues) => seq![(report[0].0, issues)] + rest,
            _ => rest,
        }
    }
}

impl Error {
    /// How this outcome is sent to the client.
    pub fn error_response(&self) -> (r: Reply)
        ensures
            r == self.kind_spec().reply_spec(),
    {
        self.kind().reply()
    }

    /// The validation error for a validator's report.
    pub fn from_validation(report: Vec<(String, IssueKind)>) -> (e: Error)
        ensures
            e matches Error::FieldValidation(entries) && entries@ == field_entries(report@),
    {
        let mut report = report;
        let ghost whole = report@;
        let mut entries: Vec<(String, Vec<FieldIssue>)> = Vec::new();
        while report.len() > 0
            invariant
                field_entries(whole) == entries@ + field_entries(report@),
            decreases report@.len(),
        {
            let ghost before = report@;
            let ghost kept = entries@;
            let (field, kind) = report.remove(0);
            assert(report@ =~= before.drop_first());
            match kind {
                IssueKind::Field(issues) => {
                    entries.push((field, issues));
                    assert(entries@ + field_entries(report@) =~= kept + (seq![(field, issues)]
                        + field_entries(report@)));
                },
                _ => {},
            }
        }
        assert(entries@ + field_entries(report@) =~= entries@);
        Error::FieldValidation(entries)
    }
}

} // verus!

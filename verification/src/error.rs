use vstd::prelude::*;

verus! {

/// `anyhow::Error`, the error type of the collaborators. It is carried
/// through unopened.
#[verifier::external_type_specification]
#[verifier::external_body]
pub struct ExAnyhowError(anyhow::Error);

/// Why an operation of the manager failed.
#[derive(Debug)]
pub enum ManagerError {
    /// A plaintext private key and its ciphertext were both supplied.
    BothIdentities,
    /// Neither a plaintext private key nor a ciphertext was supplied.
    NoIdentity,
    /// The value given as a directory could not be turned into a path.
    InvalidPath,
    /// The path given for local resolution is not a usable directory.
    UnusableDirectory,
    /// A broadcast was asked for, but no network configuration is held.
    NoApiClient,
    /// A collaborator failed; its error is carried as it was received.
    Upstream(anyhow::Error),
}

/// The fixed text of each error that the manager raises itself. An
/// upstream error has no fixed text: for it this is the empty text.
pub open spec fn fixed_message(e: ManagerError) -> Seq<char> {
    match e {
        ManagerError::BothIdentities => "Cannot have both private key and private key ciphertext"@,
        ManagerError::NoIdentity => "Must have either private key or private key ciphertext"@,
        ManagerError::InvalidPath => "Path specified was not valid"@,
        ManagerError::UnusableDirectory => "Path specified is not a usable directory"@,
        ManagerError::NoApiClient => "No API client found"@,
        ManagerError::Upstream(_) => Seq::empty(),
    }
}

/// `anyhow::Error`'s `Display`: the text with which the error describes
/// itself. Nothing is claimed about it: the text belongs to whoever
/// produced the error.
#[verifier::external_body]
fn upstream_text(e: &anyhow::Error) -> (r: String)
{
    e.to_string()
}

/// What a collaborator handed back, with its failure marked as upstream and
/// otherwise untouched.
pub open spec fn from_upstream_spec<T>(outcome: Result<T, anyhow::Error>) -> Result<T, ManagerError> {
    match outcome {
        Ok(v) => Ok(v),
        Err(e) => Err(ManagerError::Upstream(e)),
    }
}

/// Passes a collaborator's outcome through: success stays success, and a
/// failure is carried unchanged inside `ManagerError::Upstream`.
pub fn from_upstream<T>(outcome: Result<T, anyhow::Error>) -> (r: Result<T, ManagerError>)
    ensures
        r == from_upstream_spec(outcome),
{
    match outcome {
        Ok(v) => Ok(v),
        Err(e) => Err(ManagerError::Upstream(e)),
    }
}

impl ManagerError {
    /// Whether this error was raised by the manager itself, before any
    /// collaborator was asked.
    pub open spec fn is_own(&self) -> bool {
        !(self is Upstream)
    }

    /// The text that describes this error. For an error of the manager's own
    /// it is the fixed message; for an upstream error it is the
    /// collaborator's own text.
    pub fn message(&self) -> (r: String)
        ensures
            self.is_own() ==> r@ == fixed_message(*self),
    {
        match self {
            ManagerError::BothIdentities => "Cannot have both private key and private key ciphertext".to_owned(),
            ManagerError::NoIdentity => "Must have either private key or private key ciphertext".to_owned(),
            ManagerError::InvalidPath => "Path specified was not valid".to_owned(),
            ManagerError::UnusableDirectory => "Path specified is not a usable directory".to_owned(),
            ManagerError::NoApiClient => "No API client found".to_owned(),
            ManagerError::Upstream(e) => upstream_text(e),
        }
    }

    /// The collaborator's error, if this is an upstream error.
    pub fn into_upstream(self) -> (r: Option<anyhow::Error>)
        ensures
            r == (match self {
                ManagerError::Upstream(e) => Some(e),
                _ => None,
            }),
    {
        match self {
            ManagerError::Upstream(e) => Some(e),
            _ => None,
        }
    }
}

} // verus!

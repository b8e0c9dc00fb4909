//! From the description of where a secret is kept, and what the backend
//! answered, to the secret or to the error of that backend.

use crate::error::{CcmError, CcmErrorView};
use crate::profile::model::{source_key, CredentialSource, CredentialSourceView};
use vstd::prelude::*;

verus! {

/// What the backend of a credential source answered when it was asked for
/// the secret.
#[derive(Debug, Clone)]
pub enum BackendReply {
    /// The secret.
    Secret(String),
    /// The backend was reached and holds nothing under the key: no entry in
    /// the keychain, no such variable, no such file.
    Absent,
    /// What holds the secret is there and could not be read, with this
    /// message: the encrypted file, or the keychain, or the variable.
    Unreadable(String),
    /// The backend itself failed, with this message: the keychain could not
    /// be reached, the variable could not be read, the file did not decrypt.
    Failed(String),
}

pub enum BackendReplyView {
    Secret(Seq<char>),
    Absent,
    Unreadable(Seq<char>),
    Failed(Seq<char>),
}

impl View for BackendReply {
    type V = BackendReplyView;

    open spec fn view(&self) -> BackendReplyView {
        match *self {
            BackendReply::Secret(secret) => BackendReplyView::Secret(secret@),
            BackendReply::Absent => BackendReplyView::Absent,
            BackendReply::Unreadable(message) => BackendReplyView::Unreadable(message@),
            BackendReply::Failed(message) => BackendReplyView::Failed(message@),
        }
    }
}

/// A secret, or the error in its place, as plain values.
pub open spec fn resolved_view(resolved: Result<String, CcmError>) -> Result<
    Seq<char>,
    CcmErrorView,
> {
    match resolved {
        Ok(secret) => Ok(secret@),
        Err(error) => Err(error@),
    }
}

/// The outcome of a resolution: the secret that the backend gave, or the
/// error that belongs to this backend. An encrypted file that cannot be read
/// is an I/O error of its path; a keychain that cannot be read is
/// unavailable; a variable that cannot be read counts as not set.
pub open spec fn resolution(
    source: CredentialSourceView,
    profile: Seq<char>,
    reply: BackendReplyView,
) -> Result<Seq<char>, CcmErrorView> {
    match reply {
        BackendReplyView::Secret(secret) => Ok(secret),
        BackendReplyView::Absent => Err(
            match source {
                CredentialSourceView::Keychain { .. } => CcmErrorView::CredentialNotFound {
                    profile,
                },
                CredentialSourceView::Environment { var_name } => CcmErrorView::EnvVarNotSet {
                    var: var_name,
                },
                CredentialSourceView::Encrypted { path } => CcmErrorView::FileNotFound { path },
            },
        ),
        BackendReplyView::Unreadable(message) => Err(
            match source {
                CredentialSourceView::Keychain { .. } => CcmErrorView::KeychainUnavailable(
                    message,
                ),
                CredentialSourceView::Environment { var_name } => CcmErrorView::EnvVarNotSet {
                    var: var_name,
                },
                CredentialSourceView::Encrypted { path } => CcmErrorView::Io { path, message },
            },
        ),
        BackendReplyView::Failed(message) => Err(
            match source {
                CredentialSourceView::Keychain { .. } => CcmErrorView::KeychainUnavailable(
                    message,
                ),
                CredentialSourceView::Environment { var_name } => CcmErrorView::EnvVarNotSet {
                    var: var_name,
                },
                CredentialSourceView::Encrypted { .. } => CcmErrorView::DecryptionFailed(message),
            },
        ),
    }
}

impl CredentialSource {
    /// The key under which the backend of this source keeps the secret: the
    /// service, the name of the variable, or the path of the file.
    pub fn key(&self) -> (key: &String)
        ensures
            key@ == source_key(self@),
    {
        match self {
            CredentialSource::Keychain { service } => service,
            CredentialSource::Environment { var_name } => var_name,
            CredentialSource::Encrypted { path } => path,
        }
    }

    /// Decides a resolution for the profile `profile` from what the backend
    /// just answered. Nothing is kept from one call to the next.
    pub fn resolve(&self, profile: &str, reply: BackendReply) -> (resolved: Result<
        String,
        CcmError,
    >)
        ensures
            resolved_view(resolved) == resolution(self@, profile@, reply@),
    {
        match reply {
            BackendReply::Secret(secret) => Ok(secret),
            BackendReply::Absent => Err(
                match self {
                    CredentialSource::Keychain { .. } => CcmError::CredentialNotFound {
                        profile: profile.to_owned(),
                    },
                    CredentialSource::Environment { var_name } => CcmError::EnvVarNotSet {
                        var: var_name.clone(),
                    },
                    CredentialSource::Encrypted { path } => CcmError::FileNotFound {
                        path: path.clone(),
                    },
                },
            ),
            BackendReply::Unreadable(message) => Err(
                match self {
                    CredentialSource::Keychain { .. } => CcmError::KeychainUnavailable(message),
                    CredentialSource::Environment { var_name } => CcmError::EnvVarNotSet {
                        var: var_name.clone(),
                    },
                    CredentialSource::Encrypted { path } => CcmError::Io {
                        path: path.clone(),
                        message,
                    },
                },
            ),
            BackendReply::Failed(message) => Err(
                match self {
                    CredentialSource::Keychain { .. } => CcmError::KeychainUnavailable(message),
                    CredentialSource::Environment { var_name } => CcmError::EnvVarNotSet {
                        var: var_name.clone(),
                    },
                    CredentialSource::Encrypted { .. } => CcmError::DecryptionFailed(message),
                },
            ),
        }
    }
}

/// A resolution hands out a secret exactly when the backend gave one, and
/// then this secret unchanged: no source falls back to another, and no
/// earlier answer counts.
pub proof fn law_secret_comes_from_backend(
    source: CredentialSourceView,
    profile: Seq<char>,
    reply: BackendReplyView,
)
    ensures
        resolution(source, profile, reply) is Ok <==> reply is Secret,
        reply matches BackendReplyView::Secret(secret) ==> resolution(source, profile, reply)
            == Ok::<Seq<char>, CcmErrorView>(secret),
{
}

} // verus!

//! The errors of the profile store and of the layers around it.

use vstd::prelude::*;
use vstd::string::*;

verus! {

/// Everything that can go wrong in the core and in the layers that call it.
///
/// Each variant carries the context (name, path, backend message) that a
/// caller needs to print an actionable message.
#[derive(Debug, Clone)]
pub enum CcmError {
    /// No file is stored for the profile of this name.
    NotFound { name: String },
    /// A file is already stored for the profile of this name.
    AlreadyExists { name: String },
    InvalidProfileName { name: String, reason: String },
    InvalidProfileConfig(String),
    NoDefaultProfile,
    /// The keychain holds no entry for this profile.
    CredentialNotFound { profile: String },
    CredentialStorageError(String),
    /// The keychain itself could not be reached.
    KeychainUnavailable(String),
    /// The encrypted file did not decrypt: wrong key or damaged content.
    DecryptionFailed(String),
    /// The environment variable that should hold the secret is not set.
    EnvVarNotSet { var: String },
    /// The encrypted file that should hold the secret is not there.
    FileNotFound { path: String },
    ClaudeSettingsNotFound { path: String },
    ClaudeSettingsWriteError(String),
    InvalidClaudeSettings(String),
    InvalidCcmrc { path: String, reason: String },
    UnsupportedShell { shell: String },
    /// The host has no conventional per-user configuration directory.
    ConfigDirUnavailable,
    /// A file operation failed at `path`.
    Io { path: String, message: String },
    /// The file at `path` is not a profile record.
    DeserializationFailed { path: String, diagnostic: String },
    /// The profile `name` could not be written down as text.
    SerializationFailed { name: String, diagnostic: String },
    Json(String),
    Other(String),
}

/// A `CcmError` with each text as a sequence of characters.
pub enum CcmErrorView {
    NotFound { name: Seq<char> },
    AlreadyExists { name: Seq<char> },
    InvalidProfileName { name: Seq<char>, reason: Seq<char> },
    InvalidProfileConfig(Seq<char>),
    NoDefaultProfile,
    CredentialNotFound { profile: Seq<char> },
    CredentialStorageError(Seq<char>),
    KeychainUnavailable(Seq<char>),
    DecryptionFailed(Seq<char>),
    EnvVarNotSet { var: Seq<char> },
    FileNotFound { path: Seq<char> },
    ClaudeSettingsNotFound { path: Seq<char> },
    ClaudeSettingsWriteError(Seq<char>),
    InvalidClaudeSettings(Seq<char>),
    InvalidCcmrc { path: Seq<char>, reason: Seq<char> },
    UnsupportedShell { shell: Seq<char> },
    ConfigDirUnavailable,
    Io { path: Seq<char>, message: Seq<char> },
    DeserializationFailed { path: Seq<char>, diagnostic: Seq<char> },
    SerializationFailed { name: Seq<char>, diagnostic: Seq<char> },
    Json(Seq<char>),
    Other(Seq<char>),
}

impl View for CcmError {
    type V = CcmErrorView;

    open spec fn view(&self) -> CcmErrorView {
        match *self {
            CcmError::NotFound { name } => CcmErrorView::NotFound { name: name@ },
            CcmError::AlreadyExists { name } => CcmErrorView::AlreadyExists { name: name@ },
            CcmError::InvalidProfileName { name, reason } => CcmErrorView::InvalidProfileName {
                name: name@,
                reason: reason@,
            },
            CcmError::InvalidProfileConfig(m) => CcmErrorView::InvalidProfileConfig(m@),
            CcmError::NoDefaultProfile => CcmErrorView::NoDefaultProfile,
            CcmError::CredentialNotFound { profile } => CcmErrorView::CredentialNotFound {
                profile: profile@,
            },
            CcmError::CredentialStorageError(m) => CcmErrorView::CredentialStorageError(m@),
            CcmError::KeychainUnavailable(m) => CcmErrorView::KeychainUnavailable(m@),
            CcmError::DecryptionFailed(m) => CcmErrorView::DecryptionFailed(m@),
            CcmError::EnvVarNotSet { var } => CcmErrorView::EnvVarNotSet { var: var@ },
            CcmError::FileNotFound { path } => CcmErrorView::FileNotFound { path: path@ },
            CcmError::ClaudeSettingsNotFound { path } => CcmErrorView::ClaudeSettingsNotFound {
                path: path@,
            },
            CcmError::ClaudeSettingsWriteError(m) => CcmErrorView::ClaudeSettingsWriteError(m@),
            CcmError::InvalidClaudeSettings(m) => CcmErrorView::InvalidClaudeSettings(m@),
            CcmError::InvalidCcmrc { path, reason } => CcmErrorView::InvalidCcmrc {
                path: path@,
                reason: reason@,
            },
            CcmError::UnsupportedShell { shell } => CcmErrorView::UnsupportedShell { shell: shell@ },
            CcmError::ConfigDirUnavailable => CcmErrorView::ConfigDirUnavailable,
            CcmError::Io { path, message } => CcmErrorView::Io { path: path@, message: message@ },
            CcmError::DeserializationFailed { path, diagnostic } => {
                CcmErrorView::DeserializationFailed { path: path@, diagnostic: diagnostic@ }
            },
            CcmError::SerializationFailed { name, diagnostic } => {
                CcmErrorView::SerializationFailed { name: name@, diagnostic: diagnostic@ }
            },
            CcmError::Json(m) => CcmErrorView::Json(m@),
            CcmError::Other(m) => CcmErrorView::Other(m@),
        }
    }
}

/// The advice that goes with an error, where there is any.
pub open spec fn suggestion_for(e: CcmErrorView) -> Option<&'static str> {
    match e {
        CcmErrorView::NotFound { .. } => Some(
            "Run 'ccm list' to see available profiles, or 'ccm add <name>' to create one.",
        ),
        CcmErrorView::NoDefaultProfile => Some("Run 'ccm use <profile>' to set a default profile."),
        CcmErrorView::CredentialNotFound { .. } => Some(
            "Run 'ccm add <profile>' to set up credentials for this profile.",
        ),
        CcmErrorView::KeychainUnavailable(_) => Some(
            "Check that your system keychain is accessible. On Linux, ensure libsecret is installed.",
        ),
        CcmErrorView::ClaudeSettingsNotFound { .. } => Some(
            "Ensure the command-line tool that reads these settings is installed. Run it with '--version' to verify.",
        ),
        CcmErrorView::EnvVarNotSet { .. } => Some(
            "Set the environment variable before running ccm, or use --auth-token directly.",
        ),
        _ => None,
    }
}

/// The message of an error: what went wrong, with the name, the path or
/// the backend's own words where the error carries them.
pub open spec fn message_for(e: CcmErrorView) -> Seq<char> {
    match e {
        CcmErrorView::NotFound { name } => "Profile not found: "@ + name,
        CcmErrorView::AlreadyExists { name } => "Profile already exists: "@ + name,
        CcmErrorView::InvalidProfileName { name, reason } => "Invalid profile name '"@ + name
            + "': "@ + reason,
        CcmErrorView::InvalidProfileConfig(m) => "Invalid profile configuration: "@ + m,
        CcmErrorView::NoDefaultProfile => "No default profile configured"@,
        CcmErrorView::CredentialNotFound { profile } => "Credential not found for profile: "@
            + profile,
        CcmErrorView::CredentialStorageError(m) => "Credential storage error: "@ + m,
        CcmErrorView::KeychainUnavailable(m) => "Failed to access system keychain: "@ + m,
        CcmErrorView::DecryptionFailed(m) => "Decryption failed: "@ + m,
        CcmErrorView::EnvVarNotSet { var } => "Environment variable not set: "@ + var,
        CcmErrorView::FileNotFound { path } => "Encrypted credential file not found: "@ + path,
        CcmErrorView::ClaudeSettingsNotFound { path } => "Settings not found at: "@ + path,
        CcmErrorView::ClaudeSettingsWriteError(m) => "Failed to write settings: "@ + m,
        CcmErrorView::InvalidClaudeSettings(m) => "Invalid settings format: "@ + m,
        CcmErrorView::InvalidCcmrc { path, reason } => "Invalid .ccmrc file at "@ + path + ": "@
            + reason,
        CcmErrorView::UnsupportedShell { shell } => "Unsupported shell: "@ + shell,
        CcmErrorView::ConfigDirUnavailable => "No configuration directory on this host"@,
        CcmErrorView::Io { path, message } => "IO error at "@ + path + ": "@ + message,
        CcmErrorView::DeserializationFailed { path, diagnostic } => "TOML parse error in "@ + path
            + ": "@ + diagnostic,
        CcmErrorView::SerializationFailed { name, diagnostic } =>
            "TOML serialize error for profile "@ + name + ": "@ + diagnostic,
        CcmErrorView::Json(m) => "JSON error: "@ + m,
        CcmErrorView::Other(m) => m,
    }
}

/// `head` followed by `text`.
fn headed(head: &str, text: &String) -> (message: String)
    ensures
        message@ == head@ + text@,
{
    let mut message = String::from_str(head);
    message.append(text.as_str());
    message
}

/// `head`, `first`, `between` and `second` in a row.
fn headed_pair(head: &str, first: &String, between: &str, second: &String) -> (message: String)
    ensures
        message@ == head@ + first@ + between@ + second@,
{
    let mut message = String::from_str(head);
    message.append(first.as_str());
    message.append(between);
    message.append(second.as_str());
    message
}

impl CcmError {
    /// The message of this error, for the user.
    pub fn message(&self) -> (message: String)
        ensures
            message@ == message_for(self@),
    {
        match self {
            CcmError::NotFound { name } => headed("Profile not found: ", name),
            CcmError::AlreadyExists { name } => headed("Profile already exists: ", name),
            CcmError::InvalidProfileName { name, reason } => headed_pair(
                "Invalid profile name '",
                name,
                "': ",
                reason,
            ),
            CcmError::InvalidProfileConfig(m) => headed("Invalid profile configuration: ", m),
            CcmError::NoDefaultProfile => String::from_str("No default profile configured"),
            CcmError::CredentialNotFound { profile } => headed(
                "Credential not found for profile: ",
                profile,
            ),
            CcmError::CredentialStorageError(m) => headed("Credential storage error: ", m),
            CcmError::KeychainUnavailable(m) => headed("Failed to access system keychain: ", m),
            CcmError::DecryptionFailed(m) => headed("Decryption failed: ", m),
            CcmError::EnvVarNotSet { var } => headed("Environment variable not set: ", var),
            CcmError::FileNotFound { path } => headed(
                "Encrypted credential file not found: ",
                path,
            ),
            CcmError::ClaudeSettingsNotFound { path } => headed("Settings not found at: ", path),
            CcmError::ClaudeSettingsWriteError(m) => headed("Failed to write settings: ", m),
            CcmError::InvalidClaudeSettings(m) => headed("Invalid settings format: ", m),
            CcmError::InvalidCcmrc { path, reason } => headed_pair(
                "Invalid .ccmrc file at ",
                path,
                ": ",
                reason,
            ),
            CcmError::UnsupportedShell { shell } => headed("Unsupported shell: ", shell),
            CcmError::ConfigDirUnavailable => String::from_str(
                "No configuration directory on this host",
            ),
            CcmError::Io { path, message } => headed_pair("IO error at ", path, ": ", message),
            CcmError::DeserializationFailed { path, diagnostic } => headed_pair(
                "TOML parse error in ",
                path,
                ": ",
                diagnostic,
            ),
            CcmError::SerializationFailed { name, diagnostic } => headed_pair(
                "TOML serialize error for profile ",
                name,
                ": ",
                diagnostic,
            ),
            CcmError::Json(m) => headed("JSON error: ", m),
            CcmError::Other(m) => m.clone(),
        }
    }

    /// A user-friendly suggestion for fixing this error.
    pub fn suggestion(&self) -> (advice: Option<&'static str>)
        ensures
            advice == suggestion_for(self@),
    {
        match self {
            CcmError::NotFound { .. } => Some(
                "Run 'ccm list' to see available profiles, or 'ccm add <name>' to create one.",
            ),
            CcmError::NoDefaultProfile => Some("Run 'ccm use <profile>' to set a default profile."),
            CcmError::CredentialNotFound { .. } => Some(
                "Run 'ccm add <profile>' to set up credentials for this profile.",
            ),
            CcmError::KeychainUnavailable(_) => Some(
                "Check that your system keychain is accessible. On Linux, ensure libsecret is installed.",
            ),
            CcmError::ClaudeSettingsNotFound { .. } => Some(
                "Ensure the command-line tool that reads these settings is installed. Run it with '--version' to verify.",
            ),
            CcmError::EnvVarNotSet { .. } => Some(
                "Set the environment variable before running ccm, or use --auth-token directly.",
            ),
            _ => None,
        }
    }
}

} // verus!

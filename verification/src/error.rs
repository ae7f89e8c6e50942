//! Error taxonomy of the tunnel manager.
//!
//! `TunnelError` classifies every failure of the acquisition flow; `UiError`
//! is the small closed set of user-facing outcomes derived from it at the
//! presentation boundary.

use vstd::prelude::*;
use vstd::string::StringExecFns;

verus! {

/// A failure during tunnel acquisition, reconciliation or session launch.
#[derive(Debug)]
pub enum TunnelError {
    AwsConfig { message: String },
    AwsAuth { message: String },
    TunnelOperation { message: String },
    TunnelNotFound { device_id: String },
    ProcessExecution { message: String },
    InvalidDeviceId { device_id: String },
    Connection { message: String },
    TokenRotation { tunnel_id: String, message: String },
    LocalProxyStartup { message: String },
    Io(String),
    AwsSdk(String),
}

/// The rendered text of a `TunnelError`, character for character.
pub open spec fn spec_message(e: TunnelError) -> Seq<char> {
    match e {
        TunnelError::AwsConfig { message } => "AWS configuration error: "@ + message@,
        TunnelError::AwsAuth { message } => "AWS authentication failed: "@ + message@,
        TunnelError::TunnelOperation { message } => "Tunnel operation failed: "@ + message@,
        TunnelError::TunnelNotFound { device_id } => "Tunnel not found for device: "@ + device_id@,
        TunnelError::ProcessExecution { message } => "Process execution failed: "@ + message@,
        TunnelError::InvalidDeviceId { device_id } => "Invalid device ID: "@ + device_id@,
        TunnelError::Connection { message } => "Connection failed: "@ + message@,
        TunnelError::TokenRotation { tunnel_id, message } =>
            "Token rotation failed for tunnel "@ + tunnel_id@ + ": "@ + message@,
        TunnelError::LocalProxyStartup { message } => "LocalProxy startup failed: "@ + message@,
        TunnelError::Io(message) => "IO error: "@ + message@,
        TunnelError::AwsSdk(message) => "AWS SDK error: "@ + message@,
    }
}

impl TunnelError {
    /// Render the error as a message for logs and popups.
    pub fn message(&self) -> (r: String)
        ensures
            r@ == spec_message(*self),
    {
        match self {
            TunnelError::AwsConfig { message } =>
                "AWS configuration error: ".to_owned().concat(message.as_str()),
            TunnelError::AwsAuth { message } =>
                "AWS authentication failed: ".to_owned().concat(message.as_str()),
            TunnelError::TunnelOperation { message } =>
                "Tunnel operation failed: ".to_owned().concat(message.as_str()),
            TunnelError::TunnelNotFound { device_id } =>
                "Tunnel not found for device: ".to_owned().concat(device_id.as_str()),
            TunnelError::ProcessExecution { message } =>
                "Process execution failed: ".to_owned().concat(message.as_str()),
            TunnelError::InvalidDeviceId { device_id } =>
                "Invalid device ID: ".to_owned().concat(device_id.as_str()),
            TunnelError::Connection { message } =>
                "Connection failed: ".to_owned().concat(message.as_str()),
            TunnelError::TokenRotation { tunnel_id, message } =>
                "Token rotation failed for tunnel ".to_owned()
                    .concat(tunnel_id.as_str())
                    .concat(": ")
                    .concat(message.as_str()),
            TunnelError::LocalProxyStartup { message } =>
                "LocalProxy startup failed: ".to_owned().concat(message.as_str()),
            TunnelError::Io(message) => "IO error: ".to_owned().concat(message.as_str()),
            TunnelError::AwsSdk(message) => "AWS SDK error: ".to_owned().concat(message.as_str()),
        }
    }

    /// Create a new AWS configuration error.
    pub fn aws_config(message: &str) -> (e: Self)
        ensures
            e matches TunnelError::AwsConfig { message: m } && m@ == message@,
    {
        TunnelError::AwsConfig { message: message.to_owned() }
    }

    /// Create a new AWS authentication error.
    pub fn aws_auth(message: &str) -> (e: Self)
        ensures
            e matches TunnelError::AwsAuth { message: m } && m@ == message@,
    {
        TunnelError::AwsAuth { message: message.to_owned() }
    }

    /// Create a new tunnel operation error.
    pub fn tunnel_operation(message: &str) -> (e: Self)
        ensures
            e matches TunnelError::TunnelOperation { message: m } && m@ == message@,
    {
        TunnelError::TunnelOperation { message: message.to_owned() }
    }

    /// Create a new process execution error.
    pub fn process_execution(message: &str) -> (e: Self)
        ensures
            e matches TunnelError::ProcessExecution { message: m } && m@ == message@,
    {
        TunnelError::ProcessExecution { message: message.to_owned() }
    }

    /// Create a new connection error.
    pub fn connection(message: &str) -> (e: Self)
        ensures
            e matches TunnelError::Connection { message: m } && m@ == message@,
    {
        TunnelError::Connection { message: message.to_owned() }
    }

    /// Create a new local-proxy startup error.
    pub fn localproxy_startup(message: &str) -> (e: Self)
        ensures
            e matches TunnelError::LocalProxyStartup { message: m } && m@ == message@,
    {
        TunnelError::LocalProxyStartup { message: message.to_owned() }
    }
}

/// Declares std::io::Error so that the conversion below can take one; the
/// value is opaque here and only its rendered text is kept.
#[verifier::external_type_specification]
#[verifier::external_body]
pub struct ExIoError(std::io::Error);

/// Relies on std::io::Error's Display implementation for the error text;
/// the text itself is left unspecified.
#[verifier::external_body]
fn io_error_text(e: &std::io::Error) -> (r: String) {
    e.to_string()
}

impl From<std::io::Error> for TunnelError {
    /// The rendered text of the underlying I/O error is not modelled, so this
    /// conversion carries no specification; only the `Io` variant shape is
    /// visible to callers through `matches!`.
    fn from(err: std::io::Error) -> Self {
        TunnelError::Io(io_error_text(&err))
    }
}

impl vstd::std_specs::convert::FromSpecImpl<std::io::Error> for TunnelError {
    open spec fn obeys_from_spec() -> bool {
        false
    }

    open spec fn from_spec(e: std::io::Error) -> TunnelError {
        arbitrary()
    }
}

/// Result type alias for tunnel operations.
pub type TunnelResult<T> = Result<T, TunnelError>;

/// A user-facing outcome at the presentation boundary.
#[derive(Debug)]
pub enum UiError {
    EmptyDeviceId,
    ConnectionFailed { message: String },
    DisconnectionFailed { message: String },
    AuthenticationRequired,
    Unknown,
}

impl Clone for UiError {
    fn clone(&self) -> (r: Self)
        ensures
            r == *self,
    {
        match self {
            UiError::EmptyDeviceId => UiError::EmptyDeviceId,
            UiError::ConnectionFailed { message } => UiError::ConnectionFailed {
                message: message.clone(),
            },
            UiError::DisconnectionFailed { message } => UiError::DisconnectionFailed {
                message: message.clone(),
            },
            UiError::AuthenticationRequired => UiError::AuthenticationRequired,
            UiError::Unknown => UiError::Unknown,
        }
    }
}

/// The text shown to the user for a `UiError`.
pub open spec fn spec_user_message(e: UiError) -> Seq<char> {
    match e {
        UiError::EmptyDeviceId => "Please enter a device ID"@,
        UiError::ConnectionFailed { message } => message@,
        UiError::DisconnectionFailed { message } => message@,
        UiError::AuthenticationRequired => "Authentication required. Please try connecting again."@,
        UiError::Unknown => "An unexpected error occurred"@,
    }
}

impl UiError {
    /// Get a user-friendly message for display in the UI.
    pub fn user_message(&self) -> (r: &str)
        ensures
            r@ == spec_user_message(*self),
    {
        match self {
            UiError::EmptyDeviceId => "Please enter a device ID",
            UiError::ConnectionFailed { message } => message.as_str(),
            UiError::DisconnectionFailed { message } => message.as_str(),
            UiError::AuthenticationRequired => "Authentication required. Please try connecting again.",
            UiError::Unknown => "An unexpected error occurred",
        }
    }

    /// Whether this outcome should prompt the user to simply try again.
    pub open spec fn spec_should_retry(self) -> bool {
        self is AuthenticationRequired
    }

    /// Check if this error should trigger a retry prompt.
    pub fn should_retry(&self) -> (r: bool)
        ensures
            r == self.spec_should_retry(),
    {
        matches!(self, UiError::AuthenticationRequired)
    }

    /// Derive the user-facing outcome from a core error: authentication
    /// problems ask the user to retry, an empty device id asks for input,
    /// and everything else surfaces the rendered message.
    pub fn from_tunnel_error(err: TunnelError) -> (u: UiError)
        ensures
            err is AwsAuth ==> u is AuthenticationRequired,
            err is InvalidDeviceId ==> u is EmptyDeviceId,
            err matches TunnelError::Connection { message } ==> u == (UiError::ConnectionFailed {
                message,
            }),
            !(err is AwsAuth) && !(err is InvalidDeviceId) && !(err is Connection) ==> (u matches
                UiError::ConnectionFailed { message: m } && m@ == spec_message(err)),
    {
        match err {
            TunnelError::AwsAuth { .. } => UiError::AuthenticationRequired,
            TunnelError::InvalidDeviceId { .. } => UiError::EmptyDeviceId,
            TunnelError::Connection { message } => UiError::ConnectionFailed { message },
            other => UiError::ConnectionFailed { message: other.message() },
        }
    }
}

impl From<TunnelError> for UiError {
    fn from(err: TunnelError) -> Self {
        UiError::from_tunnel_error(err)
    }
}

impl vstd::std_specs::convert::FromSpecImpl<TunnelError> for UiError {
    /// The catch-all arm of the conversion builds a fresh message string,
    /// whose identity a spec-level function cannot produce; the exact
    /// relation is stated on `UiError::from_tunnel_error` instead.
    open spec fn obeys_from_spec() -> bool {
        false
    }

    open spec fn from_spec(e: TunnelError) -> UiError {
        arbitrary()
    }
}

} // verus!

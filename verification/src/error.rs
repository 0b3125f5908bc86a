//! Error types of the library.
//!
//! Errors raised by the transport layer (I/O, SSH, UTF-8 decoding, regex
//! compilation) are carried as their rendered messages, so that every error
//! value is a plain value whose text can be reasoned about.

use vstd::prelude::*;

verus! {

/// The library's error type.
#[derive(Debug, Clone)]
pub enum NetsshError {
    IoError(String),
    SshError(String),
    AuthenticationError(String),
    ConnectionError(String),
    CommandError(String),
    ReadError(String),
    TimeoutError(String),
    SystemTimeError(String),
    WriteError(String),
    PatternError(String),
    DeviceError(String),
    UnsupportedDevice(String),
    Utf8Error(String),
    LogError(String),
    SshErrorNew(String),
    AuthError(String),
    ChannelError(String),
    PromptError(String),
    DisconnectError(String),
    ConfigError(String),
    SessionLogError(String),
    InvalidOperation(String),
    UnsupportedOperation(String),
    ConnectionFailed { addr: String, source: String },
    SshHandshakeFailed { source: String },
    AuthenticationFailed { username: String, source: String },
    ChannelFailed { message: String, source: Option<String> },
    RegexError(String),
    Timeout { action: String },
    OperationError(String),
    CommandErrorWithOutput { error_msg: String, output: String },
}

/// The rendered message of an error: a fixed prefix per kind followed by its details.
pub open spec fn error_message(e: NetsshError) -> Seq<char> {
    match e {
        NetsshError::IoError(s) => "IO error: "@ + s@,
        NetsshError::SshError(s) => "SSH error: "@ + s@,
        NetsshError::AuthenticationError(s) => "Authentication failed: "@ + s@,
        NetsshError::ConnectionError(s) => "Connection error: "@ + s@,
        NetsshError::CommandError(s) => "Command error: "@ + s@,
        NetsshError::ReadError(s) => "Read error: "@ + s@,
        NetsshError::TimeoutError(s) => "Timeout error: "@ + s@,
        NetsshError::SystemTimeError(s) => "System time error: "@ + s@,
        NetsshError::WriteError(s) => "Write error: "@ + s@,
        NetsshError::PatternError(s) => "Pattern match error: "@ + s@,
        NetsshError::DeviceError(s) => "Device error: "@ + s@,
        NetsshError::UnsupportedDevice(s) => "Unsupported device: "@ + s@,
        NetsshError::Utf8Error(s) => "UTF-8 error: "@ + s@,
        NetsshError::LogError(s) => "Logger error: "@ + s@,
        NetsshError::SshErrorNew(s) => "SSH error: "@ + s@,
        NetsshError::AuthError(s) => "Authentication error: "@ + s@,
        NetsshError::ChannelError(s) => "Channel error: "@ + s@,
        NetsshError::PromptError(s) => "Prompt error: "@ + s@,
        NetsshError::DisconnectError(s) => "Disconnect error: "@ + s@,
        NetsshError::ConfigError(s) => "Configuration error: "@ + s@,
        NetsshError::SessionLogError(s) => "Session log error: "@ + s@,
        NetsshError::InvalidOperation(s) => "Invalid operation: "@ + s@,
        NetsshError::UnsupportedOperation(s) => "Unsupported operation: "@ + s@,
        NetsshError::ConnectionFailed { addr, source } =>
            "Connection error: failed to connect to "@ + addr@ + ": "@ + source@,
        NetsshError::SshHandshakeFailed { source } => "SSH handshake failed: "@ + source@,
        NetsshError::AuthenticationFailed { username, source } =>
            "Authentication failed for user "@ + username@ + ": "@ + source@,
        NetsshError::ChannelFailed { message, source: _ } => "Channel operation failed: "@ + message@,
        NetsshError::RegexError(s) => "Regex error: "@ + s@,
        NetsshError::Timeout { action } => "Timeout occurred while "@ + action@,
        NetsshError::OperationError(s) => "Operation error: "@ + s@,
        NetsshError::CommandErrorWithOutput { error_msg, output: _ } => "Command error: "@ + error_msg@,
    }
}

fn prefixed(prefix: &str, detail: &String) -> (r: String)
    ensures
        r@ == prefix@ + detail@,
{
    let mut r = String::from_str(prefix);
    r.append(detail.as_str());
    r
}

impl NetsshError {
    /// The human readable message of this error.
    pub fn message(&self) -> (r: String)
        ensures
            r@ == error_message(*self),
    {
        match self {
            NetsshError::IoError(s) => prefixed("IO error: ", s),
            NetsshError::SshError(s) => prefixed("SSH error: ", s),
            NetsshError::AuthenticationError(s) => prefixed("Authentication failed: ", s),
            NetsshError::ConnectionError(s) => prefixed("Connection error: ", s),
            NetsshError::CommandError(s) => prefixed("Command error: ", s),
            NetsshError::ReadError(s) => prefixed("Read error: ", s),
            NetsshError::TimeoutError(s) => prefixed("Timeout error: ", s),
            NetsshError::SystemTimeError(s) => prefixed("System time error: ", s),
            NetsshError::WriteError(s) => prefixed("Write error: ", s),
            NetsshError::PatternError(s) => prefixed("Pattern match error: ", s),
            NetsshError::DeviceError(s) => prefixed("Device error: ", s),
            NetsshError::UnsupportedDevice(s) => prefixed("Unsupported device: ", s),
            NetsshError::Utf8Error(s) => prefixed("UTF-8 error: ", s),
            NetsshError::LogError(s) => prefixed("Logger error: ", s),
            NetsshError::SshErrorNew(s) => prefixed("SSH error: ", s),
            NetsshError::AuthError(s) => prefixed("Authentication error: ", s),
            NetsshError::ChannelError(s) => prefixed("Channel error: ", s),
            NetsshError::PromptError(s) => prefixed("Prompt error: ", s),
            NetsshError::DisconnectError(s) => prefixed("Disconnect error: ", s),
            NetsshError::ConfigError(s) => prefixed("Configuration error: ", s),
            NetsshError::SessionLogError(s) => prefixed("Session log error: ", s),
            NetsshError::InvalidOperation(s) => prefixed("Invalid operation: ", s),
            NetsshError::UnsupportedOperation(s) => prefixed("Unsupported operation: ", s),
            NetsshError::ConnectionFailed { addr, source } => {
                let mut r = prefixed("Connection error: failed to connect to ", addr);
                r.append(": ");
                r.append(source.as_str());
                r
            },
            NetsshError::SshHandshakeFailed { source } => prefixed("SSH handshake failed: ", source),
            NetsshError::AuthenticationFailed { username, source } => {
                let mut r = prefixed("Authentication failed for user ", username);
                r.append(": ");
                r.append(source.as_str());
                r
            },
            NetsshError::ChannelFailed { message, source: _ } => prefixed("Channel operation failed: ", message),
            NetsshError::RegexError(s) => prefixed("Regex error: ", s),
            NetsshError::Timeout { action } => prefixed("Timeout occurred while ", action),
            NetsshError::OperationError(s) => prefixed("Operation error: ", s),
            NetsshError::CommandErrorWithOutput { error_msg, output: _ } => prefixed("Command error: ", error_msg),
        }
    }

    /// A connection to `addr` could not be opened; `source` is the transport's message.
    pub fn connection_failed(addr: String, source: String) -> (r: Self)
        ensures
            r == (NetsshError::ConnectionFailed { addr, source }),
    {
        NetsshError::ConnectionFailed { addr, source }
    }

    /// The SSH handshake failed with the given transport message.
    pub fn ssh_handshake_failed(source: String) -> (r: Self)
        ensures
            r == (NetsshError::SshHandshakeFailed { source }),
    {
        NetsshError::SshHandshakeFailed { source }
    }

    /// Authentication of `username` failed with the given transport message.
    pub fn authentication_failed(username: String, source: String) -> (r: Self)
        ensures
            r == (NetsshError::AuthenticationFailed { username, source }),
    {
        NetsshError::AuthenticationFailed { username, source }
    }

    /// A channel operation failed.
    pub fn channel_failed(message: String, source: Option<String>) -> (r: Self)
        ensures
            r == (NetsshError::ChannelFailed { message, source }),
    {
        NetsshError::ChannelFailed { message, source }
    }

    /// An operation timed out while performing `action`.
    pub fn timeout(action: String) -> (r: Self)
        ensures
            r == (NetsshError::Timeout { action }),
    {
        NetsshError::Timeout { action }
    }

    /// A command failed; `error_msg` is the matched error text and `output` the device output.
    pub fn command_error_with_output(error_msg: String, output: String) -> (r: Self)
        ensures
            r == (NetsshError::CommandErrorWithOutput { error_msg, output }),
    {
        NetsshError::CommandErrorWithOutput { error_msg, output }
    }
}

} // verus!

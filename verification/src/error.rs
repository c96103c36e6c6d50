//! What can go wrong in a session, and the text reported to the host.

use vstd::prelude::*;

verus! {

/// The broad classes of failure.
#[derive(Clone, Copy, Debug, PartialEq, Eq, Structural)]
pub enum ErrorCategory {
    /// A configuration value was rejected before any I/O.
    InvalidArgument,
    /// No usable radio adapter.
    AdapterUnavailable,
    /// The serial port could not be opened or duplicated.
    PortOpenFailure,
    /// A write or a control-line change failed.
    IoFailure,
    /// The session or its worker has gone away.
    ChannelUnavailable,
    /// The session table could not be locked.
    LockFailure,
}

/// The configuration value that was rejected.
#[derive(Clone, Copy, Debug, PartialEq, Eq, Structural)]
pub enum ConfigField {
    Port,
    DataBits,
    StopBits,
    Parity,
    FlowControl,
}

/// The step of bringing up the radio adapter that failed.
#[derive(Clone, Copy, Debug, PartialEq, Eq, Structural)]
pub enum AdapterStage {
    Manager,
    Adapters,
    Events,
    Scan,
}

/// The step of claiming the serial port that failed.
#[derive(Clone, Copy, Debug, PartialEq, Eq, Structural)]
pub enum PortStage {
    Open,
    Duplicate,
}

/// The operation on an open port that failed.
#[derive(Clone, Copy, Debug, PartialEq, Eq, Structural)]
pub enum IoStage {
    Write,
    RequestToSend,
    DataTerminalReady,
}

/// A failure of a session operation. Variants with a `String` carry the text
/// that the transport gave.
#[derive(Clone, Debug, PartialEq, Eq)]
pub enum SessionError {
    InvalidArgument(ConfigField),
    NoAdapter,
    Adapter(AdapterStage, String),
    PortOpen(PortStage, String),
    Io(IoStage, String),
    /// The session was closed while a write waited for the output to drain.
    Closing,
    /// No session is registered under the key.
    NotConnected,
    /// The command queue of the session is closed.
    WriterUnavailable,
    /// The writer dropped the reply channel without answering.
    NoResponse,
    LockFailure,
}

/// The text that names the accepted values of a configuration field.
pub open spec fn invalid_argument_text(field: ConfigField) -> Seq<char> {
    match field {
        ConfigField::Port => "port is required"@,
        ConfigField::DataBits => "data_bits must be one of: 5, 6, 7, 8"@,
        ConfigField::StopBits => "stop_bits must be one of: 1, 2"@,
        ConfigField::Parity => "parity must be one of: none, odd, even"@,
        ConfigField::FlowControl => "flow_control must be one of: none, software, hardware"@,
    }
}

/// The text that introduces an adapter failure.
pub open spec fn adapter_prefix(stage: AdapterStage) -> Seq<char> {
    match stage {
        AdapterStage::Manager => "failed to create bluetooth manager: "@,
        AdapterStage::Adapters => "failed to get bluetooth adapters: "@,
        AdapterStage::Events => "failed to subscribe bluetooth events: "@,
        AdapterStage::Scan => "failed to start bluetooth scan: "@,
    }
}

/// The text that introduces a failure to claim the port.
pub open spec fn port_prefix(stage: PortStage) -> Seq<char> {
    match stage {
        PortStage::Open => "failed to open serial port: "@,
        PortStage::Duplicate => "failed to clone serial port: "@,
    }
}

/// The text that introduces a failure on an open port.
pub open spec fn io_prefix(stage: IoStage) -> Seq<char> {
    match stage {
        IoStage::Write => "failed to write serial data: "@,
        IoStage::RequestToSend => "failed to set RTS: "@,
        IoStage::DataTerminalReady => "failed to set DTR: "@,
    }
}

impl SessionError {
    /// The class a failure belongs to.
    pub open spec fn category_of(self) -> ErrorCategory {
        match self {
            SessionError::InvalidArgument(_) => ErrorCategory::InvalidArgument,
            SessionError::NoAdapter => ErrorCategory::AdapterUnavailable,
            SessionError::Adapter(_, _) => ErrorCategory::AdapterUnavailable,
            SessionError::PortOpen(_, _) => ErrorCategory::PortOpenFailure,
            SessionError::Io(_, _) => ErrorCategory::IoFailure,
            SessionError::Closing => ErrorCategory::IoFailure,
            SessionError::NotConnected => ErrorCategory::ChannelUnavailable,
            SessionError::WriterUnavailable => ErrorCategory::ChannelUnavailable,
            SessionError::NoResponse => ErrorCategory::ChannelUnavailable,
            SessionError::LockFailure => ErrorCategory::LockFailure,
        }
    }

    /// The text reported to the host.
    pub open spec fn text(self) -> Seq<char> {
        match self {
            SessionError::InvalidArgument(field) => invalid_argument_text(field),
            SessionError::NoAdapter => "no bluetooth adapter found"@,
            SessionError::Adapter(stage, detail) => adapter_prefix(stage) + detail@,
            SessionError::PortOpen(stage, detail) => port_prefix(stage) + detail@,
            SessionError::Io(stage, detail) => io_prefix(stage) + detail@,
            SessionError::Closing => "serial is closing"@,
            SessionError::NotConnected => "serial is not connected"@,
            SessionError::WriterUnavailable => "serial writer is unavailable"@,
            SessionError::NoResponse => "serial writer did not respond"@,
            SessionError::LockFailure => "failed to lock serial sessions"@,
        }
    }

    pub fn category(&self) -> (r: ErrorCategory)
        ensures
            r == self.category_of(),
    {
        match self {
            SessionError::InvalidArgument(_) => ErrorCategory::InvalidArgument,
            SessionError::NoAdapter => ErrorCategory::AdapterUnavailable,
            SessionError::Adapter(_, _) => ErrorCategory::AdapterUnavailable,
            SessionError::PortOpen(_, _) => ErrorCategory::PortOpenFailure,
            SessionError::Io(_, _) => ErrorCategory::IoFailure,
            SessionError::Closing => ErrorCategory::IoFailure,
            SessionError::NotConnected => ErrorCategory::ChannelUnavailable,
            SessionError::WriterUnavailable => ErrorCategory::ChannelUnavailable,
            SessionError::NoResponse => ErrorCategory::ChannelUnavailable,
            SessionError::LockFailure => ErrorCategory::LockFailure,
        }
    }

    pub fn message(&self) -> (r: String)
        ensures
            r@ == self.text(),
    {
        match self {
            SessionError::InvalidArgument(field) => {
                let fixed: &str = match field {
                    ConfigField::Port => "port is required",
                    ConfigField::DataBits => "data_bits must be one of: 5, 6, 7, 8",
                    ConfigField::StopBits => "stop_bits must be one of: 1, 2",
                    ConfigField::Parity => "parity must be one of: none, odd, even",
                    ConfigField::FlowControl =>
                        "flow_control must be one of: none, software, hardware",
                };
                fixed.to_owned()
            },
            SessionError::NoAdapter => "no bluetooth adapter found".to_owned(),
            SessionError::Adapter(stage, detail) => {
                let prefix: &str = match stage {
                    AdapterStage::Manager => "failed to create bluetooth manager: ",
                    AdapterStage::Adapters => "failed to get bluetooth adapters: ",
                    AdapterStage::Events => "failed to subscribe bluetooth events: ",
                    AdapterStage::Scan => "failed to start bluetooth scan: ",
                };
                prefix.to_owned().concat(detail.as_str())
            },
            SessionError::PortOpen(stage, detail) => {
                let prefix: &str = match stage {
                    PortStage::Open => "failed to open serial port: ",
                    PortStage::Duplicate => "failed to clone serial port: ",
                };
                prefix.to_owned().concat(detail.as_str())
            },
            SessionError::Io(stage, detail) => {
                let prefix: &str = match stage {
                    IoStage::Write => "failed to write serial data: ",
                    IoStage::RequestToSend => "failed to set RTS: ",
                    IoStage::DataTerminalReady => "failed to set DTR: ",
                };
                prefix.to_owned().concat(detail.as_str())
            },
            SessionError::Closing => "serial is closing".to_owned(),
            SessionError::NotConnected => "serial is not connected".to_owned(),
            SessionError::WriterUnavailable => "serial writer is unavailable".to_owned(),
            SessionError::NoResponse => "serial writer did not respond".to_owned(),
            SessionError::LockFailure => "failed to lock serial sessions".to_owned(),
        }
    }
}

} // verus!

//! Serial transport adapter: turns the settings a host supplies into transport
//! settings, and rejects every value outside the accepted sets before any
//! port is touched.

use vstd::prelude::*;
use crate::error::{ConfigField, ErrorCategory, SessionError};
use crate::text::{ascii_lowercase, spells, to_ascii_lowercase};

verus! {

/// Number of data bits per character.
#[derive(Clone, Copy, Debug, PartialEq, Eq, Structural)]
pub enum DataBits {
    Five,
    Six,
    Seven,
    Eight,
}

/// Number of stop bits after each character.
#[derive(Clone, Copy, Debug, PartialEq, Eq, Structural)]
pub enum StopBits {
    One,
    Two,
}

/// Parity checking mode.
#[derive(Clone, Copy, Debug, PartialEq, Eq, Structural)]
pub enum Parity {
    Off,
    Odd,
    Even,
}

/// Flow control mode.
#[derive(Clone, Copy, Debug, PartialEq, Eq, Structural)]
pub enum FlowControl {
    Off,
    Software,
    Hardware,
}

/// The data-bits setting that a number stands for, if any.
pub open spec fn data_bits_of(bits: u8) -> Option<DataBits> {
    if bits == 5 {
        Some(DataBits::Five)
    } else if bits == 6 {
        Some(DataBits::Six)
    } else if bits == 7 {
        Some(DataBits::Seven)
    } else if bits == 8 {
        Some(DataBits::Eight)
    } else {
        None
    }
}

/// The stop-bits setting that a number stands for, if any.
pub open spec fn stop_bits_of(bits: u8) -> Option<StopBits> {
    if bits == 1 {
        Some(StopBits::One)
    } else if bits == 2 {
        Some(StopBits::Two)
    } else {
        None
    }
}

/// The parity mode that a name stands for, if any. Letter case is ignored.
pub open spec fn parity_named(name: Seq<char>) -> Option<Parity> {
    let folded = ascii_lowercase(name);
    if folded == "none"@ {
        Some(Parity::Off)
    } else if folded == "odd"@ {
        Some(Parity::Odd)
    } else if folded == "even"@ {
        Some(Parity::Even)
    } else {
        None
    }
}

/// The flow-control mode that a name stands for, if any. Letter case is ignored.
pub open spec fn flow_control_named(name: Seq<char>) -> Option<FlowControl> {
    let folded = ascii_lowercase(name);
    if folded == "none"@ {
        Some(FlowControl::Off)
    } else if folded == "software"@ {
        Some(FlowControl::Software)
    } else if folded == "hardware"@ {
        Some(FlowControl::Hardware)
    } else {
        None
    }
}

/// A recognised value, or the rejection of `field`.
pub open spec fn accepted_or<T>(value: Option<T>, field: ConfigField) -> Result<T, SessionError> {
    match value {
        Some(v) => Ok(v),
        None => Err(SessionError::InvalidArgument(field)),
    }
}

pub fn parse_data_bits(bits: u8) -> (r: Result<DataBits, SessionError>)
    ensures
        r == accepted_or(data_bits_of(bits), ConfigField::DataBits),
        r is Ok <==> 5 <= bits <= 8,
{
    match bits {
        5 => Ok(DataBits::Five),
        6 => Ok(DataBits::Six),
        7 => Ok(DataBits::Seven),
        8 => Ok(DataBits::Eight),
        _ => Err(SessionError::InvalidArgument(ConfigField::DataBits)),
    }
}

pub fn parse_stop_bits(bits: u8) -> (r: Result<StopBits, SessionError>)
    ensures
        r == accepted_or(stop_bits_of(bits), ConfigField::StopBits),
        r is Ok <==> 1 <= bits <= 2,
{
    match bits {
        1 => Ok(StopBits::One),
        2 => Ok(StopBits::Two),
        _ => Err(SessionError::InvalidArgument(ConfigField::StopBits)),
    }
}

pub fn parse_parity(parity: &str) -> (r: Result<Parity, SessionError>)
    ensures
        r == accepted_or(parity_named(parity@), ConfigField::Parity),
{
    let folded = to_ascii_lowercase(parity);
    if spells(&folded, "none") {
        Ok(Parity::Off)
    } else if spells(&folded, "odd") {
        Ok(Parity::Odd)
    } else if spells(&folded, "even") {
        Ok(Parity::Even)
    } else {
        Err(SessionError::InvalidArgument(ConfigField::Parity))
    }
}

pub fn parse_flow_control(flow_control: &str) -> (r: Result<FlowControl, SessionError>)
    ensures
        r == accepted_or(flow_control_named(flow_control@), ConfigField::FlowControl),
{
    let folded = to_ascii_lowercase(flow_control);
    if spells(&folded, "none") {
        Ok(FlowControl::Off)
    } else if spells(&folded, "software") {
        Ok(FlowControl::Software)
    } else if spells(&folded, "hardware") {
        Ok(FlowControl::Hardware)
    } else {
        Err(SessionError::InvalidArgument(ConfigField::FlowControl))
    }
}

/// Validated settings of one serial session.
#[derive(Clone, Debug, PartialEq, Eq)]
pub struct SerialSessionConfig {
    pub port: String,
    pub baud_rate: u32,
    pub data_bits: DataBits,
    pub stop_bits: StopBits,
    pub parity: Parity,
    pub flow_control: FlowControl,
}

impl SerialSessionConfig {
    /// A configuration names a port.
    pub open spec fn wf(self) -> bool {
        self.port@.len() > 0
    }
}

/// The settings of a session as the host supplies them.
pub struct Settings {
    pub port: Seq<char>,
    pub baud_rate: u32,
    pub data_bits: u8,
    pub stop_bits: u8,
    pub parity: Seq<char>,
    pub flow_control: Seq<char>,
}

/// The first setting, in the order in which they are checked, that is not
/// accepted: the port name, then data bits, stop bits, parity, flow control.
pub open spec fn first_rejected(settings: Settings) -> Option<ConfigField> {
    if settings.port.len() == 0 {
        Some(ConfigField::Port)
    } else if data_bits_of(settings.data_bits) is None {
        Some(ConfigField::DataBits)
    } else if stop_bits_of(settings.stop_bits) is None {
        Some(ConfigField::StopBits)
    } else if parity_named(settings.parity) is None {
        Some(ConfigField::Parity)
    } else if flow_control_named(settings.flow_control) is None {
        Some(ConfigField::FlowControl)
    } else {
        None
    }
}

/// Whether `config` holds exactly what the settings stand for.
pub open spec fn config_matches(config: SerialSessionConfig, settings: Settings) -> bool {
    &&& config.port@ == settings.port
    &&& config.baud_rate == settings.baud_rate
    &&& data_bits_of(settings.data_bits) == Some(config.data_bits)
    &&& stop_bits_of(settings.stop_bits) == Some(config.stop_bits)
    &&& parity_named(settings.parity) == Some(config.parity)
    &&& flow_control_named(settings.flow_control) == Some(config.flow_control)
}

/// Whether `outcome` is what validating the settings as a whole gives: the
/// rejection of the first setting that is not accepted, or else the
/// configuration that the settings stand for.
pub open spec fn validates_to(
    settings: Settings,
    outcome: Result<SerialSessionConfig, SessionError>,
) -> bool {
    match first_rejected(settings) {
        Some(field) => outcome == Err::<SerialSessionConfig, SessionError>(
            SessionError::InvalidArgument(field),
        ),
        None => outcome matches Ok(config) && config.wf() && config_matches(config, settings),
    }
}

/// Validates data bits, stop bits, parity and flow control, in this order,
/// for a port that is named.
fn validate_named(
    port: String,
    baud_rate: u32,
    data_bits: u8,
    stop_bits: u8,
    parity: &str,
    flow_control: &str,
) -> (r: Result<SerialSessionConfig, SessionError>)
    requires
        port@.len() > 0,
    ensures
        validates_to(
            (Settings {
                port: port@,
                baud_rate,
                data_bits,
                stop_bits,
                parity: parity@,
                flow_control: flow_control@,
            }),
            r,
        ),
{
    let data_bits = match parse_data_bits(data_bits) {
        Ok(v) => v,
        Err(e) => {
            return Err(e);
        },
    };
    let stop_bits = match parse_stop_bits(stop_bits) {
        Ok(v) => v,
        Err(e) => {
            return Err(e);
        },
    };
    let parity = match parse_parity(parity) {
        Ok(v) => v,
        Err(e) => {
            return Err(e);
        },
    };
    let flow_control = match parse_flow_control(flow_control) {
        Ok(v) => v,
        Err(e) => {
            return Err(e);
        },
    };
    Ok(SerialSessionConfig { port, baud_rate, data_bits, stop_bits, parity, flow_control })
}

/// Validates the settings of a session as a whole. The port name is checked
/// first, then data bits, stop bits, parity and flow control; the first
/// rejected setting is the one reported.
pub fn validate_config(
    port: &str,
    baud_rate: u32,
    data_bits: u8,
    stop_bits: u8,
    parity: &str,
    flow_control: &str,
) -> (r: Result<SerialSessionConfig, SessionError>)
    ensures
        validates_to(
            (Settings {
                port: port@,
                baud_rate,
                data_bits,
                stop_bits,
                parity: parity@,
                flow_control: flow_control@,
            }),
            r,
        ),
{
    if port.is_empty() {
        return Err(SessionError::InvalidArgument(ConfigField::Port));
    }
    validate_named(port.to_owned(), baud_rate, data_bits, stop_bits, parity, flow_control)
}

/// A request to open a session whose port is named. Nothing else in it has
/// been looked at yet.
#[derive(Debug)]
pub struct OpenRequest {
    port: String,
    baud_rate: u32,
    data_bits: u8,
    stop_bits: u8,
    parity: String,
    flow_control: String,
}

impl View for OpenRequest {
    type V = Settings;

    closed spec fn view(&self) -> Settings {
        Settings {
            port: self.port@,
            baud_rate: self.baud_rate,
            data_bits: self.data_bits,
            stop_bits: self.stop_bits,
            parity: self.parity@,
            flow_control: self.flow_control@,
        }
    }
}

impl OpenRequest {
    #[verifier::type_invariant]
    closed spec fn names_port(&self) -> bool {
        self.port@.len() > 0
    }

    /// Takes the settings that the host supplies. An empty port name is
    /// rejected here, before any session is touched; the other settings are
    /// validated when the request is carried out.
    pub fn new(
        port: String,
        baud_rate: u32,
        data_bits: u8,
        stop_bits: u8,
        parity: String,
        flow_control: String,
    ) -> (r: Result<OpenRequest, SessionError>)
        ensures
            match r {
                Ok(request) => port@.len() > 0 && request@ == (Settings {
                    port: port@,
                    baud_rate,
                    data_bits,
                    stop_bits,
                    parity: parity@,
                    flow_control: flow_control@,
                }),
                Err(e) => port@.len() == 0 && e == SessionError::InvalidArgument(
                    ConfigField::Port,
                ),
            },
    {
        if port.as_str().is_empty() {
            return Err(SessionError::InvalidArgument(ConfigField::Port));
        }
        Ok(OpenRequest { port, baud_rate, data_bits, stop_bits, parity, flow_control })
    }

    /// Validates the settings of the request as a whole.
    pub fn validate(self) -> (r: Result<SerialSessionConfig, SessionError>)
        ensures
            self@.port.len() > 0,
            validates_to(self@, r),
    {
        proof {
            use_type_invariant(&self);
        }
        validate_named(
            self.port,
            self.baud_rate,
            self.data_bits,
            self.stop_bits,
            self.parity.as_str(),
            self.flow_control.as_str(),
        )
    }
}

/// Whether a name, letter case aside, is one of the parity names.
pub open spec fn names_parity(name: Seq<char>) -> bool {
    let folded = ascii_lowercase(name);
    folded == "none"@ || folded == "odd"@ || folded == "even"@
}

/// Whether a name, letter case aside, is one of the flow-control names.
pub open spec fn names_flow_control(name: Seq<char>) -> bool {
    let folded = ascii_lowercase(name);
    folded == "none"@ || folded == "software"@ || folded == "hardware"@
}

/// Exactly the values of the four enumerated sets are mapped to a setting.
/// With a port name, every combination drawn from the sets is accepted as a
/// whole, and every combination with a value outside its set is rejected as
/// an invalid argument.
pub proof fn law_enumerated_sets(settings: Settings)
    ensures
        data_bits_of(settings.data_bits) is Some <==> 5 <= settings.data_bits <= 8,
        stop_bits_of(settings.stop_bits) is Some <==> 1 <= settings.stop_bits <= 2,
        parity_named(settings.parity) is Some <==> names_parity(settings.parity),
        flow_control_named(settings.flow_control) is Some <==> names_flow_control(
            settings.flow_control,
        ),
        first_rejected(settings) is None <==> settings.port.len() > 0 && 5 <= settings.data_bits
            <= 8 && 1 <= settings.stop_bits <= 2 && names_parity(settings.parity)
            && names_flow_control(settings.flow_control),
        forall|outcome: Result<SerialSessionConfig, SessionError>|
            #![trigger validates_to(settings, outcome)]
            validates_to(settings, outcome) ==> (outcome is Ok <==> first_rejected(settings)
                is None) && (outcome matches Err(e) ==> e.category_of()
                == ErrorCategory::InvalidArgument),
{
}

} // verus!

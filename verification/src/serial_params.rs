//! Serial-line parameters and their text forms.
use vstd::prelude::*;
use crate::text::{
    ascii_upper,
    decimal_text,
    upper_text,
    text_eq,
    to_uppercase,
    u8_decimal,
};

verus! {

/// Number of data bits in a character.
#[derive(Debug, Clone, Copy, PartialEq, Eq, Structural)]
pub enum DataBits {
    Five,
    Six,
    Seven,
    Eight,
}

/// Number of stop bits after a character.
#[derive(Debug, Clone, Copy, PartialEq, Eq, Structural)]
pub enum StopBits {
    One,
    Two,
}

/// Parity checking mode.
#[derive(Debug, Clone, Copy, PartialEq, Eq, Structural)]
pub enum Parity {
    /// No parity bit.
    NoParity,
    Odd,
    Even,
}

/// Flow-control mode.
#[derive(Debug, Clone, Copy, PartialEq, Eq, Structural)]
pub enum FlowControl {
    /// No flow control.
    NoFlowControl,
    Software,
    Hardware,
}

/// Default baud rate of a serial connection request: 9600.
pub fn default_baud_rate() -> (rate: u32)
    ensures
        rate == 9600,
{
    9600
}

/// Default data bits of a serial connection request: 8.
pub fn default_data_bits() -> (bits: u8)
    ensures
        bits == 8,
{
    8
}

/// Default stop bits of a serial connection request: 1.
pub fn default_stop_bits() -> (bits: u8)
    ensures
        bits == 1,
{
    1
}

/// Default parity of a serial connection request: `"None"`.
pub fn default_parity() -> (parity: String)
    ensures
        parity@ == "None"@,
{
    String::from_str("None")
}

/// Default flow control of a serial connection request: `"None"`.
pub fn default_flow_control() -> (flow: String)
    ensures
        flow@ == "None"@,
{
    String::from_str("None")
}

/// The data-bits setting that a number names, if any.
pub open spec fn spec_data_bits(value: u8) -> Option<DataBits> {
    if value == 5 {
        Some(DataBits::Five)
    } else if value == 6 {
        Some(DataBits::Six)
    } else if value == 7 {
        Some(DataBits::Seven)
    } else if value == 8 {
        Some(DataBits::Eight)
    } else {
        None
    }
}

/// The stop-bits setting that a number names, if any.
pub open spec fn spec_stop_bits(value: u8) -> Option<StopBits> {
    if value == 1 {
        Some(StopBits::One)
    } else if value == 2 {
        Some(StopBits::Two)
    } else {
        None
    }
}

/// The parity that an upper-cased name denotes, if any.
pub open spec fn spec_parity_of_upper(upper: Seq<char>) -> Option<Parity> {
    if upper == "NONE"@ || upper == "N"@ {
        Some(Parity::NoParity)
    } else if upper == "ODD"@ || upper == "O"@ {
        Some(Parity::Odd)
    } else if upper == "EVEN"@ || upper == "E"@ {
        Some(Parity::Even)
    } else {
        None
    }
}

/// The flow control that an upper-cased name denotes, if any.
pub open spec fn spec_flow_control_of_upper(upper: Seq<char>) -> Option<FlowControl> {
    if upper == "NONE"@ {
        Some(FlowControl::NoFlowControl)
    } else if upper == "RTS/CTS"@ || upper == "HARDWARE"@ {
        Some(FlowControl::Hardware)
    } else if upper == "XON/XOFF"@ || upper == "SOFTWARE"@ {
        Some(FlowControl::Software)
    } else {
        None
    }
}

/// The message for a data-bits number outside 5..=8.
pub open spec fn data_bits_error(value: u8) -> Seq<char> {
    "Invalid data_bits value "@ + decimal_text(value as nat) + ", must be 5-8"@
}

/// The message for a stop-bits number other than 1 and 2.
pub open spec fn stop_bits_error(value: u8) -> Seq<char> {
    "Invalid stop_bits value "@ + decimal_text(value as nat) + ", must be 1 or 2"@
}

/// The message for an unknown parity name, quoting it upper-cased.
pub open spec fn parity_error(upper: Seq<char>) -> Seq<char> {
    "Invalid parity '"@ + upper + "', expected None/Odd/Even"@
}

/// The message for an unknown flow-control name, quoting it upper-cased.
pub open spec fn flow_control_error(upper: Seq<char>) -> Seq<char> {
    "Invalid flow_control '"@ + upper + "', expected None/Hardware/Software"@
}

/// Reads a data-bits number: 5, 6, 7 or 8.
pub fn parse_data_bits(value: u8) -> (r: Result<DataBits, String>)
    ensures
        match spec_data_bits(value) {
            Some(b) => r == Ok::<DataBits, String>(b),
            None => r matches Err(m) && m@ == data_bits_error(value),
        },
{
    match value {
        5 => Ok(DataBits::Five),
        6 => Ok(DataBits::Six),
        7 => Ok(DataBits::Seven),
        8 => Ok(DataBits::Eight),
        _ => {
            let m = String::from_str("Invalid data_bits value ").concat(
                u8_decimal(value).as_str(),
            ).concat(", must be 5-8");
            Err(m)
        },
    }
}

/// Reads a stop-bits number: 1 or 2.
pub fn parse_stop_bits(value: u8) -> (r: Result<StopBits, String>)
    ensures
        match spec_stop_bits(value) {
            Some(b) => r == Ok::<StopBits, String>(b),
            None => r matches Err(m) && m@ == stop_bits_error(value),
        },
{
    match value {
        1 => Ok(StopBits::One),
        2 => Ok(StopBits::Two),
        _ => {
            let m = String::from_str("Invalid stop_bits value ").concat(
                u8_decimal(value).as_str(),
            ).concat(", must be 1 or 2");
            Err(m)
        },
    }
}

/// Reads a parity name, in any letter case: `None`/`N`, `Odd`/`O`, `Even`/`E`.
pub fn parse_parity(value: &str) -> (r: Result<Parity, String>)
    ensures
        match spec_parity_of_upper(upper_text(value@)) {
            Some(p) => r == Ok::<Parity, String>(p),
            None => r matches Err(m) && m@ == parity_error(upper_text(value@)),
        },
{
    let upper = to_uppercase(value);
    let u = upper.as_str();
    if text_eq(u, "NONE") || text_eq(u, "N") {
        Ok(Parity::NoParity)
    } else if text_eq(u, "ODD") || text_eq(u, "O") {
        Ok(Parity::Odd)
    } else if text_eq(u, "EVEN") || text_eq(u, "E") {
        Ok(Parity::Even)
    } else {
        Err(String::from_str("Invalid parity '").concat(u).concat("', expected None/Odd/Even"))
    }
}

/// Reads a flow-control name, in any letter case: `None`,
/// `RTS/CTS`/`Hardware`, `XON/XOFF`/`Software`.
pub fn parse_flow_control(value: &str) -> (r: Result<FlowControl, String>)
    ensures
        match spec_flow_control_of_upper(upper_text(value@)) {
            Some(f) => r == Ok::<FlowControl, String>(f),
            None => r matches Err(m) && m@ == flow_control_error(upper_text(value@)),
        },
{
    let upper = to_uppercase(value);
    let u = upper.as_str();
    if text_eq(u, "NONE") {
        Ok(FlowControl::NoFlowControl)
    } else if text_eq(u, "RTS/CTS") || text_eq(u, "HARDWARE") {
        Ok(FlowControl::Hardware)
    } else if text_eq(u, "XON/XOFF") || text_eq(u, "SOFTWARE") {
        Ok(FlowControl::Software)
    } else {
        Err(
            String::from_str("Invalid flow_control '").concat(u).concat(
                "', expected None/Hardware/Software",
            ),
        )
    }
}

/// The defaults of a serial connection request are all accepted: 8 data
/// bits, 1 stop bit, no parity, no flow control.
pub proof fn lemma_serial_defaults_accepted()
    ensures
        spec_data_bits(8) == Some(DataBits::Eight),
        spec_stop_bits(1) == Some(StopBits::One),
        spec_parity_of_upper(upper_text("None"@)) == Some(Parity::NoParity),
        spec_flow_control_of_upper(upper_text("None"@)) == Some(FlowControl::NoFlowControl),
{
    reveal_strlit("None");
    reveal_strlit("NONE");
    assert(vstd::utf8::is_ascii_chars("None"@));
    assert(ascii_upper("None"@) =~= "NONE"@);
}

/// How many data bits a setting stands for.
pub open spec fn data_bit_count(bits: DataBits) -> u8 {
    match bits {
        DataBits::Five => 5,
        DataBits::Six => 6,
        DataBits::Seven => 7,
        DataBits::Eight => 8,
    }
}

/// How many stop bits a setting stands for.
pub open spec fn stop_bit_count(bits: StopBits) -> u8 {
    match bits {
        StopBits::One => 1,
        StopBits::Two => 2,
    }
}

/// A data-bits number is accepted exactly when it lies in 5..=8, and then
/// it is read as the setting with that many bits.
pub proof fn lemma_data_bits_read_as_their_number(value: u8)
    ensures
        spec_data_bits(value) is Some <==> 5 <= value <= 8,
        spec_data_bits(value) matches Some(b) ==> data_bit_count(b) == value,
{
}

/// A stop-bits number is accepted exactly when it is 1 or 2, and then it is
/// read as the setting with that many bits.
pub proof fn lemma_stop_bits_read_as_their_number(value: u8)
    ensures
        spec_stop_bits(value) is Some <==> (value == 1 || value == 2),
        spec_stop_bits(value) matches Some(b) ==> stop_bit_count(b) == value,
{
}

/// Each parity mode is named by its own names and by no other text:
/// `NONE`/`N` name no parity, `ODD`/`O` odd parity, `EVEN`/`E` even parity
/// (upper-cased, so `even`, `Even` and `e` read as even parity).
pub proof fn lemma_parity_names(upper: Seq<char>)
    ensures
        spec_parity_of_upper(upper) == Some(Parity::NoParity) <==> (upper == "NONE"@ || upper
            == "N"@),
        spec_parity_of_upper(upper) == Some(Parity::Odd) <==> (upper == "ODD"@ || upper == "O"@),
        spec_parity_of_upper(upper) == Some(Parity::Even) <==> (upper == "EVEN"@ || upper
            == "E"@),
{
    reveal_strlit("NONE");
    reveal_strlit("N");
    reveal_strlit("ODD");
    reveal_strlit("O");
    reveal_strlit("EVEN");
    reveal_strlit("E");
    assert("O"@[0] != "N"@[0]);
    assert("E"@[0] != "N"@[0] && "E"@[0] != "O"@[0]);
    assert("ODD"@.len() != "NONE"@.len());
    assert("EVEN"@[0] != "NONE"@[0]);
}

/// Each flow-control mode is named by its own names and by no other text:
/// `NONE` names none, `RTS/CTS`/`HARDWARE` hardware flow control,
/// `XON/XOFF`/`SOFTWARE` software flow control.
pub proof fn lemma_flow_control_names(upper: Seq<char>)
    ensures
        spec_flow_control_of_upper(upper) == Some(FlowControl::NoFlowControl) <==> upper
            == "NONE"@,
        spec_flow_control_of_upper(upper) == Some(FlowControl::Hardware) <==> (upper
            == "RTS/CTS"@ || upper == "HARDWARE"@),
        spec_flow_control_of_upper(upper) == Some(FlowControl::Software) <==> (upper
            == "XON/XOFF"@ || upper == "SOFTWARE"@),
{
    reveal_strlit("NONE");
    reveal_strlit("RTS/CTS");
    reveal_strlit("HARDWARE");
    reveal_strlit("XON/XOFF");
    reveal_strlit("SOFTWARE");
    assert("RTS/CTS"@.len() != "NONE"@.len());
    assert("HARDWARE"@.len() != "NONE"@.len());
    assert("XON/XOFF"@[0] != "NONE"@[0] && "XON/XOFF"@[0] != "HARDWARE"@[0]);
    assert("XON/XOFF"@.len() != "RTS/CTS"@.len());
    assert("SOFTWARE"@[0] != "NONE"@[0] && "SOFTWARE"@[0] != "HARDWARE"@[0]);
    assert("SOFTWARE"@.len() != "RTS/CTS"@.len());
}

} // verus!

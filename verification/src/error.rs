use vstd::prelude::*;

verus! {

/// Every failure the library reports.
#[derive(Debug, PartialEq, Eq)]
pub enum RBFRTError {
    ConnectionError { ip: String, port: u16, orig_e: String },
    GetForwardingPipelineError { device_id: u32, client_id: u32, orig_e: String },
    P4ProgramError { name: String },
    PipeError { pipe_id: u8 },
    UnknownActionId { action_id: u32 },
    UnknownActionName { name: String },
    UnknownSingletonName { name: String },
    UnknownSingletonId { id: u32 },
    UnknownKeyId { id: u32, table_name: String },
    UnknownKeyName { name: String, table_name: String },
    UnknownTable { table_name: String },
    UnknownTableId { table_id: u32 },
    UnknownReadResult {  },
    UnknownLearnFilter { filter_id: u32 },
    UnknownLearnFilterField { field_id: u32 },
    ConvertError { value: Vec<u8>, name: String, width: u32 },
    UnknownActionDataId { id: u32, action_name: String },
    UnknownActionDataName { name: String, action_name: String },
    PortNotFound { name: String },
    GRPCError { message: String, details: String },
    MissingRegisterIndex,
    ByteConversionError { target: String, orig_e: String },
    RequestEmpty {  },
    GenericError { message: String },
    /// A field's declared type has no encoding or decoding rule.
    UnsupportedType { name: String },
    /// A table entry came back without its data payload.
    MalformedReadResult {  },
    /// The session could not be established.
    HandshakeError { message: String },
}

/// An error with its texts and bytes as plain sequences.
pub enum ErrorSpec {
    ConnectionError { ip: Seq<char>, port: u16, orig_e: Seq<char> },
    GetForwardingPipelineError { device_id: u32, client_id: u32, orig_e: Seq<char> },
    P4ProgramError { name: Seq<char> },
    PipeError { pipe_id: u8 },
    UnknownActionId { action_id: u32 },
    UnknownActionName { name: Seq<char> },
    UnknownSingletonName { name: Seq<char> },
    UnknownSingletonId { id: u32 },
    UnknownKeyId { id: u32, table_name: Seq<char> },
    UnknownKeyName { name: Seq<char>, table_name: Seq<char> },
    UnknownTable { table_name: Seq<char> },
    UnknownTableId { table_id: u32 },
    UnknownReadResult,
    UnknownLearnFilter { filter_id: u32 },
    UnknownLearnFilterField { field_id: u32 },
    ConvertError { value: Seq<u8>, name: Seq<char>, width: u32 },
    UnknownActionDataId { id: u32, action_name: Seq<char> },
    UnknownActionDataName { name: Seq<char>, action_name: Seq<char> },
    PortNotFound { name: Seq<char> },
    GRPCError { message: Seq<char>, details: Seq<char> },
    MissingRegisterIndex,
    ByteConversionError { target: Seq<char>, orig_e: Seq<char> },
    RequestEmpty,
    GenericError { message: Seq<char> },
    UnsupportedType { name: Seq<char> },
    MalformedReadResult,
    HandshakeError { message: Seq<char> },
}

impl View for RBFRTError {
    type V = ErrorSpec;

    open spec fn view(&self) -> ErrorSpec {
        match self {
            RBFRTError::ConnectionError { ip, port, orig_e } => ErrorSpec::ConnectionError {
                ip: ip@,
                port: *port,
                orig_e: orig_e@,
            },
            RBFRTError::GetForwardingPipelineError { device_id, client_id, orig_e } =>
                ErrorSpec::GetForwardingPipelineError {
                device_id: *device_id,
                client_id: *client_id,
                orig_e: orig_e@,
            },
            RBFRTError::P4ProgramError { name } => ErrorSpec::P4ProgramError { name: name@ },
            RBFRTError::PipeError { pipe_id } => ErrorSpec::PipeError { pipe_id: *pipe_id },
            RBFRTError::UnknownActionId { action_id } => ErrorSpec::UnknownActionId { action_id: *action_id },
            RBFRTError::UnknownActionName { name } => ErrorSpec::UnknownActionName { name: name@ },
            RBFRTError::UnknownSingletonName { name } => ErrorSpec::UnknownSingletonName { name: name@ },
            RBFRTError::UnknownSingletonId { id } => ErrorSpec::UnknownSingletonId { id: *id },
            RBFRTError::UnknownKeyId { id, table_name } => ErrorSpec::UnknownKeyId {
                id: *id,
                table_name: table_name@,
            },
            RBFRTError::UnknownKeyName { name, table_name } => ErrorSpec::UnknownKeyName {
                name: name@,
                table_name: table_name@,
            },
            RBFRTError::UnknownTable { table_name } => ErrorSpec::UnknownTable { table_name: table_name@ },
            RBFRTError::UnknownTableId { table_id } => ErrorSpec::UnknownTableId { table_id: *table_id },
            RBFRTError::UnknownReadResult {  } => ErrorSpec::UnknownReadResult,
            RBFRTError::UnknownLearnFilter { filter_id } => ErrorSpec::UnknownLearnFilter {
                filter_id: *filter_id,
            },
            RBFRTError::UnknownLearnFilterField { field_id } => ErrorSpec::UnknownLearnFilterField {
                field_id: *field_id,
            },
            RBFRTError::ConvertError { value, name, width } => ErrorSpec::ConvertError {
                value: value@,
                name: name@,
                width: *width,
            },
            RBFRTError::UnknownActionDataId { id, action_name } => ErrorSpec::UnknownActionDataId {
                id: *id,
                action_name: action_name@,
            },
            RBFRTError::UnknownActionDataName { name, action_name } => ErrorSpec::UnknownActionDataName {
                name: name@,
                action_name: action_name@,
            },
            RBFRTError::PortNotFound { name } => ErrorSpec::PortNotFound { name: name@ },
            RBFRTError::GRPCError { message, details } => ErrorSpec::GRPCError {
                message: message@,
                details: details@,
            },
            RBFRTError::MissingRegisterIndex => ErrorSpec::MissingRegisterIndex,
            RBFRTError::ByteConversionError { target, orig_e } => ErrorSpec::ByteConversionError {
                target: target@,
                orig_e: orig_e@,
            },
            RBFRTError::RequestEmpty {  } => ErrorSpec::RequestEmpty,
            RBFRTError::GenericError { message } => ErrorSpec::GenericError { message: message@ },
            RBFRTError::UnsupportedType { name } => ErrorSpec::UnsupportedType { name: name@ },
            RBFRTError::MalformedReadResult {  } => ErrorSpec::MalformedReadResult,
            RBFRTError::HandshakeError { message } => ErrorSpec::HandshakeError { message: message@ },
        }
    }
}

/// A result with both sides taken by their views.
pub open spec fn result_view<T: View>(r: Result<T, RBFRTError>) -> Result<T::V, ErrorSpec> {
    match r {
        Ok(v) => Ok(v@),
        Err(e) => Err(e@),
    }
}

} // verus!

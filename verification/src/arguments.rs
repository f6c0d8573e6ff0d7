//! Reading the arguments of a tool call into the typed parameters of the
//! tool. Arguments are the members of an object; members that a tool does
//! not know are ignored.

use crate::json::{find, lookup, Member, Number, Value};
use crate::tools::document::text_of;
use crate::tools::session::DocumentSource;
use vstd::prelude::*;
use vstd::string::StringExecFns;

verus! {

/// Why a call could not be handed to a tool at all. This is a fault of
/// the caller's request, unlike the failure of a tool that ran.
#[derive(Debug)]
pub enum ProtocolFault {
    /// No tool has this name.
    UnknownTool(String),
    /// The arguments lack this field.
    MissingField(String),
    /// This field holds a value of the wrong kind, or out of range.
    InvalidField(String),
}

/// The mathematical content of a [`ProtocolFault`].
pub enum FaultView {
    UnknownTool(Seq<char>),
    MissingField(Seq<char>),
    InvalidField(Seq<char>),
}

impl View for ProtocolFault {
    type V = FaultView;

    open spec fn view(&self) -> FaultView {
        match *self {
            ProtocolFault::UnknownTool(name) => FaultView::UnknownTool(name@),
            ProtocolFault::MissingField(name) => FaultView::MissingField(name@),
            ProtocolFault::InvalidField(name) => FaultView::InvalidField(name@),
        }
    }
}

/// Whether `outcome` is the fault `fault`.
pub open spec fn faults_with<T>(outcome: Result<T, ProtocolFault>, fault: FaultView) -> bool {
    outcome matches Err(found) && found@ == fault
}

/// The description of a fault.
pub open spec fn fault_text(fault: FaultView) -> Seq<char> {
    match fault {
        FaultView::UnknownTool(name) => "Unknown tool: "@ + name,
        FaultView::MissingField(name) => "missing field `"@ + name + "`"@,
        FaultView::InvalidField(name) => "invalid value for field `"@ + name + "`"@,
    }
}

impl ProtocolFault {
    /// The description of this fault, as it is shown to the caller.
    pub fn message(&self) -> (text: String)
        ensures
            text@ == fault_text(self@),
    {
        match self {
            ProtocolFault::UnknownTool(name) => {
                let mut text = String::from_str("Unknown tool: ");
                text.append(name.as_str());
                text
            },
            ProtocolFault::MissingField(name) => {
                let mut text = String::from_str("missing field `");
                text.append(name.as_str());
                text.append("`");
                text
            },
            ProtocolFault::InvalidField(name) => {
                let mut text = String::from_str("invalid value for field `");
                text.append(name.as_str());
                text.append("`");
                text
            },
        }
    }
}

/// Whether `read` is `wanted`, the fault or the text.
pub open spec fn is_text(
    read: Result<String, ProtocolFault>,
    wanted: Result<Seq<char>, FaultView>,
) -> bool {
    match read {
        Ok(text) => wanted == Ok::<Seq<char>, FaultView>(text@),
        Err(fault) => wanted == Err::<Seq<char>, FaultView>(fault@),
    }
}

/// Whether `read` is `wanted`, the fault or the text if there is one.
pub open spec fn is_optional_text(
    read: Result<Option<String>, ProtocolFault>,
    wanted: Result<Option<Seq<char>>, FaultView>,
) -> bool {
    match read {
        Ok(text) => wanted == Ok::<Option<Seq<char>>, FaultView>(text_of(text)),
        Err(fault) => wanted == Err::<Option<Seq<char>>, FaultView>(fault@),
    }
}

/// Whether `read` is `wanted`, the fault or the value.
pub open spec fn is_plain<T>(read: Result<T, ProtocolFault>, wanted: Result<T, FaultView>) -> bool {
    match read {
        Ok(value) => wanted == Ok::<T, FaultView>(value),
        Err(fault) => wanted == Err::<T, FaultView>(fault@),
    }
}

/// A text that must be there: a missing member and a member of another
/// kind are faults.
pub open spec fn text_field(members: Seq<Member>, name: Seq<char>) -> Result<Seq<char>, FaultView> {
    match lookup(members, name) {
        None => Err(FaultView::MissingField(name)),
        Some(Value::Text(text)) => Ok(text@),
        Some(_) => Err(FaultView::InvalidField(name)),
    }
}

/// A text that may be left out: a missing member and a null stand for no
/// text; a member of another kind is a fault.
pub open spec fn optional_text_field(members: Seq<Member>, name: Seq<char>) -> Result<
    Option<Seq<char>>,
    FaultView,
> {
    match lookup(members, name) {
        None => Ok(None),
        Some(Value::Null) => Ok(None),
        Some(Value::Text(text)) => Ok(Some(text@)),
        Some(_) => Err(FaultView::InvalidField(name)),
    }
}

/// A text with a default: a missing member stands for the default; a
/// member of another kind is a fault.
pub open spec fn text_field_or(members: Seq<Member>, name: Seq<char>, default: Seq<char>) -> Result<
    Seq<char>,
    FaultView,
> {
    match lookup(members, name) {
        None => Ok(default),
        Some(Value::Text(text)) => Ok(text@),
        Some(_) => Err(FaultView::InvalidField(name)),
    }
}

/// The 32-bit integer that a number stands for, if it is a whole number
/// in range.
pub open spec fn as_i32(number: Number) -> Option<i32> {
    match number {
        Number::Unsigned(n) => if n <= i32::MAX {
            Some(n as i32)
        } else {
            None
        },
        Number::Negative(n) => if i32::MIN <= n <= i32::MAX {
            Some(n as i32)
        } else {
            None
        },
        Number::Real(_) => None,
    }
}

/// A 32-bit integer that must be there: a missing member is a fault, and
/// so is anything but a whole number in range.
pub open spec fn i32_field(members: Seq<Member>, name: Seq<char>) -> Result<i32, FaultView> {
    match lookup(members, name) {
        None => Err(FaultView::MissingField(name)),
        Some(Value::Number(number)) => match as_i32(number) {
            Some(n) => Ok(n),
            None => Err(FaultView::InvalidField(name)),
        },
        Some(_) => Err(FaultView::InvalidField(name)),
    }
}

/// A number with a default: a missing member stands for the default; a
/// member of another kind is a fault.
pub open spec fn number_field_or(members: Seq<Member>, name: Seq<char>, default: Number) -> Result<
    Number,
    FaultView,
> {
    match lookup(members, name) {
        None => Ok(default),
        Some(Value::Number(number)) => Ok(number),
        Some(_) => Err(FaultView::InvalidField(name)),
    }
}

/// Reads a text that must be there.
pub fn read_text(members: &Vec<Member>, name: &str) -> (read: Result<String, ProtocolFault>)
    ensures
        is_text(read, text_field(members@, name@)),
{
    match find(members, name) {
        None => Err(ProtocolFault::MissingField(String::from_str(name))),
        Some(Value::Text(text)) => Ok(text.clone()),
        Some(_) => Err(ProtocolFault::InvalidField(String::from_str(name))),
    }
}

/// Reads a text that may be left out.
pub fn read_optional_text(members: &Vec<Member>, name: &str) -> (read: Result<
    Option<String>,
    ProtocolFault,
>)
    ensures
        is_optional_text(read, optional_text_field(members@, name@)),
{
    match find(members, name) {
        None => Ok(None),
        Some(Value::Null) => Ok(None),
        Some(Value::Text(text)) => Ok(Some(text.clone())),
        Some(_) => Err(ProtocolFault::InvalidField(String::from_str(name))),
    }
}

/// Reads a text with a default.
pub fn read_text_or(members: &Vec<Member>, name: &str, default: String) -> (read: Result<
    String,
    ProtocolFault,
>)
    ensures
        is_text(read, text_field_or(members@, name@, default@)),
{
    match find(members, name) {
        None => Ok(default),
        Some(Value::Text(text)) => Ok(text.clone()),
        Some(_) => Err(ProtocolFault::InvalidField(String::from_str(name))),
    }
}

/// Reads a 32-bit integer that must be there.
pub fn read_i32(members: &Vec<Member>, name: &str) -> (read: Result<i32, ProtocolFault>)
    ensures
        is_plain(read, i32_field(members@, name@)),
{
    match find(members, name) {
        None => Err(ProtocolFault::MissingField(String::from_str(name))),
        Some(Value::Number(Number::Unsigned(n))) => {
            if *n <= 0x7fff_ffff {
                Ok(*n as i32)
            } else {
                Err(ProtocolFault::InvalidField(String::from_str(name)))
            }
        },
        Some(Value::Number(Number::Negative(n))) => {
            if -0x8000_0000 <= *n && *n <= 0x7fff_ffff {
                Ok(*n as i32)
            } else {
                Err(ProtocolFault::InvalidField(String::from_str(name)))
            }
        },
        Some(_) => Err(ProtocolFault::InvalidField(String::from_str(name))),
    }
}

/// Reads a number with a default.
pub fn read_number_or(members: &Vec<Member>, name: &str, default: Number) -> (read: Result<
    Number,
    ProtocolFault,
>)
    ensures
        is_plain(read, number_field_or(members@, name@, default)),
{
    match find(members, name) {
        None => Ok(default),
        Some(Value::Number(number)) => Ok(*number),
        Some(_) => Err(ProtocolFault::InvalidField(String::from_str(name))),
    }
}

/// The mathematical content of a [`DocumentSource`].
pub enum SourceView {
    FilePath { path: Seq<char> },
    Base64 { base64: Seq<char>, filename: Option<Seq<char>> },
}

impl View for DocumentSource {
    type V = SourceView;

    open spec fn view(&self) -> SourceView {
        match *self {
            DocumentSource::FilePath { path } => SourceView::FilePath { path: path@ },
            DocumentSource::Base64 { base64, filename } => SourceView::Base64 {
                base64: base64@,
                filename: text_of(filename),
            },
        }
    }
}

/// The source that a value describes. An object with a text `path`
/// names a file. Failing that, an object with a text `base64`, and with a
/// `filename` that is a text, null or left out, carries the document
/// itself. Nothing else describes a source.
pub open spec fn source_in(value: Value) -> Option<SourceView> {
    match value {
        Value::Object(members) => match lookup(members@, "path"@) {
            Some(Value::Text(path)) => Some(SourceView::FilePath { path: path@ }),
            _ => match lookup(members@, "base64"@) {
                Some(Value::Text(base64)) => match optional_text_field(members@, "filename"@) {
                    Ok(filename) => Some(SourceView::Base64 { base64: base64@, filename }),
                    Err(_) => None,
                },
                _ => None,
            },
        },
        _ => None,
    }
}

/// A source that must be there: a missing member is a fault, and so is a
/// member that describes no source.
pub open spec fn source_field(members: Seq<Member>, name: Seq<char>) -> Result<
    SourceView,
    FaultView,
> {
    match lookup(members, name) {
        None => Err(FaultView::MissingField(name)),
        Some(value) => match source_in(value) {
            Some(source) => Ok(source),
            None => Err(FaultView::InvalidField(name)),
        },
    }
}

/// Reads the source that a value describes.
pub fn read_source_value(value: &Value) -> (read: Option<DocumentSource>)
    ensures
        match read {
            Some(source) => source_in(*value) == Some(source@),
            None => source_in(*value) is None,
        },
{
    match value {
        Value::Object(members) => {
            match find(members, "path") {
                Some(Value::Text(path)) => {
                    return Some(DocumentSource::FilePath { path: path.clone() });
                },
                _ => {},
            }
            match find(members, "base64") {
                Some(Value::Text(base64)) => match read_optional_text(members, "filename") {
                    Ok(filename) => Some(
                        DocumentSource::Base64 { base64: base64.clone(), filename },
                    ),
                    Err(_) => None,
                },
                _ => None,
            }
        },
        _ => None,
    }
}

/// Reads a source that must be there.
pub fn read_source(members: &Vec<Member>, name: &str) -> (read: Result<
    DocumentSource,
    ProtocolFault,
>)
    ensures
        match read {
            Ok(source) => source_field(members@, name@) == Ok::<SourceView, FaultView>(source@),
            Err(fault) => source_field(members@, name@) == Err::<SourceView, FaultView>(fault@),
        },
{
    match find(members, name) {
        None => Err(ProtocolFault::MissingField(String::from_str(name))),
        Some(value) => match read_source_value(value) {
            Some(source) => Ok(source),
            None => Err(ProtocolFault::InvalidField(String::from_str(name))),
        },
    }
}

} // verus!

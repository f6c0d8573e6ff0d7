//! The failures a tool call can end in, and their descriptions.

use crate::decimal::{int_digits, nat_digits, push_i32, push_nat_digits};
use vstd::prelude::*;
use vstd::string::StringExecFns;

verus! {

/// Why a text is not valid Base64.
#[derive(Clone, Copy, Debug, PartialEq, Eq, Structural)]
pub enum DecodeFailure {
    /// A symbol outside the alphabet, or padding where none may stand, at
    /// this offset.
    InvalidByte { offset: usize, byte: u8 },
    /// A number of symbols that no encoding has.
    InvalidLength(usize),
    /// A last symbol, at this offset, with bits set that encode nothing.
    InvalidLastSymbol { offset: usize, byte: u8 },
    /// Padding that is missing or not canonical.
    InvalidPadding,
}

/// The description of a Base64 failure, in the words of the decoder.
pub open spec fn failure_text(failure: DecodeFailure) -> Seq<char> {
    match failure {
        DecodeFailure::InvalidByte { offset, byte } => "Invalid symbol "@ + nat_digits(byte as nat)
            + ", offset "@ + nat_digits(offset as nat) + "."@,
        DecodeFailure::InvalidLength(length) => "Invalid input length: "@ + nat_digits(
            length as nat,
        ),
        DecodeFailure::InvalidLastSymbol { offset, byte } => "Invalid last symbol "@ + nat_digits(
            byte as nat,
        ) + ", offset "@ + nat_digits(offset as nat) + "."@,
        DecodeFailure::InvalidPadding => "Invalid padding"@,
    }
}

impl DecodeFailure {
    /// Appends the description of this failure to `out`.
    pub fn push_text(self, out: &mut String)
        ensures
            final(out)@ == old(out)@ + failure_text(self),
    {
        match self {
            DecodeFailure::InvalidByte { offset, byte } => {
                out.append("Invalid symbol ");
                push_nat_digits(out, byte as u64);
                out.append(", offset ");
                push_nat_digits(out, offset as u64);
                out.append(".");
                assert(out@ =~= old(out)@ + failure_text(self));
            },
            DecodeFailure::InvalidLength(length) => {
                out.append("Invalid input length: ");
                push_nat_digits(out, length as u64);
                assert(out@ =~= old(out)@ + failure_text(self));
            },
            DecodeFailure::InvalidLastSymbol { offset, byte } => {
                out.append("Invalid last symbol ");
                push_nat_digits(out, byte as u64);
                out.append(", offset ");
                push_nat_digits(out, offset as u64);
                out.append(".");
                assert(out@ =~= old(out)@ + failure_text(self));
            },
            DecodeFailure::InvalidPadding => {
                out.append("Invalid padding");
            },
        }
    }
}

/// Why a tool call failed.
#[derive(Debug)]
pub enum MupdfServerError {
    /// No open session has the given id.
    DocumentNotFound(String),
    /// The page index lies outside `0..total`.
    InvalidPageNumber { page: i32, total: i32, max: i32 },
    /// The document is encrypted and no password was given.
    PasswordRequired,
    /// The content engine rejected the password.
    InvalidPassword,
    /// The operation needs a PDF and the document is of another kind.
    NotAPdf,
    /// The requested text format is not one of `plain`, `html`, `json`, `xml`.
    InvalidTextFormat(String),
    /// The requested image format is not one of `png`, `svg`.
    InvalidImageFormat(String),
    /// The inline payload is not valid Base64.
    Base64Error(DecodeFailure),
    /// Reading the document failed; the text describes the failure.
    IoError(String),
    /// The content engine failed; the text describes the failure.
    MupdfError(String),
    /// A value could not be written as JSON; the text describes the failure.
    JsonError(String),
    /// A state that should be impossible was met.
    Internal(String),
}

/// The mathematical content of a [`MupdfServerError`].
pub enum ErrorView {
    DocumentNotFound(Seq<char>),
    InvalidPageNumber { page: int, total: int, max: int },
    PasswordRequired,
    InvalidPassword,
    NotAPdf,
    InvalidTextFormat(Seq<char>),
    InvalidImageFormat(Seq<char>),
    Base64Error(DecodeFailure),
    IoError(Seq<char>),
    MupdfError(Seq<char>),
    JsonError(Seq<char>),
    Internal(Seq<char>),
}

impl View for MupdfServerError {
    type V = ErrorView;

    open spec fn view(&self) -> ErrorView {
        match *self {
            MupdfServerError::DocumentNotFound(id) => ErrorView::DocumentNotFound(id@),
            MupdfServerError::InvalidPageNumber { page, total, max } => {
                ErrorView::InvalidPageNumber {
                    page: page as int,
                    total: total as int,
                    max: max as int,
                }
            },
            MupdfServerError::PasswordRequired => ErrorView::PasswordRequired,
            MupdfServerError::InvalidPassword => ErrorView::InvalidPassword,
            MupdfServerError::NotAPdf => ErrorView::NotAPdf,
            MupdfServerError::InvalidTextFormat(name) => ErrorView::InvalidTextFormat(name@),
            MupdfServerError::InvalidImageFormat(name) => ErrorView::InvalidImageFormat(name@),
            MupdfServerError::Base64Error(cause) => ErrorView::Base64Error(cause),
            MupdfServerError::IoError(text) => ErrorView::IoError(text@),
            MupdfServerError::MupdfError(text) => ErrorView::MupdfError(text@),
            MupdfServerError::JsonError(text) => ErrorView::JsonError(text@),
            MupdfServerError::Internal(text) => ErrorView::Internal(text@),
        }
    }
}

/// Whether `outcome` is the failure `e`.
pub open spec fn fails_with<T>(outcome: Result<T, MupdfServerError>, e: ErrorView) -> bool {
    outcome matches Err(err) && err@ == e
}

/// Whether `text` is the description of the failure `e`.
pub open spec fn describes(text: Seq<char>, e: ErrorView) -> bool {
    match e {
        ErrorView::DocumentNotFound(id) => text == "Document not found: "@ + id,
        ErrorView::InvalidPageNumber { page, total, max } => text == "Invalid page number: "@
            + int_digits(page) + " (document has "@ + int_digits(total)
            + " pages, valid range: 0-"@ + int_digits(max) + ")"@,
        ErrorView::PasswordRequired => text == "Password required for this document"@,
        ErrorView::InvalidPassword => text == "Invalid password"@,
        ErrorView::NotAPdf => text == "Document is not a PDF"@,
        ErrorView::InvalidTextFormat(name) => text == "Invalid text format: "@ + name
            + " (valid formats: plain, html, json, xml)"@,
        ErrorView::InvalidImageFormat(name) => text == "Invalid image format: "@ + name
            + " (valid formats: png, svg)"@,
        ErrorView::Base64Error(failure) => text == "Base64 decode error: "@ + failure_text(failure),
        ErrorView::IoError(cause) => text == "IO error: "@ + cause,
        ErrorView::MupdfError(cause) => text == "MuPDF error: "@ + cause,
        ErrorView::JsonError(cause) => text == "JSON error: "@ + cause,
        ErrorView::Internal(cause) => text == "Internal error: "@ + cause,
    }
}

fn labelled(label: &str, detail: &str) -> (text: String)
    ensures
        text@ == label@ + detail@,
{
    let mut text = String::from_str(label);
    text.append(detail);
    text
}

impl MupdfServerError {
    /// The description of this failure, as it is shown to the caller.
    pub fn message(&self) -> (text: String)
        ensures
            describes(text@, self@),
    {
        match self {
            MupdfServerError::DocumentNotFound(id) => labelled("Document not found: ", id.as_str()),
            MupdfServerError::InvalidPageNumber { page, total, max } => {
                let mut text = String::from_str("Invalid page number: ");
                push_i32(&mut text, *page);
                text.append(" (document has ");
                push_i32(&mut text, *total);
                text.append(" pages, valid range: 0-");
                push_i32(&mut text, *max);
                text.append(")");
                text
            },
            MupdfServerError::PasswordRequired => String::from_str(
                "Password required for this document",
            ),
            MupdfServerError::InvalidPassword => String::from_str("Invalid password"),
            MupdfServerError::NotAPdf => String::from_str("Document is not a PDF"),
            MupdfServerError::InvalidTextFormat(name) => {
                let mut text = labelled("Invalid text format: ", name.as_str());
                text.append(" (valid formats: plain, html, json, xml)");
                text
            },
            MupdfServerError::InvalidImageFormat(name) => {
                let mut text = labelled("Invalid image format: ", name.as_str());
                text.append(" (valid formats: png, svg)");
                text
            },
            MupdfServerError::Base64Error(failure) => {
                let mut text = String::from_str("Base64 decode error: ");
                failure.push_text(&mut text);
                text
            },
            MupdfServerError::IoError(cause) => labelled("IO error: ", cause.as_str()),
            MupdfServerError::MupdfError(cause) => labelled("MuPDF error: ", cause.as_str()),
            MupdfServerError::JsonError(cause) => labelled("JSON error: ", cause.as_str()),
            MupdfServerError::Internal(cause) => labelled("Internal error: ", cause.as_str()),
        }
    }

    /// An [`MupdfServerError::Internal`] with the given message.
    pub fn internal(msg: &str) -> (e: Self)
        ensures
            e@ == ErrorView::Internal(msg@),
    {
        MupdfServerError::Internal(String::from_str(msg))
    }
}

} // verus!

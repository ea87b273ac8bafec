//! Data carried by the presentation widgets: the status line, the result
//! panel's export content, the error banner and the progress indicator.
//! Rendering itself happens outside this crate; these types only hold and
//! transform what is shown.

use vstd::prelude::*;

use crate::ocr::OcrResult;
use crate::text::{normalize_text, spec_normalized};

verus! {

/// What kind of status line is currently shown.
#[derive(Debug, Clone, PartialEq, Eq, Structural)]
pub enum StatusType {
    /// Nothing to report.
    Empty,
    Info,
    Success,
    Error,
}

/// The one-line status shown at the bottom of the window.
#[derive(Debug, Clone, PartialEq)]
pub struct StatusDisplay {
    pub message: String,
    pub status_type: StatusType,
}

impl StatusDisplay {
    pub fn new() -> (r: StatusDisplay)
        ensures
            r.message@ == Seq::<char>::empty(),
            r.status_type is Empty,
    {
        StatusDisplay { message: String::new(), status_type: StatusType::Empty }
    }

    pub fn set_message(&mut self, message: &str)
        ensures
            final(self).message@ == message@,
            final(self).status_type is Info,
    {
        self.message = message.to_owned();
        self.status_type = StatusType::Info;
    }

    pub fn set_success(&mut self, message: &str)
        ensures
            final(self).message@ == message@,
            final(self).status_type is Success,
    {
        self.message = message.to_owned();
        self.status_type = StatusType::Success;
    }

    pub fn set_error(&mut self, message: &str)
        ensures
            final(self).message@ == message@,
            final(self).status_type is Error,
    {
        self.message = message.to_owned();
        self.status_type = StatusType::Error;
    }

    pub fn clear(&mut self)
        ensures
            final(self).message@ == Seq::<char>::empty(),
            final(self).status_type is Empty,
    {
        self.message = String::new();
        self.status_type = StatusType::Empty;
    }
}

/// The panel that holds the latest result and prepares its text for
/// display, copying and saving.
#[derive(Debug, Clone, PartialEq)]
pub struct ResultPanel {
    pub result: Option<OcrResult>,
    pub text_content: String,
    pub show_details: bool,
    pub preserve_whitespace: bool,
}

impl ResultPanel {
    pub fn new() -> (r: ResultPanel)
        ensures
            r.result is None,
            r.text_content@ == Seq::<char>::empty(),
            !r.show_details,
            r.preserve_whitespace,
    {
        ResultPanel {
            result: None,
            text_content: String::new(),
            show_details: false,
            preserve_whitespace: true,
        }
    }

    pub fn set_result(&mut self, result: OcrResult)
        ensures
            final(self).text_content@ == result.text@,
            final(self).result == Some(result),
            final(self).show_details == old(self).show_details,
            final(self).preserve_whitespace == old(self).preserve_whitespace,
    {
        self.text_content = result.text.clone();
        self.result = Some(result);
    }

    /// The text handed to the clipboard or written to a file: verbatim
    /// when whitespace is preserved, otherwise the normalized form with
    /// lines trimmed and blank lines dropped.
    pub fn export_content(&self) -> (r: String)
        ensures
            self.preserve_whitespace ==> r@ == self.text_content@,
            !self.preserve_whitespace ==> r@ == spec_normalized(self.text_content@),
    {
        if self.preserve_whitespace {
            self.text_content.clone()
        } else {
            normalize_text(self.text_content.as_str())
        }
    }
}

/// A dismissible error banner.
#[derive(Debug, Clone, PartialEq)]
pub struct ErrorDisplay {
    pub message: String,
    pub show_details: bool,
}

impl ErrorDisplay {
    pub fn new(message: String) -> (r: ErrorDisplay)
        ensures
            r.message == message,
            !r.show_details,
    {
        ErrorDisplay { message, show_details: false }
    }
}

/// Progress over a known number of steps.
#[derive(Debug, Clone, PartialEq)]
pub struct ProgressIndicator {
    pub current: usize,
    pub total: usize,
    pub message: String,
}

impl ProgressIndicator {
    pub fn new(total: usize, message: String) -> (r: ProgressIndicator)
        ensures
            r.current == 0,
            r.total == total,
            r.message == message,
    {
        ProgressIndicator { current: 0, total, message }
    }

    pub fn set_progress(&mut self, current: usize)
        ensures
            final(self).current == current,
            final(self).total == old(self).total,
            final(self).message == old(self).message,
    {
        self.current = current;
    }
}

} // verus!

//! The decode command: what it is asked, and how it goes about it.

use vstd::prelude::*;
use vstd::string::StringExecFns;
use crate::shape::DecodeType;

verus! {

/// What the decode command is asked to do.
#[derive(Debug, Clone)]
pub struct Decode {
    /// The shape to read the input as.
    pub name: DecodeType,
    /// The file to read, or `-` for the standard input.
    pub input: String,
    /// Whether the input is a stream of lines in base64, one payload each.
    /// Else the whole input is one payload.
    pub base64: bool,
    /// Whether only the catalog of shapes is wanted.
    pub list: bool,
    /// Whether messages are shown indented.
    pub pretty: bool,
}

/// How a run of the decode command proceeds.
#[derive(Debug, Clone, Copy, PartialEq, Eq, Structural)]
pub enum Mode {
    /// Print the catalog of shapes and read nothing.
    List,
    /// Read the input line by line; a line that fails is set aside and the
    /// run goes on.
    Stream,
    /// Read the whole input as one payload; if it fails, so does the run.
    Whole,
}

impl Decode {
    /// The mode that the flags select. Listing comes first: where it is
    /// asked for, the other flags are not looked at.
    pub open spec fn selected_mode(&self) -> Mode {
        if self.list {
            Mode::List
        } else if self.base64 {
            Mode::Stream
        } else {
            Mode::Whole
        }
    }

    /// What is said before decoding starts.
    pub open spec fn announcement_text(&self) -> Seq<char> {
        "decoding as proto "@ + self.name.name_text()
    }

    /// The mode of this run.
    pub fn mode(&self) -> (mode: Mode)
        ensures
            mode == self.selected_mode(),
    {
        if self.list {
            Mode::List
        } else if self.base64 {
            Mode::Stream
        } else {
            Mode::Whole
        }
    }

    /// The line that says which shape the input is read as.
    pub fn announcement(&self) -> (line: String)
        ensures
            line@ == self.announcement_text(),
    {
        String::from_str("decoding as proto ").concat(self.name.name())
    }
}

} // verus!

//! Requests, their kinds, and the response header with its wire form.
use vstd::prelude::*;
use crate::text::{digits, digits_text};

verus! {

/// The radio a dump targets.
#[derive(Clone, Copy, Debug, PartialEq, Eq, Structural)]
pub enum Band {
    Band2_4GHz,
    Band5GHz,
}

/// One decoded request line.
#[derive(Debug)]
pub enum DumpCommand {
    /// Capture the I/Q samples of `band` into `/tmp/<file_name>`.
    DumpIQ { band: Band, file_name: String },
    /// Remove the text files under `/tmp`.
    DelFiles,
    /// Send back the file `/tmp/<name>`.
    CopyFiles(String),
    /// Write `value` to the 32-bit register at `addr`.
    SetReg { addr: u32, value: u32 },
    /// Run a shell command line.
    ShellCmd(String),
    /// Create and bring up the two test interfaces.
    ATEInit,
    /// Run the test harness tool with the words of the text.
    ATECmd(String),
}

/// The variant of a request, without its fields.
#[derive(Clone, Copy, Debug, PartialEq, Eq, Structural)]
pub enum Kind {
    DumpIq,
    DelFiles,
    CopyFile,
    SetReg,
    ShellCmd,
    AteInit,
    AteCmd,
}

pub open spec fn kind_of(c: DumpCommand) -> Kind {
    match c {
        DumpCommand::DumpIQ { .. } => Kind::DumpIq,
        DumpCommand::DelFiles => Kind::DelFiles,
        DumpCommand::CopyFiles(_) => Kind::CopyFile,
        DumpCommand::SetReg { .. } => Kind::SetReg,
        DumpCommand::ShellCmd(_) => Kind::ShellCmd,
        DumpCommand::ATEInit => Kind::AteInit,
        DumpCommand::ATECmd(_) => Kind::AteCmd,
    }
}

/// Whether a request of this kind is answered with a header once its
/// external steps are done. `CopyFile` is answered too, but from the outcome
/// of opening the file.
pub open spec fn replies_after_steps(k: Kind) -> bool {
    k == Kind::DumpIq || k == Kind::DelFiles
}

impl DumpCommand {
    pub fn kind(&self) -> (k: Kind)
        ensures
            k == kind_of(*self),
    {
        match self {
            DumpCommand::DumpIQ { .. } => Kind::DumpIq,
            DumpCommand::DelFiles => Kind::DelFiles,
            DumpCommand::CopyFiles(_) => Kind::CopyFile,
            DumpCommand::SetReg { .. } => Kind::SetReg,
            DumpCommand::ShellCmd(_) => Kind::ShellCmd,
            DumpCommand::ATEInit => Kind::AteInit,
            DumpCommand::ATECmd(_) => Kind::AteCmd,
        }
    }
}

/// The answer to a request; a file's bytes follow it when `file_size` says
/// so.
#[derive(Clone, Copy, Debug, PartialEq, Eq, Structural)]
pub struct ResponseHeader {
    pub is_error: bool,
    pub file_size: u64,
}

pub open spec fn bool_text(b: bool) -> Seq<char> {
    if b {
        "true"@
    } else {
        "false"@
    }
}

/// The line that carries `h`: its two tagged fields, then a newline.
pub open spec fn header_line(h: ResponseHeader) -> Seq<char> {
    "{\"is_error\":"@ + bool_text(h.is_error) + ",\"file_size\":"@ + digits(
        h.file_size as nat,
        false,
        false,
    ) + "}\n"@
}

impl ResponseHeader {
    /// The header of a failed request: an error, with nothing following.
    pub fn error() -> (h: ResponseHeader)
        ensures
            h.is_error,
            h.file_size == 0,
    {
        ResponseHeader { is_error: true, file_size: 0 }
    }

    /// The wire form of the header, newline included.
    pub fn encode(&self) -> (r: String)
        ensures
            r@ == header_line(*self),
    {
        let flag = if self.is_error {
            "true"
        } else {
            "false"
        };
        let size = digits_text(self.file_size, false, false);
        let r = String::from_str("{\"is_error\":").concat(flag).concat(",\"file_size\":").concat(
            size.as_str(),
        ).concat("}\n");
        assert(r@ =~= header_line(*self));
        r
    }
}

} // verus!

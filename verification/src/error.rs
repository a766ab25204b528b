//! The failures the daemon can end with, and the text each is reported with.

use vstd::prelude::*;
use vstd::string::*;
use crate::text::{decimal, framed, numeral, prefixed};

verus! {

/// Every way in which the daemon can fail. A variant that wraps a failure of
/// the operating system or of a collaborator carries that failure's own
/// description as text.
#[derive(Debug, PartialEq, Eq)]
pub enum MainE {
    /// The battery subsystem could not be queried.
    Bat(String),
    /// An input or output operation failed.
    Io(String),
    /// The load-average source could not be interpreted.
    Proc(String),
    /// A file could not be read: the cause, then the file's path.
    Read(String, String),
    /// A file could not be written: the cause, then the file's path or a hint
    /// on how to obtain the missing permission.
    Write(String, String),
    /// The configuration file is not of the expected structure.
    Deser(String),
    /// No configuration file exists at any of the conventional paths.
    MissingConfig,
    /// The governor is not one the platform offers.
    WrongGov(String),
    /// The frequency is not one the platform offers.
    WrongFreq(u32),
    /// Another instance of the daemon is running, with this process id.
    Running(u32),
    /// The device has no battery.
    NoBat,
    /// The list of processes could not be obtained.
    PsUtil(String),
    /// A process of the list could not be inspected.
    ProcErr(String),
    /// A frequency is configured, but the governor is not `userspace`.
    NoUserspace,
}

/// The mathematical content of a [`MainE`].
pub ghost enum Fault {
    Bat(Seq<char>),
    Io(Seq<char>),
    Proc(Seq<char>),
    Read(Seq<char>, Seq<char>),
    Write(Seq<char>, Seq<char>),
    Deser(Seq<char>),
    MissingConfig,
    WrongGov(Seq<char>),
    WrongFreq(u32),
    Running(u32),
    NoBat,
    PsUtil(Seq<char>),
    ProcErr(Seq<char>),
    NoUserspace,
}

impl View for MainE {
    type V = Fault;

    open spec fn view(&self) -> Fault {
        match self {
            MainE::Bat(c) => Fault::Bat(c@),
            MainE::Io(c) => Fault::Io(c@),
            MainE::Proc(c) => Fault::Proc(c@),
            MainE::Read(c, p) => Fault::Read(c@, p@),
            MainE::Write(c, p) => Fault::Write(c@, p@),
            MainE::Deser(c) => Fault::Deser(c@),
            MainE::MissingConfig => Fault::MissingConfig,
            MainE::WrongGov(g) => Fault::WrongGov(g@),
            MainE::WrongFreq(f) => Fault::WrongFreq(*f),
            MainE::Running(p) => Fault::Running(*p),
            MainE::NoBat => Fault::NoBat,
            MainE::PsUtil(c) => Fault::PsUtil(c@),
            MainE::ProcErr(c) => Fault::ProcErr(c@),
            MainE::NoUserspace => Fault::NoUserspace,
        }
    }
}

/// What a validation found: nothing, or the first fault.
pub open spec fn verdict_of(r: Result<(), MainE>) -> Option<Fault> {
    match r {
        Ok(_) => None,
        Err(e) => Some(e@),
    }
}

/// The text a fault is reported with. A wrapped cause stands on a line of
/// its own, indented by four spaces.
pub open spec fn message_of(f: Fault) -> Seq<char> {
    match f {
        Fault::Bat(c) => "Failed to fetch battery info:\n    "@ + c,
        Fault::Io(c) => "An io error ocurred:\n    "@ + c,
        Fault::Proc(c) => "Fetching from /proc/avgload failed:\n    "@ + c,
        Fault::Read(c, p) => "Error while reading a file "@ + p + ":\n    "@ + c,
        Fault::Write(c, p) => "Error while writting a file "@ + p + ":\n    "@ + c,
        Fault::Deser(c) =>
            "Config file: Failed to deserialize, make sure toml types are correct:\n    "@ + c,
        Fault::MissingConfig => "Config file: Not found at '/etc/racf/config.toml'."@,
        Fault::WrongGov(g) => "Config file: governor '"@ + g
            + "' is invalid, use -l or --list to check avaliable governors."@,
        Fault::WrongFreq(f) => "Config file: frequency '"@ + decimal(f as nat)
            + "' is invalid, use -l or --list to check avaliable frequencies."@,
        Fault::Running(p) => "Stopped. racf is already running at "@ + decimal(p as nat) + "."@,
        Fault::NoBat => "Error: Could not find a battery in this device."@,
        Fault::PsUtil(c) => "Error: Could not get processes list:\n    "@ + c,
        Fault::ProcErr(c) => "Error: Could not get pid/name of the processes list:\n    "@ + c,
        Fault::NoUserspace =>
            "Config File: In order to use a `frequency` the governor requires to be 'userspace'."@,
    }
}

impl MainE {
    /// The text this failure is reported with.
    pub fn message(&self) -> (out: String)
        ensures
            out@ == message_of(self@),
    {
        match self {
            MainE::Bat(c) => prefixed("Failed to fetch battery info:\n    ", c.as_str()),
            MainE::Io(c) => prefixed("An io error ocurred:\n    ", c.as_str()),
            MainE::Proc(c) => prefixed("Fetching from /proc/avgload failed:\n    ", c.as_str()),
            MainE::Read(c, p) => {
                let mut out = framed("Error while reading a file ", p.as_str(), ":\n    ");
                out.append(c.as_str());
                out
            },
            MainE::Write(c, p) => {
                let mut out = framed("Error while writting a file ", p.as_str(), ":\n    ");
                out.append(c.as_str());
                out
            },
            MainE::Deser(c) => prefixed(
                "Config file: Failed to deserialize, make sure toml types are correct:\n    ",
                c.as_str(),
            ),
            MainE::MissingConfig => String::from_str(
                "Config file: Not found at '/etc/racf/config.toml'.",
            ),
            MainE::WrongGov(g) => framed(
                "Config file: governor '",
                g.as_str(),
                "' is invalid, use -l or --list to check avaliable governors.",
            ),
            MainE::WrongFreq(f) => {
                let n = numeral(*f as u64);
                framed(
                    "Config file: frequency '",
                    n.as_str(),
                    "' is invalid, use -l or --list to check avaliable frequencies.",
                )
            },
            MainE::Running(p) => {
                let n = numeral(*p as u64);
                framed("Stopped. racf is already running at ", n.as_str(), ".")
            },
            MainE::NoBat => String::from_str("Error: Could not find a battery in this device."),
            MainE::PsUtil(c) => prefixed("Error: Could not get processes list:\n    ", c.as_str()),
            MainE::ProcErr(c) => prefixed(
                "Error: Could not get pid/name of the processes list:\n    ",
                c.as_str(),
            ),
            MainE::NoUserspace => String::from_str(
                "Config File: In order to use a `frequency` the governor requires to be 'userspace'.",
            ),
        }
    }
}

} // verus!

use vstd::prelude::*;

verus! {

/// The kernel control file a failed write was aimed at.
#[derive(Clone, Copy, PartialEq, Eq, Structural, Debug)]
pub enum WriteTarget {
    FanProfile,
    Turbo,
}

/// The fan a curve application concerns.
#[derive(Clone, Copy, PartialEq, Eq, Structural, Debug)]
pub enum FanKind {
    Cpu,
    Gpu,
}

/// Everything that can go wrong while probing state, loading the
/// configuration, or carrying out a profile transition.
#[derive(Debug, PartialEq, Eq)]
pub enum Error {
    /// A kernel control file could not be read.
    StateUnavailable,
    /// A kernel control file held something other than the expected integer,
    /// or the fan profile it reported was outside the three known profiles.
    StateMalformed,
    /// The configuration file could not be opened.
    ConfigUnreadable,
    /// The configuration file violates the expected syntax or schema.
    ConfigMalformed,
    /// The board library could not identify the current hardware.
    InvalidBoard,
    /// The requested profile name is not one of the three known profiles.
    UnknownProfile(String),
    /// A write to a kernel control file failed.
    KernelWriteFailed(WriteTarget),
    /// The board library refused a fan curve.
    CurveApplyFailed(FanKind),
}

pub open spec fn spec_target_name(t: WriteTarget) -> Seq<char> {
    match t {
        WriteTarget::FanProfile => "fan_profile"@,
        WriteTarget::Turbo => "turbo"@,
    }
}

pub open spec fn spec_fan_name(f: FanKind) -> Seq<char> {
    match f {
        FanKind::Cpu => "cpu"@,
        FanKind::Gpu => "gpu"@,
    }
}

/// The human-readable text for each error.
pub open spec fn spec_message(e: Error) -> Seq<char> {
    match e {
        Error::StateUnavailable => "Couldn't read a kernel control file"@,
        Error::StateMalformed => "Kernel control file contents are malformed"@,
        Error::ConfigUnreadable => "Couldn't open the configuration file"@,
        Error::ConfigMalformed => "The configuration file is malformed"@,
        Error::InvalidBoard => "Invalid Board. Are you using a G14?"@,
        Error::UnknownProfile(s) => "Unknown Profile "@ + s@,
        Error::KernelWriteFailed(t) => "Failed to write to the kernel "@ + spec_target_name(t) + " file"@,
        Error::CurveApplyFailed(f) => "Failed to apply the "@ + spec_fan_name(f) + " fan curve"@,
    }
}

impl Error {
    /// Renders the error for the standard error stream.
    pub fn message(&self) -> (r: String)
        ensures
            r@ == spec_message(*self),
    {
        match self {
            Error::StateUnavailable => String::from_str("Couldn't read a kernel control file"),
            Error::StateMalformed => String::from_str("Kernel control file contents are malformed"),
            Error::ConfigUnreadable => String::from_str("Couldn't open the configuration file"),
            Error::ConfigMalformed => String::from_str("The configuration file is malformed"),
            Error::InvalidBoard => String::from_str("Invalid Board. Are you using a G14?"),
            Error::UnknownProfile(s) => {
                let mut m = String::from_str("Unknown Profile ");
                m.append(s.as_str());
                m
            },
            Error::KernelWriteFailed(t) => {
                let mut m = String::from_str("Failed to write to the kernel ");
                match t {
                    WriteTarget::FanProfile => m.append("fan_profile"),
                    WriteTarget::Turbo => m.append("turbo"),
                }
                m.append(" file");
                m
            },
            Error::CurveApplyFailed(f) => {
                let mut m = String::from_str("Failed to apply the ");
                match f {
                    FanKind::Cpu => m.append("cpu"),
                    FanKind::Gpu => m.append("gpu"),
                }
                m.append(" fan curve");
                m
            },
        }
    }
}

} // verus!

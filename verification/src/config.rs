//! The part of the project's configuration that the commands read, as plain
//! values, and what can be wrong with it.

use vstd::prelude::*;

verus! {

/// How OpenOCD is started.
#[derive(Debug)]
pub struct OpenocdConfig {
    /// The program.
    pub command: String,
    /// The arguments that select the adapter and the target.
    pub arguments: Vec<String>,
}

/// The debug probe of the project.
#[derive(Debug)]
pub struct ProbeConfig {
    /// The GDB client to run.
    pub gdb_client_command: String,
    /// Whether a Black Magic Probe is configured.
    pub bmp: bool,
    /// Whether a J-Link is configured.
    pub jlink: bool,
    /// OpenOCD, where it is configured.
    pub openocd: Option<OpenocdConfig>,
}

/// How the target emits SWO.
#[derive(Debug)]
pub struct SwoConfig {
    /// The frequency of the trace clock after reset.
    pub reset_freq: u32,
    /// The baud rate of the output.
    pub baud_rate: u32,
    /// The serial device that receives the output, where an adapter of its
    /// own is used.
    pub serial_endpoint: Option<String>,
}

/// The log of the project.
#[derive(Debug)]
pub struct LogConfig {
    /// SWO, where it is configured.
    pub swo: Option<SwoConfig>,
    /// Whether Drone Serial Output is configured.
    pub dso: bool,
}

/// What the commands read of the project's configuration.
#[derive(Debug)]
pub struct Config {
    /// The `probe` section.
    pub probe: Option<ProbeConfig>,
    /// The `log` section.
    pub log: Option<LogConfig>,
}

/// What is wrong with the configuration for the command at hand.
#[derive(Clone, Copy, Debug, PartialEq, Eq, Structural)]
pub enum ConfigError {
    /// There is no `probe` section.
    MissingProbe,
    /// The `probe` section configures no probe.
    MissingProbeKind,
    /// The configured probe is not served.
    UnsupportedProbe(crate::probe::Probe),
    /// There is no `log` section.
    MissingLog,
    /// The `log` section configures no transport.
    MissingLogKind,
    /// The probe cannot deliver the log over the transport.
    UnsupportedLog(crate::probe::Probe, crate::probe::Log),
    /// The compiler's report of its version names no commit.
    UnknownCompiler,
}

impl ConfigError {
    /// The text of the error.
    pub open spec fn message_of(&self) -> Seq<char> {
        match self {
            ConfigError::MissingProbe => "Missing `probe` section in `Drone.toml`"@,
            ConfigError::MissingProbeKind => "Missing one of `probe.bmp`, `probe.jlink`, `probe.openocd` sections in `Drone.toml`"@,
            ConfigError::UnsupportedProbe(probe) => match probe {
                crate::probe::Probe::Bmp => "BMP not supported"@,
                crate::probe::Probe::Jlink => "JLink not supported"@,
                crate::probe::Probe::Openocd => "OpenOCD not supported"@,
            },
            ConfigError::MissingLog => "Missing `log` section in `Drone.toml`"@,
            ConfigError::MissingLogKind => "Missing one of `log.swo`, `log.dso` sections in `Drone.toml`"@,
            ConfigError::UnsupportedLog(probe, log) => seq!['`'] + probe.name_of() + "` log with `"@
                + log.name_of() + "` probe is not supported"@,
            ConfigError::UnknownCompiler => "parsing of rustc output failed"@,
        }
    }

    /// Returns the text of the error.
    pub fn message(&self) -> (text: String)
        ensures
            text@ == self.message_of(),
    {
        match self {
            ConfigError::MissingProbe => String::from_str("Missing `probe` section in `Drone.toml`"),
            ConfigError::MissingProbeKind => String::from_str(
                "Missing one of `probe.bmp`, `probe.jlink`, `probe.openocd` sections in `Drone.toml`",
            ),
            ConfigError::UnsupportedProbe(probe) => match probe {
                crate::probe::Probe::Bmp => String::from_str("BMP not supported"),
                crate::probe::Probe::Jlink => String::from_str("JLink not supported"),
                crate::probe::Probe::Openocd => String::from_str("OpenOCD not supported"),
            },
            ConfigError::MissingLog => String::from_str("Missing `log` section in `Drone.toml`"),
            ConfigError::MissingLogKind => String::from_str(
                "Missing one of `log.swo`, `log.dso` sections in `Drone.toml`",
            ),
            ConfigError::UnsupportedLog(probe, log) => {
                let mut text = String::new();
                text.push('`');
                text.append(probe.name());
                text.append("` log with `");
                text.append(log.name());
                text.append("` probe is not supported");
                assert(text@ =~= self.message_of());
                text
            },
            ConfigError::UnknownCompiler => String::from_str("parsing of rustc output failed"),
        }
    }

    /// Returns the error as a failure of the command.
    pub fn into_failure(self) -> (failure: crate::utils::Failure)
        ensures
            failure matches crate::utils::Failure::Configuration(text) && text@
                == self.message_of(),
    {
        crate::utils::Failure::Configuration(self.message())
    }
}

} // verus!

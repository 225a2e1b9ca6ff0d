//! Debug probes, log transports and the table that pairs them.

use vstd::prelude::*;

pub mod openocd;

verus! {

/// A supported debug probe.
#[derive(Clone, Copy, Debug, PartialEq, Eq, Structural)]
pub enum Probe {
    /// Black Magic Probe.
    Bmp,
    /// SEGGER J-Link.
    Jlink,
    /// OpenOCD.
    Openocd,
}

/// A supported way of delivering the log stream.
#[derive(Clone, Copy, Debug, PartialEq, Eq, Structural)]
pub enum Log {
    /// ARM SWO through the debug probe.
    SwoProbe,
    /// ARM SWO through a USB-serial adapter.
    SwoSerial,
    /// Drone Serial Output through a USB-serial adapter.
    DsoSerial,
}

/// The pairs of probe and log transport that can work together.
pub open spec fn log_supported(probe: Probe, log: Log) -> bool {
    probe == Probe::Openocd && (log == Log::SwoProbe || log == Log::SwoSerial)
}

/// Returns whether the probe can deliver the log over the given transport.
pub fn supports_log(probe: Probe, log: Log) -> (supported: bool)
    ensures
        supported == log_supported(probe, log),
{
    match (probe, log) {
        (Probe::Openocd, Log::SwoProbe) => true,
        (Probe::Openocd, Log::SwoSerial) => true,
        _ => false,
    }
}

impl Probe {
    /// The name of the probe in the configuration.
    pub open spec fn name_of(&self) -> Seq<char> {
        match self {
            Probe::Bmp => "bmp"@,
            Probe::Jlink => "jlink"@,
            Probe::Openocd => "openocd"@,
        }
    }

    /// Returns the name of the probe in the configuration.
    pub fn name(&self) -> (name: &'static str)
        ensures
            name@ == self.name_of(),
    {
        match self {
            Probe::Bmp => "bmp",
            Probe::Jlink => "jlink",
            Probe::Openocd => "openocd",
        }
    }

    /// Answers the `reset` command: no probe serves it yet.
    pub fn reset(self) -> (served: Result<(), crate::config::ConfigError>)
        ensures
            served == Err::<(), crate::config::ConfigError>(
                crate::config::ConfigError::UnsupportedProbe(self),
            ),
    {
        Err(crate::config::ConfigError::UnsupportedProbe(self))
    }

    /// Answers the `flash` command: no probe serves it yet.
    pub fn flash(self) -> (served: Result<(), crate::config::ConfigError>)
        ensures
            served == Err::<(), crate::config::ConfigError>(
                crate::config::ConfigError::UnsupportedProbe(self),
            ),
    {
        Err(crate::config::ConfigError::UnsupportedProbe(self))
    }

    /// Answers the `gdb` command: no probe serves it yet.
    pub fn gdb(self) -> (served: Result<(), crate::config::ConfigError>)
        ensures
            served == Err::<(), crate::config::ConfigError>(
                crate::config::ConfigError::UnsupportedProbe(self),
            ),
    {
        Err(crate::config::ConfigError::UnsupportedProbe(self))
    }

    /// The probe that a configuration selects. The first configured probe
    /// in the order BMP, J-Link, OpenOCD decides; of these, OpenOCD alone is
    /// served.
    pub open spec fn selected(config: crate::config::Config) -> Result<
        Probe,
        crate::config::ConfigError,
    > {
        match config.probe {
            None => Err(crate::config::ConfigError::MissingProbe),
            Some(probe) => if probe.bmp {
                Err(crate::config::ConfigError::UnsupportedProbe(Probe::Bmp))
            } else if probe.jlink {
                Err(crate::config::ConfigError::UnsupportedProbe(Probe::Jlink))
            } else if probe.openocd is Some {
                Ok(Probe::Openocd)
            } else {
                Err(crate::config::ConfigError::MissingProbeKind)
            },
        }
    }

    /// Selects the probe that the configuration names.
    pub fn try_from(config: &crate::config::Config) -> (probe: Result<
        Probe,
        crate::config::ConfigError,
    >)
        ensures
            probe == Probe::selected(*config),
    {
        match &config.probe {
            None => Err(crate::config::ConfigError::MissingProbe),
            Some(probe) => {
                if probe.bmp {
                    Err(crate::config::ConfigError::UnsupportedProbe(Probe::Bmp))
                } else if probe.jlink {
                    Err(crate::config::ConfigError::UnsupportedProbe(Probe::Jlink))
                } else if probe.openocd.is_some() {
                    Ok(Probe::Openocd)
                } else {
                    Err(crate::config::ConfigError::MissingProbeKind)
                }
            },
        }
    }
}

impl Log {
    /// The name of the transport in the configuration.
    pub open spec fn name_of(&self) -> Seq<char> {
        match self {
            Log::SwoProbe => "swoprobe"@,
            Log::SwoSerial => "swoserial"@,
            Log::DsoSerial => "dsoserial"@,
        }
    }

    /// Returns the name of the transport in the configuration.
    pub fn name(&self) -> (name: &'static str)
        ensures
            name@ == self.name_of(),
    {
        match self {
            Log::SwoProbe => "swoprobe",
            Log::SwoSerial => "swoserial",
            Log::DsoSerial => "dsoserial",
        }
    }

    /// The transport that a configuration selects: SWO before DSO, and for
    /// SWO the serial adapter where a serial device is named.
    pub open spec fn selected(config: crate::config::Config) -> Result<
        Log,
        crate::config::ConfigError,
    > {
        match config.log {
            None => Err(crate::config::ConfigError::MissingLog),
            Some(log) => match log.swo {
                Some(swo) => if swo.serial_endpoint is Some {
                    Ok(Log::SwoSerial)
                } else {
                    Ok(Log::SwoProbe)
                },
                None => if log.dso {
                    Ok(Log::DsoSerial)
                } else {
                    Err(crate::config::ConfigError::MissingLogKind)
                },
            },
        }
    }

    /// Selects the log transport that the configuration names.
    pub fn try_from(config: &crate::config::Config) -> (log: Result<Log, crate::config::ConfigError>)
        ensures
            log == Log::selected(*config),
    {
        match &config.log {
            None => Err(crate::config::ConfigError::MissingLog),
            Some(log) => match &log.swo {
                Some(swo) => {
                    if swo.serial_endpoint.is_some() {
                        Ok(Log::SwoSerial)
                    } else {
                        Ok(Log::SwoProbe)
                    }
                },
                None => {
                    if log.dso {
                        Ok(Log::DsoSerial)
                    } else {
                        Err(crate::config::ConfigError::MissingLogKind)
                    }
                },
            },
        }
    }
}

/// The way in which a log is captured.
#[derive(Clone, Copy, Debug, PartialEq, Eq, Structural)]
pub enum LogHandler {
    /// SWO with OpenOCD as the probe server.
    OpenocdSwo,
}

/// Returns the way in which the probe's log is captured over the transport;
/// there is one exactly for the pairs that work together.
pub fn log(probe: Probe, transport: Log) -> (handler: Option<LogHandler>)
    ensures
        handler is Some == log_supported(probe, transport),
        handler is Some ==> handler == Some(LogHandler::OpenocdSwo),
{
    match (probe, transport) {
        (Probe::Openocd, Log::SwoProbe) => Some(LogHandler::OpenocdSwo),
        (Probe::Openocd, Log::SwoSerial) => Some(LogHandler::OpenocdSwo),
        _ => None,
    }
}

/// The text of an optional argument.
pub open spec fn text_of(item: Option<&str>) -> Option<Seq<char>> {
    match item {
        Some(text) => Some(text@),
        None => None,
    }
}

/// An optional argument as a list of arguments.
pub open spec fn optional(item: Option<Seq<char>>) -> Seq<Seq<char>> {
    match item {
        Some(text) => seq![text],
        None => Seq::empty(),
    }
}

/// The arguments of a GDB that runs a script and exits: the firmware where
/// there is one, then the flags for a quiet batch run, then the script.
pub open spec fn gdb_script_args_of(firmware: Option<Seq<char>>, script: Seq<char>) -> Seq<
    Seq<char>,
> {
    optional(firmware) + seq!["--quiet"@, "--nx"@, "--batch"@, "--command"@, script]
}

/// The arguments of a GDB client at the operator's hands: the operator's
/// own arguments, the firmware where there is one, the script, and the
/// interpreter where one is asked for.
pub open spec fn gdb_client_args_of(
    gdb_args: Seq<Seq<char>>,
    firmware: Option<Seq<char>>,
    interpreter: Option<Seq<char>>,
    script: Seq<char>,
) -> Seq<Seq<char>> {
    gdb_args + optional(firmware) + seq!["--command"@, script] + match interpreter {
        Some(name) => seq!["--interpreter"@, name],
        None => Seq::empty(),
    }
}

/// Returns the invocation of the configured GDB client that runs `script`
/// and exits.
pub fn gdb_script_command(
    config: &crate::config::Config,
    firmware: Option<&str>,
    script: &str,
) -> (gdb: crate::process::CommandLine)
    requires
        config.probe is Some,
    ensures
        gdb.program@ == config.probe->0.gdb_client_command@,
        gdb.arguments() == gdb_script_args_of(text_of(firmware), script@),
{
    let program = match &config.probe {
        Some(probe) => probe.gdb_client_command.as_str(),
        None => "",
    };
    let mut gdb = crate::process::CommandLine::new(program);
    match firmware {
        Some(firmware) => {
            gdb.arg(firmware);
        },
        None => {},
    }
    gdb.arg("--quiet");
    gdb.arg("--nx");
    gdb.arg("--batch");
    gdb.arg("--command");
    gdb.arg(script);
    assert(gdb.arguments() =~= gdb_script_args_of(text_of(firmware), script@));
    gdb
}

/// Returns the invocation of the configured GDB client for the operator.
pub fn gdb_client_command(
    config: &crate::config::Config,
    gdb_args: &Vec<String>,
    firmware: Option<&str>,
    interpreter: Option<&str>,
    script: &str,
) -> (gdb: crate::process::CommandLine)
    requires
        config.probe is Some,
    ensures
        gdb.program@ == config.probe->0.gdb_client_command@,
        gdb.arguments() == gdb_client_args_of(
            crate::text::views(gdb_args@),
            text_of(firmware),
            text_of(interpreter),
            script@,
        ),
{
    let program = match &config.probe {
        Some(probe) => probe.gdb_client_command.as_str(),
        None => "",
    };
    let mut gdb = crate::process::CommandLine::new(program);
    gdb.args(gdb_args);
    match firmware {
        Some(firmware) => {
            gdb.arg(firmware);
        },
        None => {},
    }
    gdb.arg("--command");
    gdb.arg(script);
    match interpreter {
        Some(interpreter) => {
            gdb.arg("--interpreter");
            gdb.arg(interpreter);
        },
        None => {},
    }
    assert(gdb.arguments() =~= gdb_client_args_of(
        crate::text::views(gdb_args@),
        text_of(firmware),
        text_of(interpreter),
        script@,
    ));
    gdb
}

/// What leads the line that names the compiler's commit.
pub open spec fn commit_prefix() -> Seq<char> {
    "commit-hash: "@
}

/// The commit that the compiler's verbose version report names: what
/// follows the prefix on the first line that begins with it.
pub open spec fn commit_of(lines: Seq<Seq<char>>) -> Option<Seq<char>>
    decreases lines.len(),
{
    if lines.len() == 0 {
        None
    } else if commit_prefix().is_prefix_of(lines[0]) {
        Some(lines[0].skip(commit_prefix().len() as int))
    } else {
        commit_of(lines.skip(1))
    }
}

/// The rule that maps the paths in the compiler's own debug information to
/// the sources under the sysroot.
pub open spec fn substitute_path_of(commit: Seq<char>, sysroot: Seq<char>) -> Seq<char> {
    "/rustc/"@ + commit + " "@ + sysroot + "/lib/rustlib/src/rust"@
}

/// Returns GDB's substitute-path rule for the sources of the compiler, from
/// what the compiler printed as its sysroot and as its verbose version.
pub fn rustc_substitute_path(sysroot: &str, version: &str) -> (rule: Result<
    String,
    crate::config::ConfigError,
>)
    ensures
        match commit_of(crate::text::lines_of(version@)) {
            Some(commit) => rule matches Ok(text) && text@ == substitute_path_of(
                commit,
                crate::text::trim_of(sysroot@),
            ),
            None => rule == Err::<String, crate::config::ConfigError>(
                crate::config::ConfigError::UnknownCompiler,
            ),
        },
{
    let prefix = crate::text::to_chars("commit-hash: ");
    let all = crate::text::lines(version);
    let ghost texts = crate::text::views(all@);
    let mut at: usize = 0;
    assert(texts.skip(0) =~= texts);
    while at < all.len()
        invariant
            at <= all.len(),
            prefix@ == commit_prefix(),
            texts == crate::text::views(all@),
            texts == crate::text::lines_of(version@),
            commit_of(texts) == commit_of(texts.skip(at as int)),
        decreases all.len() - at,
    {
        proof {
            assert(texts.skip(at as int)[0] == all@[at as int]@);
            assert(texts.skip(at as int).skip(1) =~= texts.skip(at + 1));
        }
        let line = crate::text::to_chars(all[at].as_str());
        if crate::text::starts_with(&line, &prefix) {
            let commit = crate::text::string_of(&line, prefix.len(), line.len());
            assert(commit@ =~= line@.skip(prefix@.len() as int));
            let mut rule = String::from_str("/rustc/");
            rule.append(commit.as_str());
            rule.append(" ");
            rule.append(crate::text::trim(sysroot).as_str());
            rule.append("/lib/rustlib/src/rust");
            return Ok(rule);
        }
        at += 1;
    }
    Err(crate::config::ConfigError::UnknownCompiler)
}

} // verus!

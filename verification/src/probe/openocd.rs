//! OpenOCD as the probe server.

use vstd::prelude::*;

verus! {

/// An invocation of OpenOCD under construction.
#[derive(Debug)]
pub struct OpenocdCommand {
    command: crate::process::CommandLine,
}

/// The arguments that make OpenOCD run the commands after its start-up,
/// each command behind a `-c`.
pub open spec fn commands_of(commands: Seq<Seq<char>>) -> Seq<Seq<char>>
    decreases commands.len(),
{
    if commands.len() == 0 {
        Seq::empty()
    } else {
        commands_of(commands.drop_last()) + seq!["-c"@, commands.last()]
    }
}

/// The command that sets the trace port up for output to a serial adapter.
pub open spec fn tpiu_of(reset_freq: u32, baud_rate: u32) -> Seq<char> {
    "tpiu config external uart off "@ + crate::text::decimal_of(reset_freq as nat) + " "@
        + crate::text::decimal_of(baud_rate as nat)
}

/// The commands of a log capture: initialise, reset and halt the target
/// where asked to, switch the ports on, set the trace port up.
pub open spec fn swo_commands_of(reset: bool, reset_freq: u32, baud_rate: u32) -> Seq<Seq<char>> {
    seq!["init"@] + if reset {
        seq!["reset halt"@]
    } else {
        Seq::empty()
    } + seq!["itm ports on"@, tpiu_of(reset_freq, baud_rate)]
}

impl OpenocdCommand {
    /// The program.
    pub closed spec fn program(&self) -> Seq<char> {
        self.command.program@
    }

    /// The arguments so far.
    pub closed spec fn arguments(&self) -> Seq<Seq<char>> {
        self.command.arguments()
    }

    /// Returns the invocation of OpenOCD as configured, without commands.
    pub fn new(config: &crate::config::OpenocdConfig) -> (openocd: OpenocdCommand)
        ensures
            openocd.program() == config.command@,
            openocd.arguments() == crate::text::views(config.arguments@),
    {
        let mut command = crate::process::CommandLine::new(config.command.as_str());
        command.args(&config.arguments);
        assert(command.arguments() =~= crate::text::views(config.arguments@));
        OpenocdCommand { command }
    }

    /// Adds a command for OpenOCD to run after its start-up.
    pub fn add_command(&mut self, command: &str)
        ensures
            final(self).program() == old(self).program(),
            final(self).arguments() == old(self).arguments() + seq!["-c"@, command@],
    {
        self.command.arg("-c");
        self.command.arg(command);
        assert(self.arguments() =~= old(self).arguments() + seq!["-c"@, command@]);
    }

    /// Returns the finished invocation.
    pub fn spawn(self) -> (command: crate::process::CommandLine)
        ensures
            command.program@ == self.program(),
            command.arguments() == self.arguments(),
    {
        self.command
    }
}

/// What the capture of a log over a serial adapter needs.
#[derive(Debug)]
pub struct SwoCapture {
    /// The invocation of the probe server.
    pub server: crate::process::CommandLine,
    /// The serial device to read the log from.
    pub serial_endpoint: String,
    /// The baud rate to read it at.
    pub baud_rate: u32,
}

/// Whether `capture` is the capture that the configuration asks for: the
/// server is OpenOCD as configured, with the commands of the capture behind
/// the configured arguments, and the log is read from the configured serial
/// device at the configured rate.
pub open spec fn captures(reset: bool, config: crate::config::Config, capture: SwoCapture) -> bool {
    &&& config.probe is Some
    &&& config.probe->0.openocd is Some
    &&& config.log is Some
    &&& config.log->0.swo is Some
    &&& config.log->0.swo->0.serial_endpoint == Some(capture.serial_endpoint)
    &&& capture.baud_rate == config.log->0.swo->0.baud_rate
    &&& capture.server.program@ == config.probe->0.openocd->0.command@
    &&& capture.server.arguments() == crate::text::views(config.probe->0.openocd->0.arguments@)
        + commands_of(
        swo_commands_of(reset, config.log->0.swo->0.reset_freq, config.log->0.swo->0.baud_rate),
    )
}

/// Plans the capture of an SWO log with OpenOCD: the server's invocation
/// with the commands of the capture, and the serial device to read. Without
/// a serial device in the configuration the log would have to come through
/// the probe, which is not served.
pub fn log_swo(reset: bool, config: &crate::config::Config) -> (plan: Result<
    SwoCapture,
    crate::config::ConfigError,
>)
    requires
        config.probe is Some,
        config.probe->0.openocd is Some,
        config.log is Some,
        config.log->0.swo is Some,
    ensures
        match config.log->0.swo->0.serial_endpoint {
            Some(_) => plan matches Ok(capture) && captures(reset, *config, capture),
            None => plan == Err::<SwoCapture, crate::config::ConfigError>(
                crate::config::ConfigError::UnsupportedLog(
                    crate::probe::Probe::Openocd,
                    crate::probe::Log::SwoProbe,
                ),
            ),
        },
{
    let unsupported = crate::config::ConfigError::UnsupportedLog(
        crate::probe::Probe::Openocd,
        crate::probe::Log::SwoProbe,
    );
    let probe = match &config.probe {
        Some(probe) => probe,
        None => {
            return Err(unsupported);
        },
    };
    let server = match &probe.openocd {
        Some(server) => server,
        None => {
            return Err(unsupported);
        },
    };
    let log = match &config.log {
        Some(log) => log,
        None => {
            return Err(unsupported);
        },
    };
    let swo = match &log.swo {
        Some(swo) => swo,
        None => {
            return Err(unsupported);
        },
    };
    let endpoint = match &swo.serial_endpoint {
        Some(endpoint) => endpoint,
        None => {
            return Err(unsupported);
        },
    };
    let mut openocd = OpenocdCommand::new(server);
    let ghost configured = openocd.arguments();
    openocd.add_command("init");
    if reset {
        openocd.add_command("reset halt");
    }
    openocd.add_command("itm ports on");
    let mut tpiu = String::from_str("tpiu config external uart off ");
    crate::text::push_decimal(&mut tpiu, swo.reset_freq as u64);
    tpiu.append(" ");
    crate::text::push_decimal(&mut tpiu, swo.baud_rate as u64);
    assert(tpiu@ =~= tpiu_of(swo.reset_freq, swo.baud_rate));
    openocd.add_command(tpiu.as_str());
    proof {
        let commands = swo_commands_of(reset, swo.reset_freq, swo.baud_rate);
        lemma_commands(commands);
        assert(openocd.arguments() =~= configured + commands_of(commands));
    }
    Ok(
        SwoCapture {
            server: openocd.spawn(),
            serial_endpoint: endpoint.clone(),
            baud_rate: swo.baud_rate,
        },
    )
}

/// The arguments for three and for four commands, written out.
proof fn lemma_commands(commands: Seq<Seq<char>>)
    requires
        commands.len() == 3 || commands.len() == 4,
    ensures
        commands.len() == 3 ==> commands_of(commands) =~= seq![
            "-c"@,
            commands[0],
            "-c"@,
            commands[1],
            "-c"@,
            commands[2],
        ],
        commands.len() == 4 ==> commands_of(commands) =~= seq![
            "-c"@,
            commands[0],
            "-c"@,
            commands[1],
            "-c"@,
            commands[2],
            "-c"@,
            commands[3],
        ],
{
    reveal_with_fuel(commands_of, 5);
    if commands.len() == 3 {
        let two = commands.drop_last();
        let one = two.drop_last();
        assert(one.drop_last() =~= Seq::<Seq<char>>::empty());
    } else {
        let three = commands.drop_last();
        let two = three.drop_last();
        let one = two.drop_last();
        assert(one.drop_last() =~= Seq::<Seq<char>>::empty());
    }
}

} // verus!

//! The `log` command.

use vstd::prelude::*;

verus! {

/// What the `log` command is to do under a configuration: capture through
/// the configured probe over the configured transport, where the two work
/// together and the capture is served.
pub open spec fn planned(config: crate::config::Config) -> Result<
    (crate::probe::Probe, crate::probe::Log),
    crate::config::ConfigError,
> {
    match crate::probe::Probe::selected(config) {
        Err(error) => Err(error),
        Ok(probe) => match crate::probe::Log::selected(config) {
            Err(error) => Err(error),
            Ok(log) => if crate::probe::log_supported(probe, log) {
                if log == crate::probe::Log::SwoSerial {
                    Ok((probe, log))
                } else {
                    Err(
                        crate::config::ConfigError::UnsupportedLog(
                            crate::probe::Probe::Openocd,
                            crate::probe::Log::SwoProbe,
                        ),
                    )
                }
            } else {
                Err(crate::config::ConfigError::UnsupportedLog(probe, log))
            },
        },
    }
}

/// Plans the `log` command: selects the probe and the transport, refuses a
/// pair that does not work together, and sets the capture up.
pub fn run(reset: bool, config: &crate::config::Config) -> (plan: Result<
    crate::probe::openocd::SwoCapture,
    crate::config::ConfigError,
>)
    ensures
        match planned(*config) {
            Err(error) => plan == Err::<
                crate::probe::openocd::SwoCapture,
                crate::config::ConfigError,
            >(error),
            Ok(_) => plan matches Ok(capture) && crate::probe::openocd::captures(
                reset,
                *config,
                capture,
            ),
        },
{
    let probe = match crate::probe::Probe::try_from(config) {
        Ok(probe) => probe,
        Err(error) => {
            return Err(error);
        },
    };
    let log = match crate::probe::Log::try_from(config) {
        Ok(log) => log,
        Err(error) => {
            return Err(error);
        },
    };
    match crate::probe::log(probe, log) {
        Some(crate::probe::LogHandler::OpenocdSwo) => crate::probe::openocd::log_swo(reset, config),
        None => Err(crate::config::ConfigError::UnsupportedLog(probe, log)),
    }
}

} // verus!

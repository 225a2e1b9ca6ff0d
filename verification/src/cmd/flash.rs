//! The `flash` command.

use vstd::prelude::*;

verus! {

/// Plans the `flash` command: selects the probe. No probe serves the
/// command yet, so a configuration that selects one is refused as well.
pub fn run(config: &crate::config::Config) -> (plan: Result<(), crate::config::ConfigError>)
    ensures
        plan == match crate::probe::Probe::selected(*config) {
            Err(error) => Err::<(), crate::config::ConfigError>(error),
            Ok(probe) => Err(crate::config::ConfigError::UnsupportedProbe(probe)),
        },
{
    match crate::probe::Probe::try_from(config) {
        Ok(probe) => probe.flash(),
        Err(error) => Err(error),
    }
}

} // verus!

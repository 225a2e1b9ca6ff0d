use drone::probe::{supports_log, Log, Probe};

#[test]
fn openocd_supports_swo_on_both_transports() {
    assert!(supports_log(Probe::Openocd, Log::SwoProbe));
    assert!(supports_log(Probe::Openocd, Log::SwoSerial));
}

#[test]
fn openocd_does_not_support_dso() {
    assert!(!supports_log(Probe::Openocd, Log::DsoSerial));
}

#[test]
fn other_probes_support_no_log() {
    for log in [Log::SwoProbe, Log::SwoSerial, Log::DsoSerial] {
        assert!(!supports_log(Probe::Bmp, log));
        assert!(!supports_log(Probe::Jlink, log));
    }
}

//! The program's options: the command to run, where the launcher listens and how
//! often to look for it.
use crate::secret_store::SecretProviderOpts;
use vstd::prelude::*;

verus! {

/// Default interval, in seconds, between two looks for launcher processes.
pub const DEFAULT_CHECK_PERIOD: u64 = 30;

/// Default interval, in seconds, between two port checks once a launcher process
/// has been found.
pub const DEFAULT_CHECK_PERIOD_PORT: u64 = 1;

/// Nanoseconds in a second.
pub const NANOS_PER_SEC: u128 = 1_000_000_000;

/// All options of a run.
#[derive(Debug, Clone)]
pub struct XivOtpOpts {
    pub command: XivOtpCommands,
    pub secret_opts: XivSecretStoreOpts,
    pub target_opts: XivOtpTargetOpts,
    pub monitor_opts: XivLauncherMonitorOpts,
}

/// What a run does.
#[derive(Debug, Clone, Copy, PartialEq, Eq, Structural)]
pub enum XivOtpCommands {
    /// Deletes the saved OTP key
    Delete {},
    /// Asks for your OTP secret, overwriting any previously-saved value
    SetSecret {},
    /// Immediately generates OTP and send it to XIVLauncher
    Oneshot {
        /// Wait for an XIVLauncher instance to start listening before sending OTP
        wait: bool,
    },
    /// Constantly waits for XIVLauncher instances to start listening on the provided port,
    /// generating and sending OTPs
    Monitor {},
}

/// How often to look for the launcher.
#[derive(Debug, Clone, Copy)]
pub struct XivLauncherMonitorOpts {
    /// Interval in seconds to check for XIVLauncher instances
    pub check_period: u64,
    /// Interval in seconds to check for open port once XIVLauncher instance has been found
    pub check_period_port: u64,
}

/// Options of the secret store (none yet).
#[derive(Debug, Clone, Copy)]
pub struct XivSecretStoreOpts {}

/// Where the launcher listens.
#[derive(Debug, Clone)]
pub struct XivOtpTargetOpts {
    /// Address of the target XIVLauncher instance
    pub addr: String,
}

impl XivLauncherMonitorOpts {
    /// The interval between two looks for launcher processes, in nanoseconds.
    pub fn check_interval_nanos(&self) -> (r: u128)
        ensures
            r == self.check_period * NANOS_PER_SEC,
    {
        assert(self.check_period * NANOS_PER_SEC <= u64::MAX * NANOS_PER_SEC) by (nonlinear_arith);
        self.check_period as u128 * NANOS_PER_SEC
    }

    /// The interval between two port checks once a launcher process has been
    /// found, in nanoseconds.
    pub fn port_check_interval_nanos(&self) -> (r: u128)
        ensures
            r == self.check_period_port * NANOS_PER_SEC,
    {
        assert(self.check_period_port * NANOS_PER_SEC <= u64::MAX * NANOS_PER_SEC)
            by (nonlinear_arith);
        self.check_period_port as u128 * NANOS_PER_SEC
    }
}

impl Default for XivLauncherMonitorOpts {
    fn default() -> (r: XivLauncherMonitorOpts)
        ensures
            r.check_period == DEFAULT_CHECK_PERIOD,
            r.check_period_port == DEFAULT_CHECK_PERIOD_PORT,
    {
        XivLauncherMonitorOpts {
            check_period: DEFAULT_CHECK_PERIOD,
            check_period_port: DEFAULT_CHECK_PERIOD_PORT,
        }
    }
}

impl Default for XivOtpTargetOpts {
    fn default() -> (r: XivOtpTargetOpts)
        ensures
            r.addr@ == "http://localhost:4646"@,
    {
        XivOtpTargetOpts { addr: "http://localhost:4646".to_owned() }
    }
}

impl XivSecretStoreOpts {
    /// The backend these options ask for: none in particular, so the default one.
    pub fn provider(&self) -> (r: Option<SecretProviderOpts>)
        ensures
            r is None,
    {
        None
    }
}

} // verus!

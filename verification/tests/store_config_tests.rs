use xiv_otp::config::{
    XivLauncherMonitorOpts, XivOtpCommands, XivOtpOpts, XivOtpTargetOpts, XivSecretStoreOpts,
    DEFAULT_CHECK_PERIOD, DEFAULT_CHECK_PERIOD_PORT,
};
use xiv_otp::secret_store::{choose_stored_secret, provider_or_default, secret_bytes, SecretProviderOpts};

#[test]
fn first_text_item_is_chosen() {
    let items = vec![vec![0xff, 0xfe], b"first".to_vec(), b"second".to_vec()];
    let r = choose_stored_secret(items);
    assert_eq!(r.secret, Some("first".to_string()));
    assert_eq!(r.readable, 2);
}

#[test]
fn no_text_item_gives_none() {
    let r = choose_stored_secret(vec![vec![0xc3]]);
    assert_eq!(r.secret, None);
    assert_eq!(r.readable, 0);
    let r = choose_stored_secret(Vec::new());
    assert_eq!(r.secret, None);
    assert_eq!(r.readable, 0);
}

#[test]
fn utf8_is_decoded() {
    let r = choose_stored_secret(vec!["clé".as_bytes().to_vec()]);
    assert_eq!(r.secret, Some("clé".to_string()));
    assert_eq!(r.readable, 1);
}

#[test]
fn stored_secret_reads_back() {
    let secret = "otpauth://totp/Square%20Enix:me?secret=GEZDGNBVGY3TQOJQGEZDGNBVGY3TQOJQ&issuer=Square%20Enix";
    let bytes = secret_bytes(secret);
    assert_eq!(bytes, secret.as_bytes().to_vec());
    let r = choose_stored_secret(vec![bytes]);
    assert_eq!(r.secret, Some(secret.to_string()));
    assert_eq!(r.readable, 1);
    let r = choose_stored_secret(vec![secret_bytes("clé"), b"other".to_vec()]);
    assert_eq!(r.secret, Some("clé".to_string()));
    assert_eq!(r.readable, 2);
}

#[test]
fn provider_defaults_to_secret_service() {
    assert_eq!(provider_or_default(None), SecretProviderOpts::Oo7Opts);
    assert_eq!(provider_or_default(Some(SecretProviderOpts::Oo7Opts)), SecretProviderOpts::Oo7Opts);
    assert_eq!(XivSecretStoreOpts {}.provider(), None);
}

#[test]
fn option_defaults() {
    let m = XivLauncherMonitorOpts::default();
    assert_eq!(m.check_period, DEFAULT_CHECK_PERIOD);
    assert_eq!(m.check_period, 30);
    assert_eq!(m.check_period_port, DEFAULT_CHECK_PERIOD_PORT);
    assert_eq!(m.check_period_port, 1);
    assert_eq!(XivOtpTargetOpts::default().addr, "http://localhost:4646");
}

#[test]
fn intervals_in_nanoseconds() {
    let m = XivLauncherMonitorOpts { check_period: 30, check_period_port: 1 };
    assert_eq!(m.check_interval_nanos(), 30_000_000_000);
    assert_eq!(m.port_check_interval_nanos(), 1_000_000_000);
    let big = XivLauncherMonitorOpts { check_period: u64::MAX, check_period_port: 0 };
    assert_eq!(big.check_interval_nanos(), u64::MAX as u128 * 1_000_000_000);
    assert_eq!(big.port_check_interval_nanos(), 0);
}

#[test]
fn options_hold_the_command() {
    let o = XivOtpOpts {
        command: XivOtpCommands::Oneshot { wait: true },
        secret_opts: XivSecretStoreOpts {},
        target_opts: XivOtpTargetOpts::default(),
        monitor_opts: XivLauncherMonitorOpts::default(),
    };
    let c = o.clone();
    assert_eq!(c.command, XivOtpCommands::Oneshot { wait: true });
}

use xiv_otp::monitor::LAUNCHER_PORT;
use xiv_otp::xl_send::{XlSendError, XlSender};

#[test]
fn default_address_gives_launcher_url() {
    let s = XlSender::init("http://localhost:4646").unwrap();
    assert_eq!(s.base_url(), "http://localhost:4646/");
    assert_eq!(s.otp_url("123456").unwrap(), "http://localhost:4646/ffxivlauncher/123456");
}

#[test]
fn base_path_is_replaced() {
    let s = XlSender::init("http://127.0.0.1:4646/some/path?q=1").unwrap();
    assert_eq!(s.otp_url("000111").unwrap(), "http://127.0.0.1:4646/ffxivlauncher/000111?q=1");
}

#[test]
fn segments_are_percent_encoded() {
    let s = XlSender::init("http://localhost:4646").unwrap();
    assert_eq!(s.otp_url("a/b").unwrap(), "http://localhost:4646/ffxivlauncher/a%2Fb");
}

#[test]
fn relative_address_is_rejected() {
    assert!(matches!(XlSender::init("not a url"), Err(XlSendError::InvalidBaseUrl)));
}

#[test]
fn cannot_be_a_base_address_has_no_path() {
    let s = XlSender::init("mailto:someone@example.com").unwrap();
    assert!(matches!(s.otp_url("123456"), Err(XlSendError::BaseCannotHavePath)));
}

#[test]
fn watched_port_is_that_of_the_address() {
    assert_eq!(XlSender::init("http://localhost:4646").unwrap().listen_port(), 4646);
    assert_eq!(XlSender::init("http://127.0.0.1:5000/x").unwrap().listen_port(), 5000);
    assert_eq!(XlSender::init("http://localhost").unwrap().listen_port(), 80);
    assert_eq!(XlSender::init("https://localhost").unwrap().listen_port(), 443);
    assert_eq!(XlSender::init("launcher://localhost").unwrap().listen_port(), LAUNCHER_PORT);
    assert_eq!(LAUNCHER_PORT, 4646);
}

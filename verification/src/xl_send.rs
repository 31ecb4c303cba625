//! Where one-time passwords are submitted: the launcher's base URL and the URL of
//! the request that carries a password.
use crate::monitor::LAUNCHER_PORT;
use crate::urls::{parse_url, port_of_url, replace_url_path, url_parse, url_port, url_with_path};
use vstd::prelude::*;

verus! {

/// The path segment under which the launcher accepts passwords.
pub open spec fn launcher_segment() -> Seq<char> {
    "ffxivlauncher"@
}

/// Submits one-time passwords to a launcher, known by its base URL.
pub struct XlSender {
    base_url: String,
}

/// Why a password cannot be submitted.
#[derive(Clone, Copy, Debug, PartialEq, Eq, Structural)]
pub enum XlSendError {
    /// The base address is not an absolute URL.
    InvalidBaseUrl,
    /// The base URL cannot carry a path (it cannot be a base).
    BaseCannotHavePath,
}

impl View for XlSender {
    type V = Seq<char>;

    /// The serialization of the base URL.
    closed spec fn view(&self) -> Seq<char> {
        self.base_url@
    }
}

impl XlSender {
    /// A sender for the launcher at `base_url`, which must parse as an absolute URL.
    pub fn init(base_url: &str) -> (r: Result<XlSender, XlSendError>)
        ensures
            match url_parse(base_url@) {
                Some(p) => r matches Ok(x) && x@ == p.0,
                None => r == Err::<XlSender, XlSendError>(XlSendError::InvalidBaseUrl),
            },
    {
        match parse_url(base_url) {
            Ok(p) => Ok(XlSender { base_url: p.serialization }),
            Err(_) => Err(XlSendError::InvalidBaseUrl),
        }
    }

    /// The serialization of the base URL.
    pub fn base_url(&self) -> (r: &str)
        ensures
            r@ == self@,
    {
        self.base_url.as_str()
    }

    /// The port on which the launcher at the base URL listens: the port that the URL
    /// names, else its scheme's default port, else the launcher's own port.
    pub fn listen_port(&self) -> (r: u16)
        ensures
            r == match url_port(self@) {
                Some(p) => p,
                None => LAUNCHER_PORT,
            },
    {
        match port_of_url(self.base_url.as_str()) {
            Some(p) => p,
            None => LAUNCHER_PORT,
        }
    }

    /// The URL of the request that submits `otp`: the base URL with its path
    /// replaced by the two segments `ffxivlauncher` and `otp`.
    pub fn otp_url(&self, otp: &str) -> (r: Result<String, XlSendError>)
        ensures
            match url_with_path(self@, seq![launcher_segment(), otp@]) {
                Some(u) => r matches Ok(t) && t@ == u,
                None => r == Err::<String, XlSendError>(XlSendError::BaseCannotHavePath),
            },
    {
        let mut segments: Vec<String> = Vec::new();
        segments.push("ffxivlauncher".to_owned());
        segments.push(otp.to_owned());
        proof {
            assert(segments@.map_values(|s: String| s@) =~= seq![launcher_segment(), otp@]);
        }
        match replace_url_path(self.base_url.as_str(), &segments) {
            Some(u) => Ok(u),
            None => Err(XlSendError::BaseCannotHavePath),
        }
    }
}

} // verus!

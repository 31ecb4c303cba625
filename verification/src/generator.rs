//! TOTP generators: the parameters a generator is made of, the ways to obtain one
//! (from an `otpauth://` URL or from base32 secret text) and token generation.
use vstd::prelude::*;

verus! {

/// The error that building or reading a TOTP reports.
#[verifier::external_type_specification]
#[verifier::external_body]
pub struct ExTotpError(totp_rs::TotpError);

/// The error that decoding base32 secret text reports.
#[verifier::external_type_specification]
#[verifier::external_body]
pub struct ExSecretParseError(totp_rs::SecretParseError);

/// A moment of the system clock.
#[verifier::external_type_specification]
#[verifier::external_body]
pub struct ExSystemTime(std::time::SystemTime);

/// The HMAC hash function a generator signs with.
#[derive(Clone, Copy, Debug, PartialEq, Eq, Structural)]
pub enum HashAlgorithm {
    Sha1,
    Sha256,
    Sha512,
}

/// The name by which a hash algorithm is written (`Algorithm::as_str`).
pub open spec fn algorithm_name(a: HashAlgorithm) -> Seq<char> {
    match a {
        HashAlgorithm::Sha1 => "SHA1"@,
        HashAlgorithm::Sha256 => "SHA256"@,
        HashAlgorithm::Sha512 => "SHA512"@,
    }
}

/// The hash algorithm that a name stands for, if any.
pub open spec fn algorithm_from_name(n: Seq<char>) -> Option<HashAlgorithm> {
    if n == "SHA1"@ {
        Some(HashAlgorithm::Sha1)
    } else if n == "SHA256"@ {
        Some(HashAlgorithm::Sha256)
    } else if n == "SHA512"@ {
        Some(HashAlgorithm::Sha512)
    } else {
        None
    }
}

/// Optional text, as characters.
pub open spec fn opt_text(o: Option<String>) -> Option<Seq<char>> {
    match o {
        Some(s) => Some(s@),
        None => None,
    }
}

/// The parameters of a TOTP as plain values, the algorithm by its name.
pub struct TotpPartsView {
    pub algorithm: Seq<char>,
    pub digits: u8,
    pub skew: u16,
    pub step: u64,
    pub secret: Seq<u8>,
    pub issuer: Option<Seq<char>>,
    pub account_name: Seq<char>,
}

/// The parameters read off a built TOTP.
pub struct TotpParts {
    pub algorithm: String,
    pub digits: u8,
    pub skew: u16,
    pub step: u64,
    pub secret: Vec<u8>,
    pub issuer: Option<String>,
    pub account_name: String,
}

impl View for TotpParts {
    type V = TotpPartsView;

    open spec fn view(&self) -> TotpPartsView {
        TotpPartsView {
            algorithm: self.algorithm@,
            digits: self.digits,
            skew: self.skew,
            step: self.step,
            secret: self.secret@,
            issuer: opt_text(self.issuer),
            account_name: self.account_name@,
        }
    }
}

/// What a generator is: its algorithm, number of digits, accepted skew, step in
/// seconds, secret bytes, issuer and account name.
pub struct OtpParams {
    pub algorithm: HashAlgorithm,
    pub digits: u8,
    pub skew: u16,
    pub step: u64,
    pub secret: Seq<u8>,
    pub issuer: Option<Seq<char>>,
    pub account_name: Seq<char>,
}

/// The generator parameters that read TOTP parts stand for: `None` when the
/// algorithm name is not one of the known three.
pub open spec fn params_from_parts(p: TotpPartsView) -> Option<OtpParams> {
    match algorithm_from_name(p.algorithm) {
        Some(a) => Some(
            OtpParams {
                algorithm: a,
                digits: p.digits,
                skew: p.skew,
                step: p.step,
                secret: p.secret,
                issuer: p.issuer,
                account_name: p.account_name,
            },
        ),
        None => None,
    }
}

/// The parameters that the TOTP read from an `otpauth://` URL has, or `None` when
/// the URL is rejected.
pub uninterp spec fn totp_url_parts(url: Seq<char>) -> Option<TotpPartsView>;

/// The bytes that base32 text (RFC 4648 alphabet, no padding) decodes to, or `None`
/// when it is not valid base32.
pub uninterp spec fn base32_secret(text: Seq<char>) -> Option<Seq<u8>>;

/// The token that a generator with these parameters gives at `time` (seconds
/// since the Unix epoch).
pub uninterp spec fn totp_token(params: OtpParams, time: u64) -> Seq<char>;

/// Whether a text is a token of `digits` decimal digits.
pub open spec fn is_token_text(t: Seq<char>, digits: u8) -> bool {
    &&& t.len() == digits
    &&& forall|i: int| 0 <= i < t.len() ==> '0' <= #[trigger] t[i] <= '9'
}

/// Why no generator could be made.
#[derive(Clone, Copy, Debug, PartialEq, Eq, Structural)]
pub enum GeneratorError {
    /// The `otpauth://` URL was rejected.
    InvalidOtpauthUrl,
    /// The generator uses a hash algorithm this library does not know.
    UnsupportedAlgorithm,
    /// The secret text is not valid base32.
    InvalidBase32,
    /// The decoded secret was refused (shorter than 128 bits).
    SecretRejected,
}

/// A TOTP generator. Its parameters satisfy what building a TOTP checks: 6 to 8
/// digits, a step of at least one second and a secret of at least 16 bytes.
pub struct OtpGenerator {
    algorithm: HashAlgorithm,
    digits: u8,
    skew: u16,
    step: u64,
    secret: Vec<u8>,
    issuer: Option<String>,
    account_name: String,
}

impl View for OtpGenerator {
    type V = OtpParams;

    closed spec fn view(&self) -> OtpParams {
        OtpParams {
            algorithm: self.algorithm,
            digits: self.digits,
            skew: self.skew,
            step: self.step,
            secret: self.secret@,
            issuer: opt_text(self.issuer),
            account_name: self.account_name@,
        }
    }
}

/// Whether generator parameters pass the checks made when a TOTP is built.
pub open spec fn valid_params(p: OtpParams) -> bool {
    &&& 6 <= p.digits <= 8
    &&& p.step > 0
    &&& p.secret.len() >= 16
}

/// Reads a TOTP from an `otpauth://` URL with `totp_rs::Totp::from_url` and takes
/// its parameters through the getters. Claimed: the parameters are the named
/// `totp_url_parts` of the URL; and, as `from_url` ends in `Builder::build`, a
/// TOTP it returns has 6 to 8 digits, a nonzero step and a secret of at least 16
/// bytes; and, the crate built without its `steam` feature, its algorithm is named
/// `SHA1`, `SHA256` or `SHA512`.
#[verifier::external_body]
fn totp_from_url(url: &str) -> (r: Result<TotpParts, totp_rs::TotpError>)
    ensures
        match r {
            Ok(p) => totp_url_parts(url@) == Some(p@),
            Err(_) => totp_url_parts(url@) is None,
        },
        r matches Ok(p) ==> 6 <= p.digits <= 8 && p.step > 0 && p.secret@.len() >= 16,
        r matches Ok(p) ==> p.algorithm@ == algorithm_name(HashAlgorithm::Sha1) || p.algorithm@
            == algorithm_name(HashAlgorithm::Sha256) || p.algorithm@ == algorithm_name(
            HashAlgorithm::Sha512,
        ),
{
    let t = totp_rs::Totp::from_url(url)?;
    Ok(TotpParts { algorithm: t.algorithm().as_str().to_string(), digits: t.digits(),
        skew: t.skew(), step: t.step(), secret: t.secret().as_bytes().to_vec(),
        issuer: t.issuer().map(|s| s.to_string()), account_name: t.account_name().to_string() })
}

/// Decodes base32 secret text with `totp_rs::Secret::try_from_base32`. Claimed: the
/// bytes are the named `base32_secret` of the text.
#[verifier::external_body]
fn decode_base32(text: &str) -> (r: Result<Vec<u8>, totp_rs::SecretParseError>)
    ensures
        match r {
            Ok(b) => base32_secret(text@) == Some(b@),
            Err(_) => base32_secret(text@) is None,
        },
{
    totp_rs::Secret::try_from_base32(text).map(|s| s.as_bytes().to_vec())
}

/// The parameters of a TOTP built from a secret, an algorithm, a step and an issuer,
/// with 6 digits, a skew of 1 and an empty account name.
pub open spec fn built_parts(alg: HashAlgorithm, step: u64, secret: Seq<u8>, issuer: Seq<char>) -> TotpPartsView {
    TotpPartsView {
        algorithm: algorithm_name(alg),
        digits: 6,
        skew: 1,
        step,
        secret,
        issuer: Some(issuer),
        account_name: Seq::empty(),
    }
}

/// Builds a TOTP with `totp_rs::Builder` from a secret, an algorithm, a step and an
/// issuer, the digits (6), skew (1) and account name (empty) left at the builder's
/// defaults, and takes its parameters through the getters. Claimed, from
/// `Builder::build`: it succeeds exactly when the secret has at least 16 bytes, the
/// step is nonzero and the issuer holds no ':', and the TOTP then has exactly the
/// given and default parameters.
#[verifier::external_body]
fn build_totp(secret: Vec<u8>, alg: HashAlgorithm, step: u64, issuer: &str) -> (r: Result<TotpParts, totp_rs::TotpError>)
    ensures
        (secret@.len() >= 16 && step != 0 && !issuer@.contains(':')) <==> r is Ok,
        r matches Ok(p) ==> p@ == built_parts(alg, step, secret@, issuer@),
{
    let algorithm = match alg {
        HashAlgorithm::Sha1 => totp_rs::Algorithm::SHA1,
        HashAlgorithm::Sha256 => totp_rs::Algorithm::SHA256,
        HashAlgorithm::Sha512 => totp_rs::Algorithm::SHA512,
    };
    let t = totp_rs::Builder::new().with_secret(secret).with_step_duration(step)
        .with_algorithm(algorithm).with_issuer(Some(issuer)).build()?;
    Ok(TotpParts { algorithm: t.algorithm().as_str().to_string(), digits: t.digits(),
        skew: t.skew(), step: t.step(), secret: t.secret().as_bytes().to_vec(),
        issuer: t.issuer().map(|s| s.to_string()), account_name: t.account_name().to_string() })
}

/// Generates the token of a generator at `time` with `totp_rs::Totp::generate`,
/// on a TOTP rebuilt from the generator's parameters, and formats it. Claimed: the
/// token is the named `totp_token`; as `Token` is displayed zero-padded to `digits`
/// decimal digits, it is `digits` ASCII digits when there is at least one digit.
/// `generate` panics from 10 digits on and divides by the step.
#[verifier::external_body]
fn totp_generate(g: &OtpGenerator, time: u64) -> (r: String)
    requires
        1 <= g@.digits <= 9,
        g@.step > 0,
    ensures
        r@ == totp_token(g@, time),
        is_token_text(r@, g@.digits),
{
    let alg = match g.algorithm {
        HashAlgorithm::Sha1 => totp_rs::Algorithm::SHA1,
        HashAlgorithm::Sha256 => totp_rs::Algorithm::SHA256,
        HashAlgorithm::Sha512 => totp_rs::Algorithm::SHA512,
    };
    totp_rs::Builder::new().with_algorithm(alg).with_digits(g.digits).with_skew(g.skew)
        .with_step_duration(g.step).with_secret(g.secret.clone()).with_issuer(g.issuer.as_deref())
        .with_account_name(g.account_name.as_str()).build_noncompliant().generate(time).to_string()
}

/// Reads the system clock (`SystemTime::now`). Nothing is claimed of the result.
#[verifier::external_body]
fn system_time_now() -> std::time::SystemTime {
    std::time::SystemTime::now()
}

/// Whole seconds from the Unix epoch to `t` (`SystemTime::duration_since`), `None`
/// when `t` is before the epoch. Nothing is claimed of the value: it rests on the clock.
#[verifier::external_body]
fn unix_seconds(t: &std::time::SystemTime) -> Option<u64> {
    t.duration_since(std::time::UNIX_EPOCH).ok().map(|d| d.as_secs())
}

/// The system clock as whole seconds since the Unix epoch; `None` when it reads a
/// time before the epoch. Nothing can be claimed of the value: it is the clock's.
pub fn unix_time_now() -> Option<u64> {
    let now = system_time_now();
    unix_seconds(&now)
}

/// Overwrites and empties a byte buffer (`zeroize::Zeroize` on `Vec<u8>`).
#[verifier::external_body]
fn wipe_bytes(v: &mut Vec<u8>)
    ensures
        final(v)@ == Seq::<u8>::empty(),
{
    zeroize::Zeroize::zeroize(v)
}

impl OtpGenerator {
    #[verifier::type_invariant]
    spec fn inv(self) -> bool {
        &&& 6 <= self.digits <= 8
        &&& self.step > 0
        &&& self.secret@.len() >= 16
    }

    /// The generator that read TOTP parts stand for; refused when the algorithm name
    /// is not known.
    fn from_parts(p: TotpParts) -> (r: Result<OtpGenerator, GeneratorError>)
        requires
            6 <= p.digits <= 8,
            p.step > 0,
            p.secret@.len() >= 16,
        ensures
            match params_from_parts(p@) {
                Some(g) => r matches Ok(x) && x@ == g,
                None => r == Err::<OtpGenerator, GeneratorError>(
                    GeneratorError::UnsupportedAlgorithm,
                ),
            },
    {
        let algorithm = if crate::text::same_text(p.algorithm.as_str(), "SHA1") {
            HashAlgorithm::Sha1
        } else if crate::text::same_text(p.algorithm.as_str(), "SHA256") {
            HashAlgorithm::Sha256
        } else if crate::text::same_text(p.algorithm.as_str(), "SHA512") {
            HashAlgorithm::Sha512
        } else {
            return Err(GeneratorError::UnsupportedAlgorithm);
        };
        Ok(
            OtpGenerator {
                algorithm,
                digits: p.digits,
                skew: p.skew,
                step: p.step,
                secret: p.secret,
                issuer: p.issuer,
                account_name: p.account_name,
            },
        )
    }

    /// The generator that an `otpauth://` URL describes (`Totp::from_url`).
    pub fn from_otpauth_url(url: &str) -> (r: Result<OtpGenerator, GeneratorError>)
        ensures
            match generator_from_url(url@) {
                Ok(p) => r matches Ok(g) && g@ == p,
                Err(e) => r == Err::<OtpGenerator, GeneratorError>(e),
            },
            r != Err::<OtpGenerator, GeneratorError>(GeneratorError::UnsupportedAlgorithm),
    {
        match totp_from_url(url) {
            Ok(p) => OtpGenerator::from_parts(p),
            Err(_) => Err(GeneratorError::InvalidOtpauthUrl),
        }
    }

    /// The generator for base32 secret text as the launcher's authenticator uses it:
    /// SHA-1, 30-second steps, issuer "Square Enix ID", other settings at their defaults.
    pub fn from_base32_secret(text: &str) -> (r: Result<OtpGenerator, GeneratorError>)
        ensures
            match generator_from_base32(text@) {
                Ok(p) => r matches Ok(g) && g@ == p,
                Err(e) => r == Err::<OtpGenerator, GeneratorError>(e),
            },
    {
        let bytes = match decode_base32(text) {
            Ok(b) => b,
            Err(_) => return Err(GeneratorError::InvalidBase32),
        };
        proof {
            reveal_strlit("Square Enix ID");
        }
        match build_totp(bytes, HashAlgorithm::Sha1, 30, "Square Enix ID") {
            Ok(p) => OtpGenerator::from_parts(p),
            Err(_) => Err(GeneratorError::SecretRejected),
        }
    }

    /// The token at `time` (seconds since the Unix epoch).
    pub fn generate(&self, time: u64) -> (r: String)
        ensures
            r@ == totp_token(self@, time),
            is_token_text(r@, self@.digits),
    {
        proof {
            use_type_invariant(self);
        }
        totp_generate(self, time)
    }

    /// The token for the current system time; `None` when the clock reads a time
    /// before the Unix epoch.
    pub fn generate_current(&self) -> (r: Option<String>)
        ensures
            r matches Some(t) ==> exists|time: u64|
                #![trigger totp_token(self@, time)]
                t@ == totp_token(self@, time),
            r matches Some(t) ==> is_token_text(t@, self@.digits),
    {
        match unix_time_now() {
            Some(time) => Some(self.generate(time)),
            None => None,
        }
    }

    /// Number of digits of the tokens.
    pub fn digits(&self) -> (r: u8)
        ensures
            r == self@.digits,
    {
        self.digits
    }

    /// Length of a step, in seconds.
    pub fn step(&self) -> (r: u64)
        ensures
            r == self@.step,
    {
        self.step
    }

    /// The hash algorithm used for signing.
    pub fn algorithm(&self) -> (r: HashAlgorithm)
        ensures
            r == self@.algorithm,
    {
        self.algorithm
    }

    /// The issuer recorded in the generator.
    pub fn issuer(&self) -> (r: Option<&str>)
        ensures
            match r {
                Some(s) => self@.issuer == Some(s@),
                None => self@.issuer is None,
            },
    {
        match &self.issuer {
            Some(s) => Some(s.as_str()),
            None => None,
        }
    }

    /// Overwrites the secret bytes and drops the generator.
    pub fn wipe(self) {
        let mut secret = self.secret;
        wipe_bytes(&mut secret);
    }
}

/// The generator (or the error) that an `otpauth://` URL gives.
pub open spec fn generator_from_url(url: Seq<char>) -> Result<OtpParams, GeneratorError> {
    match totp_url_parts(url) {
        None => Err(GeneratorError::InvalidOtpauthUrl),
        Some(p) => match params_from_parts(p) {
            Some(g) => Ok(g),
            None => Err(GeneratorError::UnsupportedAlgorithm),
        },
    }
}

/// The parameters of the generator made from base32 secret bytes.
pub open spec fn launcher_params(secret: Seq<u8>) -> OtpParams {
    OtpParams {
        algorithm: HashAlgorithm::Sha1,
        digits: 6,
        skew: 1,
        step: 30,
        secret,
        issuer: Some("Square Enix ID"@),
        account_name: Seq::empty(),
    }
}

/// The generator (or the error) that base32 secret text gives.
pub open spec fn generator_from_base32(text: Seq<char>) -> Result<OtpParams, GeneratorError> {
    match base32_secret(text) {
        None => Err(GeneratorError::InvalidBase32),
        Some(bytes) => if bytes.len() >= 16 {
            Ok(launcher_params(bytes))
        } else {
            Err(GeneratorError::SecretRejected)
        },
    }
}

} // verus!

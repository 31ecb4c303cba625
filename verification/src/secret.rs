//! The authenticator secret as the user gives it: an `otpauth://` URL or base32
//! text, and the generator it yields.
use crate::generator::{
    generator_from_base32, generator_from_url, GeneratorError, OtpGenerator, OtpParams,
};
use crate::text::{is_white_space, strip_white_space, without_white_space};
use crate::urls::{parse_url, url_parse};
use vstd::prelude::*;

verus! {

/// An authenticator secret.
pub enum OtpSecret {
    /// An `otpauth://` URL, kept as it was given.
    OtpauthUrl(String),
    /// Base32 text, white space taken out.
    Base32(String),
}

/// An authenticator secret as characters.
pub enum SecretView {
    OtpauthUrl(Seq<char>),
    Base32(Seq<char>),
}

impl View for OtpSecret {
    type V = SecretView;

    open spec fn view(&self) -> SecretView {
        match self {
            OtpSecret::OtpauthUrl(s) => SecretView::OtpauthUrl(s@),
            OtpSecret::Base32(s) => SecretView::Base32(s@),
        }
    }
}

/// Why a text is not an authenticator secret.
#[derive(Clone, Copy, Debug, PartialEq, Eq, Structural)]
pub enum SecretError {
    /// The text is neither an `otpauth` URL nor base32 text.
    Unrecognized,
}

/// The text that reports a secret as unrecognized.
pub open spec fn unrecognized_message() -> Seq<char> {
    "Provided string was neither an otpauth url nor a base32 encoded string."@
}

impl SecretError {
    /// The text that reports this error.
    pub fn message(&self) -> (r: String)
        ensures
            r@ == match self {
                SecretError::Unrecognized => unrecognized_message(),
            },
    {
        match self {
            SecretError::Unrecognized => {
                "Provided string was neither an otpauth url nor a base32 encoded string.".to_owned()
            },
        }
    }
}

/// The characters accepted in base32 secret text: `A` to `Z` and `0` to `7`.
pub open spec fn is_base32_char(c: char) -> bool {
    ('A' <= c <= 'Z') || ('0' <= c <= '7')
}

/// Whether every character of `s` is accepted in base32 secret text.
pub open spec fn all_base32(s: Seq<char>) -> bool {
    forall|i: int| 0 <= i < s.len() ==> is_base32_char(#[trigger] s[i])
}

/// Whether `s` parses as an absolute URL whose scheme is `otpauth`.
pub open spec fn is_otpauth_url(s: Seq<char>) -> bool {
    url_parse(s) matches Some(p) && p.1 == "otpauth"@
}

/// The secret that a text is: an `otpauth` URL as given, else the text without its
/// white space when every remaining character is base32, else nothing.
pub open spec fn parse_secret(s: Seq<char>) -> Option<SecretView> {
    if is_otpauth_url(s) {
        Some(SecretView::OtpauthUrl(s))
    } else if all_base32(without_white_space(s)) {
        Some(SecretView::Base32(without_white_space(s)))
    } else {
        None
    }
}

/// The generator (or the error) that a secret gives.
pub open spec fn generator_of(secret: SecretView) -> Result<OtpParams, GeneratorError> {
    match secret {
        SecretView::OtpauthUrl(u) => generator_from_url(u),
        SecretView::Base32(b) => generator_from_base32(b),
    }
}

/// The generator that a text yields, when it is a secret and the secret gives one.
pub open spec fn generator_of_text(s: Seq<char>) -> Option<OtpParams> {
    match parse_secret(s) {
        Some(secret) => match generator_of(secret) {
            Ok(g) => Some(g),
            Err(_) => None,
        },
        None => None,
    }
}

/// Whether every character of `s` is accepted in base32 secret text.
fn is_all_base32(s: &str) -> (r: bool)
    ensures
        r == all_base32(s@),
{
    let n = s.unicode_len();
    let mut i: usize = 0;
    while i < n
        invariant
            n == s@.len(),
            i <= n,
            forall|j: int| 0 <= j < i ==> is_base32_char(#[trigger] s@[j]),
        decreases n - i,
    {
        let c = s.get_char(i);
        if !(('A' <= c && c <= 'Z') || ('0' <= c && c <= '7')) {
            return false;
        }
        i = i + 1;
    }
    true
}

/// Empties a text after overwriting it (`zeroize::Zeroize` on `String`).
#[verifier::external_body]
pub(crate) fn wipe_text(s: &mut String)
    ensures
        final(s)@ == Seq::<char>::empty(),
{
    zeroize::Zeroize::zeroize(s)
}

impl OtpSecret {
    /// Reads a secret: first as an `otpauth` URL, then, with all white space taken
    /// out, as base32 text.
    pub fn parse(s: &str) -> (r: Result<OtpSecret, SecretError>)
        ensures
            match parse_secret(s@) {
                Some(v) => r matches Ok(x) && x@ == v,
                None => r == Err::<OtpSecret, SecretError>(SecretError::Unrecognized),
            },
    {
        let is_url = match parse_url(s) {
            Ok(p) => crate::text::same_text(p.scheme.as_str(), "otpauth"),
            Err(_) => false,
        };
        if is_url {
            return Ok(OtpSecret::OtpauthUrl(s.to_owned()));
        }
        let compact = strip_white_space(s);
        if is_all_base32(compact.as_str()) {
            Ok(OtpSecret::Base32(compact))
        } else {
            Err(SecretError::Unrecognized)
        }
    }

    /// The generator that this secret gives. The secret text is wiped afterwards.
    pub fn to_otp_generator(self) -> (r: Result<OtpGenerator, GeneratorError>)
        ensures
            match generator_of(self@) {
                Ok(p) => r matches Ok(g) && g@ == p,
                Err(e) => r == Err::<OtpGenerator, GeneratorError>(e),
            },
    {
        let mut text = self;
        let res = match &text {
            OtpSecret::OtpauthUrl(u) => OtpGenerator::from_otpauth_url(u.as_str()),
            OtpSecret::Base32(b) => OtpGenerator::from_base32_secret(b.as_str()),
        };
        text.zeroize();
        res
    }

    /// Overwrites the secret text and leaves it empty, of the same kind.
    pub fn zeroize(&mut self)
        ensures
            match *final(self) {
                OtpSecret::OtpauthUrl(s) => old(self)@ is OtpauthUrl && s@.len() == 0,
                OtpSecret::Base32(s) => old(self)@ is Base32 && s@.len() == 0,
            },
    {
        match self {
            OtpSecret::OtpauthUrl(s) => wipe_text(s),
            OtpSecret::Base32(s) => wipe_text(s),
        }
    }
}

impl std::str::FromStr for OtpSecret {
    type Err = SecretError;

    fn from_str(s: &str) -> (r: Result<OtpSecret, SecretError>)
        ensures
            match parse_secret(s@) {
                Some(v) => r matches Ok(x) && x@ == v,
                None => r == Err::<OtpSecret, SecretError>(SecretError::Unrecognized),
            },
    {
        OtpSecret::parse(s)
    }
}

/// The generator that a secret text yields: the text is read as a secret, then the
/// secret made into a generator; `None` when either step fails.
pub fn generator_from_text(s: &str) -> (r: Option<OtpGenerator>)
    ensures
        match generator_of_text(s@) {
            Some(p) => r matches Some(g) && g@ == p,
            None => r is None,
        },
{
    match OtpSecret::parse(s) {
        Ok(secret) => match secret.to_otp_generator() {
            Ok(g) => Some(g),
            Err(_) => None,
        },
        Err(_) => None,
    }
}

/// A base32 secret holds no white space.
pub proof fn lemma_base32_has_no_white_space(s: Seq<char>)
    requires
        parse_secret(s) matches Some(SecretView::Base32(b)),
    ensures
        parse_secret(s) matches Some(SecretView::Base32(b)) && forall|i: int|
            0 <= i < b.len() ==> !is_white_space(#[trigger] b[i]),
{
    lemma_without_white_space_clean(s);
}

/// No character of `without_white_space(s)` is white space, and each of them is a
/// character of `s`.
pub proof fn lemma_without_white_space_clean(s: Seq<char>)
    ensures
        forall|i: int|
            0 <= i < without_white_space(s).len() ==> !is_white_space(
                #[trigger] without_white_space(s)[i],
            ),
    decreases s.len(),
{
    if s.len() > 0 {
        let rest = without_white_space(s.drop_last());
        lemma_without_white_space_clean(s.drop_last());
        if !is_white_space(s.last()) {
            assert forall|i: int| 0 <= i < without_white_space(s).len() implies !is_white_space(
                #[trigger] without_white_space(s)[i],
            ) by {
                if i < rest.len() {
                    assert(without_white_space(s)[i] == rest[i]);
                }
            }
        }
    }
}

/// Taking the white space out twice is taking it out once.
pub proof fn lemma_without_white_space_idempotent(s: Seq<char>)
    ensures
        without_white_space(without_white_space(s)) == without_white_space(s),
    decreases s.len(),
{
    if s.len() > 0 {
        let rest = without_white_space(s.drop_last());
        lemma_without_white_space_idempotent(s.drop_last());
        if !is_white_space(s.last()) {
            assert(rest.push(s.last()).drop_last() =~= rest);
        }
    }
}

/// Reading the base32 text of a secret again gives the same secret, unless that
/// text were itself an `otpauth` URL (it cannot parse as one: it has no ':', which
/// every parsed URL has, but that is known of each call of the parser, not of the
/// named parse).
pub proof fn lemma_base32_reads_back(s: Seq<char>, b: Seq<char>)
    requires
        parse_secret(s) == Some(SecretView::Base32(b)),
        !is_otpauth_url(b),
    ensures
        parse_secret(b) == Some(SecretView::Base32(b)),
{
    lemma_without_white_space_idempotent(s);
}

/// A text yields a generator by the kind of secret it is. A text that parses as an
/// `otpauth` URL yields the generator that the URL describes (`Totp::from_url`), and
/// none exactly when the URL describes none. Any other text whose characters, white
/// space left out, are all base32 yields the launcher's generator for the decoded
/// secret, and none exactly when the text does not decode or the secret is too short.
pub proof fn lemma_text_generator_by_kind(s: Seq<char>)
    ensures
        is_otpauth_url(s) ==> match generator_from_url(s) {
            Ok(g) => generator_of_text(s) == Some(g),
            Err(_) => generator_of_text(s) is None,
        },
        !is_otpauth_url(s) && all_base32(without_white_space(s)) ==> match generator_from_base32(
            without_white_space(s),
        ) {
            Ok(g) => generator_of_text(s) == Some(g),
            Err(_) => generator_of_text(s) is None,
        },
        !is_otpauth_url(s) && !all_base32(without_white_space(s)) ==> generator_of_text(s) is None,
{
}

} // verus!

//! The certificate authority the proxy signs its site certificates with,
//! and the certificates it makes for intercepted HTTPS sites.
use vstd::prelude::*;
use crate::text::push_str;

verus! {

/// `rcgen::KeyPair`.
#[verifier::external_type_specification]
#[verifier::external_body]
pub struct ExKeyPair(rcgen::KeyPair);

/// `rcgen::Certificate`.
#[verifier::external_type_specification]
#[verifier::external_body]
pub struct ExCertificate(rcgen::Certificate);

/// `rcgen::CertificateParams`.
#[verifier::external_type_specification]
#[verifier::external_body]
pub struct ExCertificateParams(rcgen::CertificateParams);

/// `rcgen::Error`.
#[verifier::external_type_specification]
#[verifier::external_body]
pub struct ExRcgenError(rcgen::Error);

/// `std::time::SystemTime`.
#[verifier::external_type_specification]
#[verifier::external_body]
pub struct ExSystemTime(std::time::SystemTime);

/// `rcgen::Issuer`.
#[verifier::external_type_specification]
#[verifier::external_body]
#[verifier::reject_recursive_types(S)]
pub struct ExIssuer<'a, S>(rcgen::Issuer<'a, S>);

/// How long the certificate authority is valid: a year, in seconds.
pub const CA_VALIDITY_SECS: u64 = 31536000;

/// Why making the certificate authority failed, with the cause's text.
#[derive(Debug, PartialEq)]
pub enum CertError {
    KeyPairGeneration(String),
    CertificateParamsCreation(String),
    CertificateSigning(String),
}

impl CertError {
    /// The error's text, as its `Display` writes it.
    pub fn to_text(&self) -> (r: String)
        ensures
            r@ == (match *self {
                CertError::KeyPairGeneration(c) => "Failed to generate key pair: "@ + c@,
                CertError::CertificateParamsCreation(c) => "Failed to create certificate parameters: "@
                    + c@,
                CertError::CertificateSigning(c) => "Failed to sign certificate: "@ + c@,
            }),
    {
        let mut r = String::new();
        match self {
            CertError::KeyPairGeneration(c) => {
                push_str(&mut r, "Failed to generate key pair: ");
                push_str(&mut r, c.as_str());
            },
            CertError::CertificateParamsCreation(c) => {
                push_str(&mut r, "Failed to create certificate parameters: ");
                push_str(&mut r, c.as_str());
            },
            CertError::CertificateSigning(c) => {
                push_str(&mut r, "Failed to sign certificate: ");
                push_str(&mut r, c.as_str());
            },
        }
        r
    }
}

/// The text `Display` writes for an `rcgen::Error`; nothing is said of it.
#[verifier::external_body]
fn rcgen_error_text(e: &rcgen::Error) -> String {
    e.to_string()
}

/// `rcgen::KeyPair::generate`: a new random ECDSA P-256 key pair. Being
/// random, nothing is said of it.
#[verifier::external_body]
fn new_key_pair() -> Result<rcgen::KeyPair, rcgen::Error> {
    rcgen::KeyPair::generate()
}

/// The last second a certificate's dates can hold, from the epoch: the
/// end of the year 9999, the last date of `time::OffsetDateTime`.
pub const LAST_CERT_SECOND: u64 = 253402300799;

/// What a set of certificate parameters says, as far as this library sets
/// it.
pub struct ParamsModel {
    /// The subject alternative names, as given.
    pub subject_alt_names: Seq<Seq<char>>,
    /// `Some(n)`: an authority under which at most `n` further authorities
    /// may stand; `None`: no authority.
    pub ca_path_len: Option<u8>,
    /// The subject's common name.
    pub common_name: Seq<char>,
    /// The first and the last second of validity, from the epoch; `None`:
    /// rcgen's default span, 1975 to 4096.
    pub validity: Option<(u64, u64)>,
}

/// The parameters `CertificateParams::new` makes for these names: no
/// authority, the common name `rcgen self signed cert`, the default span.
pub open spec fn default_params(names: Seq<Seq<char>>) -> ParamsModel {
    ParamsModel {
        subject_alt_names: names,
        ca_path_len: None,
        common_name: "rcgen self signed cert"@,
        validity: None,
    }
}

/// Who signed a certificate.
pub enum Signer {
    /// The certificate's own key.
    SelfSigned,
    /// The authority read from this certificate and this PKCS#8 key, both
    /// DER.
    Authority { cert_der: Seq<u8>, key_der: Seq<u8> },
}

/// What a certificate was made from.
pub struct Made {
    pub params: ParamsModel,
    /// The key pair whose public key the certificate carries.
    pub subject_key: rcgen::KeyPair,
    pub signer: Signer,
}

/// Certificate parameters, with what they say.
struct CertParams {
    params: rcgen::CertificateParams,
    model: Ghost<ParamsModel>,
}

/// A PKCS#8 key, with the bytes it was read from.
struct CaKey {
    key: rcgen::KeyPair,
    der: Ghost<Seq<u8>>,
}

/// An issuer, with the certificate and key bytes it was read from.
struct CaIssuer {
    issuer: rcgen::Issuer<'static, rcgen::KeyPair>,
    cert_der: Ghost<Seq<u8>>,
    key_der: Ghost<Seq<u8>>,
}

/// A certificate this library made, with what it was made from.
pub struct SignedCertificate {
    certificate: rcgen::Certificate,
    made: Ghost<Made>,
}

impl SignedCertificate {
    /// What the certificate was made from.
    pub closed spec fn made(&self) -> Made {
        self.made@
    }

    /// The certificate.
    pub closed spec fn cert(&self) -> rcgen::Certificate {
        self.certificate
    }

    pub fn certificate(&self) -> (r: &rcgen::Certificate)
        ensures
            *r == self.cert(),
    {
        &self.certificate
    }

    pub fn into_certificate(self) -> (r: rcgen::Certificate)
        ensures
            r == self.cert(),
    {
        self.certificate
    }
}

/// `rcgen::CertificateParams::new` with the given subject alternative
/// names: when every name is a valid DNS name or an IP address, rcgen's
/// defaults with those names.
#[verifier::external_body]
fn new_params(subject_alt_names: Vec<String>) -> (r: Result<CertParams, rcgen::Error>)
    ensures
        r matches Ok(p) ==> p.model@ == default_params(
            subject_alt_names@.map_values(|n: String| n@),
        ),
        subject_alt_names@.len() == 0 ==> r is Ok,
{
    let model = Ghost(default_params(subject_alt_names@.map_values(|n: String| n@)));
    match rcgen::CertificateParams::new(subject_alt_names) {
        Ok(params) => Ok(CertParams { params, model }),
        Err(e) => Err(e),
    }
}

/// Sets `is_ca`: `Some(n)` makes an authority with path length `n`,
/// `None` no authority.
#[verifier::external_body]
fn set_is_ca(p: &mut CertParams, path_len: Option<u8>)
    ensures
        final(p).model@ == (ParamsModel { ca_path_len: path_len, ..old(p).model@ }),
{
    p.params.is_ca = match path_len {
        Some(n) => rcgen::IsCa::Ca(rcgen::BasicConstraints::Constrained(n)),
        None => rcgen::IsCa::NoCa,
    };
}

/// `DistinguishedName::push` of a common name on the subject, which
/// replaces the common name there was.
#[verifier::external_body]
fn push_common_name(p: &mut CertParams, name: &str)
    ensures
        final(p).model@ == (ParamsModel { common_name: name@, ..old(p).model@ }),
{
    p.params.distinguished_name.push(rcgen::DnType::CommonName, name);
}

/// `SystemTime::now`: the clock's present time. Being the time, nothing is
/// said of it.
#[verifier::external_body]
fn now() -> std::time::SystemTime {
    std::time::SystemTime::now()
}

/// `SystemTime::duration_since(UNIX_EPOCH)` in whole seconds; `None` for a
/// time before the epoch. Nothing is said of the time.
#[verifier::external_body]
fn secs_since_epoch(t: std::time::SystemTime) -> Option<u64> {
    match t.duration_since(std::time::UNIX_EPOCH) {
        Ok(d) => Some(d.as_secs()),
        Err(_) => None,
    }
}

/// Sets the parameters' `not_before` and `not_after` to the given seconds
/// from the epoch, each turned into a `SystemTime` and converted by
/// `From<SystemTime> for time::OffsetDateTime`, which holds every second up
/// to `LAST_CERT_SECOND`.
#[verifier::external_body]
fn set_validity(p: &mut CertParams, not_before: u64, not_after: u64)
    requires
        not_before <= LAST_CERT_SECOND,
        not_after <= LAST_CERT_SECOND,
    ensures
        final(p).model@ == (ParamsModel {
            validity: Some((not_before, not_after)),
            ..old(p).model@
        }),
{
    let from = std::time::UNIX_EPOCH + std::time::Duration::from_secs(not_before);
    let to = std::time::UNIX_EPOCH + std::time::Duration::from_secs(not_after);
    p.params.not_before = from.into();
    p.params.not_after = to.into();
}

/// `CertificateParams::self_signed`: the certificate made from the
/// parameters, for `key_pair` and signed with it. Signing uses fresh
/// randomness, so whether it succeeds is not said.
#[verifier::external_body]
fn sign_self(p: &CertParams, key_pair: &rcgen::KeyPair) -> (r: Result<
    SignedCertificate,
    rcgen::Error,
>)
    ensures
        r matches Ok(c) ==> c.made() == (Made {
            params: p.model@,
            subject_key: *key_pair,
            signer: Signer::SelfSigned,
        }),
{
    let made = Ghost(Made { params: p.model@, subject_key: *key_pair, signer: Signer::SelfSigned });
    match p.params.self_signed(key_pair) {
        Ok(certificate) => Ok(SignedCertificate { certificate, made }),
        Err(e) => Err(e),
    }
}

/// `CertificateParams::signed_by`: the certificate made from the
/// parameters, for `key_pair`, signed by `issuer`.
#[verifier::external_body]
fn sign_by(p: &CertParams, key_pair: &rcgen::KeyPair, issuer: &CaIssuer) -> (r: Result<
    SignedCertificate,
    rcgen::Error,
>)
    ensures
        r matches Ok(c) ==> c.made() == (Made {
            params: p.model@,
            subject_key: *key_pair,
            signer: Signer::Authority { cert_der: issuer.cert_der@, key_der: issuer.key_der@ },
        }),
{
    let signer = Signer::Authority { cert_der: issuer.cert_der@, key_der: issuer.key_der@ };
    let made = Ghost(Made { params: p.model@, subject_key: *key_pair, signer });
    match p.params.signed_by(key_pair, &issuer.issuer) {
        Ok(certificate) => Ok(SignedCertificate { certificate, made }),
        Err(e) => Err(e),
    }
}

/// `KeyPair::try_from(&PrivatePkcs8KeyDer)`: parses a PKCS#8 DER key.
#[verifier::external_body]
fn parse_pkcs8_key(der: &[u8]) -> (r: Result<CaKey, rcgen::Error>)
    ensures
        r matches Ok(k) ==> k.der@ == der@,
{
    let bytes = Ghost(der@);
    let key = rustls::pki_types::PrivatePkcs8KeyDer::from(der.to_vec());
    match rcgen::KeyPair::try_from(&key) {
        Ok(key) => Ok(CaKey { key, der: bytes }),
        Err(e) => Err(e),
    }
}

/// `Issuer::from_ca_cert_der`: an issuer from a CA certificate in DER and
/// its key.
#[verifier::external_body]
fn issuer_from_der(ca_cert_der: &[u8], key: CaKey) -> (r: Result<CaIssuer, rcgen::Error>)
    ensures
        r matches Ok(i) ==> i.cert_der@ == ca_cert_der@ && i.key_der@ == key.der@,
{
    let (cert_der, key_der) = (Ghost(ca_cert_der@), key.der);
    let cert = rustls::pki_types::CertificateDer::from(ca_cert_der.to_vec());
    match rcgen::Issuer::from_ca_cert_der(&cert, key.key) {
        Ok(issuer) => Ok(CaIssuer { issuer, cert_der, key_der }),
        Err(e) => Err(e),
    }
}

/// A new random key pair for the certificate authority.
pub fn generate_key_pair() -> (r: Result<rcgen::KeyPair, CertError>)
    ensures
        r matches Err(e) ==> e is KeyPairGeneration,
{
    match new_key_pair() {
        Ok(k) => Ok(k),
        Err(e) => Err(CertError::KeyPairGeneration(rcgen_error_text(&e))),
    }
}

/// The span the certificate authority is valid for, from the clock's
/// reading in whole seconds from the epoch (`None` for a reading before
/// it): a year from that second, when its end is no later than
/// `LAST_CERT_SECOND`.
pub open spec fn ca_validity_span(now_secs: Option<u64>) -> Option<(u64, u64)> {
    match now_secs {
        Some(t) => if t <= LAST_CERT_SECOND - CA_VALIDITY_SECS {
            Some((t, (t + CA_VALIDITY_SECS) as u64))
        } else {
            None
        },
        None => None,
    }
}

/// The authority's span of validity for a clock reading: a year from it.
/// A reading before the epoch, or one whose year would end past
/// `LAST_CERT_SECOND`, is refused.
pub fn ca_validity(now_secs: Option<u64>) -> (r: Result<(u64, u64), CertError>)
    ensures
        match ca_validity_span(now_secs) {
            Some(span) => r == Ok::<(u64, u64), CertError>(span),
            None => r matches Err(CertError::CertificateParamsCreation(t)) && t@
                == "the clock reads a time the certificate cannot hold"@,
        },
{
    match now_secs {
        Some(t) => if t <= LAST_CERT_SECOND - CA_VALIDITY_SECS {
            return Ok((t, t + CA_VALIDITY_SECS));
        },
        None => {},
    }
    let mut t = String::new();
    push_str(&mut t, "the clock reads a time the certificate cannot hold");
    Err(CertError::CertificateParamsCreation(t))
}

/// The certificate authority's certificate: for `key_pair` and
/// self-signed with it, for no further names, named `Charlotte Proxy CA`,
/// an authority under which no further authority may stand, valid for the
/// span `ca_validity` gives for the clock's present second. The parameters
/// are refused only when `ca_validity` refuses the clock's reading.
pub fn generate_certificate(key_pair: &rcgen::KeyPair) -> (r: Result<SignedCertificate, CertError>)
    ensures
        r matches Ok(c) ==> {
            &&& c.made().params.subject_alt_names == Seq::<Seq<char>>::empty()
            &&& c.made().params.ca_path_len == Some(0u8)
            &&& c.made().params.common_name == "Charlotte Proxy CA"@
            &&& c.made().params.validity matches Some((from, to)) && ca_validity_span(Some(from))
                == Some((from, to))
            &&& c.made().subject_key == *key_pair
            &&& c.made().signer is SelfSigned
        },
        r matches Err(e) ==> (e is CertificateSigning || (e matches CertError::CertificateParamsCreation(
            t,
        ) && t@ == "the clock reads a time the certificate cannot hold"@)),
{
    let mut params = match new_params(Vec::new()) {
        Ok(p) => p,
        Err(e) => return Err(CertError::CertificateParamsCreation(rcgen_error_text(&e))),
    };
    set_is_ca(&mut params, Some(0));
    push_common_name(&mut params, "Charlotte Proxy CA");
    let (not_before, not_after) = match ca_validity(secs_since_epoch(now())) {
        Ok(span) => span,
        Err(e) => return Err(e),
    };
    set_validity(&mut params, not_before, not_after);
    match sign_self(&params, key_pair) {
        Ok(cert) => Ok(cert),
        Err(e) => Err(CertError::CertificateSigning(rcgen_error_text(&e))),
    }
}

/// `prefix` followed by some text.
pub open spec fn starts_with(s: Seq<char>, prefix: Seq<char>) -> bool {
    prefix.len() <= s.len() && s.subrange(0, prefix.len() as int) == prefix
}

fn prefixed(prefix: &str, cause: String) -> (r: String)
    ensures
        starts_with(r@, prefix@),
{
    let mut r = String::new();
    push_str(&mut r, prefix);
    push_str(&mut r, cause.as_str());
    assert(r@.subrange(0, prefix@.len() as int) == prefix@);
    r
}

/// The certificate authority's certificate and key, as DER bytes.
#[derive(Debug, PartialEq)]
pub struct CertificateStore {
    pub ca_cert_bytes: Vec<u8>,
    pub ca_key_bytes: Vec<u8>,
}

impl CertificateStore {
    /// A store holding copies of the given certificate and key.
    pub fn new(ca_cert_bytes: &[u8], ca_key_bytes: &[u8]) -> (r: Result<Self, String>)
        ensures
            r matches Ok(s) && s.ca_cert_bytes@ == ca_cert_bytes@ && s.ca_key_bytes@
                == ca_key_bytes@,
    {
        Ok(CertificateStore {
            ca_cert_bytes: vstd::slice::slice_to_vec(ca_cert_bytes),
            ca_key_bytes: vstd::slice::slice_to_vec(ca_key_bytes),
        })
    }

    /// The issuer the stored certificate and key make.
    fn get_issuer(&self) -> (r: Result<CaIssuer, String>)
        ensures
            r matches Ok(i) ==> i.cert_der@ == self.ca_cert_bytes@ && i.key_der@
                == self.ca_key_bytes@,
            r matches Err(t) ==> starts_with(t@, "Failed to parse CA key: "@) || starts_with(
                t@,
                "Failed to create issuer from CA cert: "@,
            ),
    {
        let key_pair = match parse_pkcs8_key(self.ca_key_bytes.as_slice()) {
            Ok(k) => k,
            Err(e) => return Err(prefixed("Failed to parse CA key: ", rcgen_error_text(&e))),
        };
        match issuer_from_der(self.ca_cert_bytes.as_slice(), key_pair) {
            Ok(issuer) => Ok(issuer),
            Err(e) => Err(prefixed("Failed to create issuer from CA cert: ", rcgen_error_text(&e))),
        }
    }

    /// A certificate for `domain` alone, not an authority, for a new key
    /// pair, signed by the authority read from the stored certificate and
    /// key; otherwise rcgen's defaults. On failure, the step that failed
    /// and why.
    pub fn generate_cert(&self, domain: &str) -> (r: Result<
        (SignedCertificate, rcgen::KeyPair),
        String,
    >)
        ensures
            r matches Ok((c, k)) ==> c.made() == (Made {
                params: default_params(seq![domain@]),
                subject_key: k,
                signer: Signer::Authority {
                    cert_der: self.ca_cert_bytes@,
                    key_der: self.ca_key_bytes@,
                },
            }),
            r matches Err(t) ==> {
                ||| starts_with(t@, "Failed to parse CA key: "@)
                ||| starts_with(t@, "Failed to create issuer from CA cert: "@)
                ||| starts_with(t@, "Failed to create certificate params: "@)
                ||| starts_with(t@, "Failed to generate key pair: "@)
                ||| starts_with(t@, "Failed to sign certificate: "@)
            },
    {
        let issuer = match self.get_issuer() {
            Ok(i) => i,
            Err(t) => return Err(t),
        };
        let mut names: Vec<String> = Vec::new();
        names.push(domain.to_string());
        assert(names@.map_values(|n: String| n@) == seq![domain@]);
        let mut params = match new_params(names) {
            Ok(p) => p,
            Err(e) => return Err(
                prefixed("Failed to create certificate params: ", rcgen_error_text(&e)),
            ),
        };
        set_is_ca(&mut params, None);
        let domain_keypair = match new_key_pair() {
            Ok(k) => k,
            Err(e) => return Err(prefixed("Failed to generate key pair: ", rcgen_error_text(&e))),
        };
        match sign_by(&params, &domain_keypair, &issuer) {
            Ok(cert) => Ok((cert, domain_keypair)),
            Err(e) => Err(prefixed("Failed to sign certificate: ", rcgen_error_text(&e))),
        }
    }
}

} // verus!

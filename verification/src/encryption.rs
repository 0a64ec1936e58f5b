//! Certificate fingerprints
//!
//! A peer is recognised by the SHA-256 digest of its certificate, written as
//! upper-case hex byte pairs joined by ':'. Generating and loading the
//! certificate files, and the rustls configurations built from the
//! certificate, belong to the application; the PEM text read from the files
//! is parsed here.

use vstd::prelude::*;
use vstd::utf8::*;
use vstd::string::*;
use sha2::Digest;
use rcgen::{CertificateParams, DnType, Ia5String, KeyPair, SanType};
use rcgen::Error as RcgenError;
use crate::error::Error;

verus! {

/// The SHA-256 digest of `data`, as `sha2` computes it.
pub uninterp spec fn sha256_digest(data: Seq<u8>) -> Seq<u8>;

/// `sha2::Sha256::digest`: the SHA-256 digest of `data`, which is 32 bytes
/// long. The digest itself is only named here, not described.
#[verifier::external_body]
fn sha256(data: &[u8]) -> (digest: Vec<u8>)
    ensures
        digest@ == sha256_digest(data@),
        digest@.len() == 32,
{
    sha2::Sha256::digest(data).to_vec()
}

/// The upper-case hex digit of `n` (below 16).
pub open spec fn hex_char(n: int) -> char {
    if n == 0 {
        '0'
    } else if n == 1 {
        '1'
    } else if n == 2 {
        '2'
    } else if n == 3 {
        '3'
    } else if n == 4 {
        '4'
    } else if n == 5 {
        '5'
    } else if n == 6 {
        '6'
    } else if n == 7 {
        '7'
    } else if n == 8 {
        '8'
    } else if n == 9 {
        '9'
    } else if n == 10 {
        'A'
    } else if n == 11 {
        'B'
    } else if n == 12 {
        'C'
    } else if n == 13 {
        'D'
    } else if n == 14 {
        'E'
    } else {
        'F'
    }
}

/// The value of an upper-case hexadecimal digit character.
pub open spec fn hex_digit_value(c: char) -> int {
    if '0' <= c <= '9' {
        c as int - '0' as int
    } else {
        c as int - 'A' as int + 10
    }
}

/// Every hex digit of a fingerprint is an upper-case digit ('0'-'9' or
/// 'A'-'F') whose value is the number it stands for, so each byte's pair
/// reads back as the byte: the high digit times 16 plus the low digit.
pub proof fn lemma_hex_pair_reads_back(b: u8)
    ensures
        ('0' <= hex_pair(b)[0] <= '9' || 'A' <= hex_pair(b)[0] <= 'F'),
        ('0' <= hex_pair(b)[1] <= '9' || 'A' <= hex_pair(b)[1] <= 'F'),
        hex_digit_value(hex_pair(b)[0]) * 16 + hex_digit_value(hex_pair(b)[1]) == b,
{
    assert('0' as int == 48 && '9' as int == 57 && 'A' as int == 65 && 'F' as int == 70);
    let hi = b as int / 16;
    let lo = b as int % 16;
    assert(hi * 16 + lo == b) by (nonlinear_arith)
        requires
            hi == b as int / 16,
            lo == b as int % 16,
    ;
    assert(0 <= hi < 16 && 0 <= lo < 16);
    assert(hex_digit_value(hex_char(hi)) == hi && hex_digit_value(hex_char(lo)) == lo) by {
        assert('1' as int == 49 && '2' as int == 50 && '3' as int == 51 && '4' as int == 52 && '5' as int
            == 53 && '6' as int == 54 && '7' as int == 55 && '8' as int == 56 && 'B' as int == 66
            && 'C' as int == 67 && 'D' as int == 68 && 'E' as int == 69);
    }
}

/// The two hex digits of a byte.
pub open spec fn hex_pair(b: u8) -> Seq<char> {
    seq![hex_char(b as int / 16), hex_char(b as int % 16)]
}

/// A digest written as hex byte pairs joined by ':'.
pub open spec fn fingerprint_text(d: Seq<u8>) -> Seq<char>
    decreases d.len(),
{
    if d.len() == 0 {
        Seq::empty()
    } else if d.len() == 1 {
        hex_pair(d[0])
    } else {
        fingerprint_text(d.drop_last()) + seq![':'] + hex_pair(d.last())
    }
}

fn hex_digit(n: u8) -> (s: &'static str)
    requires
        n < 16,
    ensures
        s@ == seq![hex_char(n as int)],
{
    if n == 0 {
        proof {
            reveal_strlit("0");
        }
        "0"
    } else if n == 1 {
        proof {
            reveal_strlit("1");
        }
        "1"
    } else if n == 2 {
        proof {
            reveal_strlit("2");
        }
        "2"
    } else if n == 3 {
        proof {
            reveal_strlit("3");
        }
        "3"
    } else if n == 4 {
        proof {
            reveal_strlit("4");
        }
        "4"
    } else if n == 5 {
        proof {
            reveal_strlit("5");
        }
        "5"
    } else if n == 6 {
        proof {
            reveal_strlit("6");
        }
        "6"
    } else if n == 7 {
        proof {
            reveal_strlit("7");
        }
        "7"
    } else if n == 8 {
        proof {
            reveal_strlit("8");
        }
        "8"
    } else if n == 9 {
        proof {
            reveal_strlit("9");
        }
        "9"
    } else if n == 10 {
        proof {
            reveal_strlit("A");
        }
        "A"
    } else if n == 11 {
        proof {
            reveal_strlit("B");
        }
        "B"
    } else if n == 12 {
        proof {
            reveal_strlit("C");
        }
        "C"
    } else if n == 13 {
        proof {
            reveal_strlit("D");
        }
        "D"
    } else if n == 14 {
        proof {
            reveal_strlit("E");
        }
        "E"
    } else if n == 15 {
        proof {
            reveal_strlit("F");
        }
        "F"
    } else {
        proof {
            reveal_strlit("F");
        }
        "F"
    }
}

/// Writes a digest as upper-case hex byte pairs joined by ':'.
pub fn format_fingerprint(digest: &[u8]) -> (text: String)
    ensures
        text@ == fingerprint_text(digest@),
{
    let mut text = String::new();
    let mut i: usize = 0;
    proof {
        reveal_strlit(":");
    }
    while i < digest.len()
        invariant
            i <= digest@.len(),
            text@ == fingerprint_text(digest@.take(i as int)),
            ":"@ == seq![':'],
        decreases digest@.len() - i,
    {
        let b = digest[i];
        let ghost prefix = digest@.take(i as int);
        assert(digest@.take(i + 1).drop_last() =~= prefix);
        if i != 0 {
            text.append(":");
        }
        text.append(hex_digit(b / 16));
        text.append(hex_digit(b % 16));
        assert(text@ =~= fingerprint_text(digest@.take(i + 1)));
        i = i + 1;
    }
    assert(digest@.take(digest@.len() as int) =~= digest@);
    text
}

/// The ASCII lower-case form of a byte.
pub open spec fn ascii_lower(c: u8) -> u8 {
    if 65 <= c <= 90 {
        (c + 32) as u8
    } else {
        c
    }
}

/// Whether two byte strings are equal up to ASCII case.
pub open spec fn ascii_ci_equal(a: Seq<u8>, b: Seq<u8>) -> bool {
    a.len() == b.len() && forall|i: int| 0 <= i < a.len() ==> ascii_lower(#[trigger] a[i]) == ascii_lower(b[i])
}

/// Whether two strings are an ASCII case-insensitive match.
pub fn eq_ignore_ascii_case(a: &str, b: &str) -> (r: bool)
    ensures
        r == ascii_ci_equal(encode_utf8(a@), encode_utf8(b@)),
{
    let x = a.as_bytes();
    let y = b.as_bytes();
    if x.len() != y.len() {
        return false;
    }
    let mut i: usize = 0;
    while i < x.len()
        invariant
            x@.len() == y@.len(),
            x@ == encode_utf8(a@),
            y@ == encode_utf8(b@),
            i <= x@.len(),
            forall|j: int| 0 <= j < i ==> ascii_lower(#[trigger] x@[j]) == ascii_lower(y@[j]),
        decreases x@.len() - i,
    {
        let c = x[i];
        let d = y[i];
        let lc = if c >= 65 && c <= 90 { c + 32 } else { c };
        let ld = if d >= 65 && d <= 90 { d + 32 } else { d };
        if lc != ld {
            return false;
        }
        i = i + 1;
    }
    true
}

/// The fingerprint of a DER-encoded certificate: its SHA-256 digest (32
/// bytes) as hex byte pairs joined by ':', 95 ASCII characters.
pub fn calculate_fingerprint(cert_der: &[u8]) -> (text: String)
    ensures
        text@ == fingerprint_text(sha256_digest(cert_der@)),
        sha256_digest(cert_der@).len() == 32,
        text@.len() == 95,
        encode_utf8(text@).len() == 95,
{
    let digest = sha256(cert_der);
    let text = format_fingerprint(digest.as_slice());
    proof {
        lemma_fingerprint_length(digest@);
        lemma_fingerprint_ascii(digest@);
        is_ascii_chars_encode_utf8(text@);
    }
    text
}

/// A fingerprint is written in ASCII characters only.
pub proof fn lemma_fingerprint_ascii(d: Seq<u8>)
    ensures
        is_ascii_chars(fingerprint_text(d)),
    decreases d.len(),
{
    if d.len() > 1 {
        lemma_fingerprint_ascii(d.drop_last());
        let a = fingerprint_text(d.drop_last());
        let t = fingerprint_text(d);
        assert(t == a + seq![':'] + hex_pair(d.last()));
        assert forall|i: int| 0 <= i < t.len() implies '\0' <= #[trigger] t[i] <= '\u{7f}' by {
            if i < a.len() {
                assert(t[i] == a[i]);
            }
        }
    }
}

/// A fingerprint of `n` bytes has two hex digits per byte and a ':' between
/// neighbours: `3n - 1` characters; a SHA-256 fingerprint has 95.
pub proof fn lemma_fingerprint_length(d: Seq<u8>)
    requires
        d.len() >= 1,
    ensures
        fingerprint_text(d).len() == 3 * d.len() - 1,
    decreases d.len(),
{
    if d.len() > 1 {
        lemma_fingerprint_length(d.drop_last());
    }
}

/// Every certificate matches its own fingerprint.
pub proof fn lemma_own_fingerprint_matches(cert: Seq<u8>)
    ensures
        ascii_ci_equal(
            encode_utf8(fingerprint_text(sha256_digest(cert))),
            encode_utf8(fingerprint_text(sha256_digest(cert))),
        ),
{
}

/// Manages this machine's certificate and its fingerprint
pub struct TlsManager {
    certificate: Vec<u8>,
    private_key: Vec<u8>,
    fingerprint: String,
}

impl View for TlsManager {
    /// The certificate (DER), the private key (DER) and the fingerprint.
    type V = (Seq<u8>, Seq<u8>, Seq<char>);

    closed spec fn view(&self) -> (Seq<u8>, Seq<u8>, Seq<char>) {
        (self.certificate@, self.private_key@, self.fingerprint@)
    }
}

impl TlsManager {
    /// A manager for a certificate and its private key, both DER-encoded.
    pub fn from_der(certificate: Vec<u8>, private_key: Vec<u8>) -> (m: TlsManager)
        ensures
            m@ == (certificate@, private_key@, fingerprint_text(sha256_digest(certificate@))),
            m@.2.len() == 95,
    {
        let fingerprint = calculate_fingerprint(certificate.as_slice());
        TlsManager { certificate, private_key, fingerprint }
    }

    /// Get the certificate fingerprint for verification
    pub fn fingerprint(&self) -> (f: &str)
        ensures
            f@ == self@.2,
    {
        self.fingerprint.as_str()
    }

    /// The certificate, DER-encoded.
    pub fn certificate(&self) -> (c: &[u8])
        ensures
            c@ == self@.0,
    {
        self.certificate.as_slice()
    }

    /// The private key, DER-encoded.
    pub fn private_key(&self) -> (k: &[u8])
        ensures
            k@ == self@.1,
    {
        self.private_key.as_slice()
    }

    /// Verify a peer's certificate fingerprint
    pub fn verify_fingerprint(cert_der: &[u8], expected: &str) -> (r: bool)
        ensures
            r == ascii_ci_equal(
                encode_utf8(fingerprint_text(sha256_digest(cert_der@))),
                encode_utf8(expected@),
            ),
            encode_utf8(expected@).len() != 95 ==> !r,
    {
        let actual = calculate_fingerprint(cert_der);
        eq_ignore_ascii_case(actual.as_str(), expected)
    }
}

/// What `rustls_pemfile::certs(..).next()` gives for the PEM text `pem`: the
/// DER bytes of the first certificate section, the text of the error met
/// while reading up to it, or nothing when the text holds no certificate.
pub uninterp spec fn pem_first_certificate(pem: Seq<u8>) -> Option<Result<Seq<u8>, Seq<char>>>;

/// What `rustls_pemfile::private_key` gives for the PEM text `pem`: the DER
/// bytes of the first private-key section (PKCS#1, PKCS#8 or SEC1), nothing
/// when there is none, or the text of the error met while reading up to it.
pub uninterp spec fn pem_first_private_key(pem: Seq<u8>) -> Result<Option<Seq<u8>>, Seq<char>>;

/// `rustls_pemfile::certs` on the bytes of `pem`, first item: the
/// certificate's DER bytes, or the error's text.
#[verifier::external_body]
fn first_pem_certificate(pem: &[u8]) -> (r: Option<Result<Vec<u8>, String>>)
    ensures
        pem_first_certificate(pem@) == match r {
            None => None,
            Some(Ok(c)) => Some(Ok(c@)),
            Some(Err(e)) => Some(Err(e@)),
        },
{
    let mut reader: &[u8] = pem;
    let first = rustls_pemfile::certs(&mut reader).next();
    match first {
        None => None,
        Some(Ok(cert)) => Some(Ok(cert.as_ref().to_vec())),
        Some(Err(e)) => Some(Err(e.to_string())),
    }
}

/// `rustls_pemfile::private_key` on the bytes of `pem`: the key's DER bytes,
/// nothing, or the error's text.
#[verifier::external_body]
fn first_pem_private_key(pem: &[u8]) -> (r: Result<Option<Vec<u8>>, String>)
    ensures
        pem_first_private_key(pem@) == match r {
            Ok(None) => Ok(None),
            Ok(Some(k)) => Ok(Some(k@)),
            Err(e) => Err(e@),
        },
{
    let mut reader: &[u8] = pem;
    match rustls_pemfile::private_key(&mut reader) {
        Ok(None) => Ok(None),
        Ok(Some(key)) => Ok(Some(key.secret_der().to_vec())),
        Err(e) => Err(e.to_string()),
    }
}

/// A manager from what the PEM parsers gave: the first certificate and the
/// first private key. A missing certificate or key, or a PEM error, is a
/// certificate error; the certificate is looked at first.
pub fn tls_manager_from_parsed(
    certificate: Option<Result<Vec<u8>, String>>,
    private_key: Result<Option<Vec<u8>>, String>,
) -> (r: Result<TlsManager, Error>)
    ensures
        match certificate {
            None => r matches Err(Error::Certificate(t)) && t@ == "No certificate found in PEM file"@,
            Some(Err(e)) => r matches Err(Error::Certificate(t)) && t@ == e@,
            Some(Ok(c)) => match private_key {
                Err(e) => r matches Err(Error::Certificate(t)) && t@ == e@,
                Ok(None) => r matches Err(Error::Certificate(t)) && t@
                    == "No private key found in PEM file"@,
                Ok(Some(k)) => r matches Ok(m) && m@ == (c@, k@, fingerprint_text(
                    sha256_digest(c@),
                )),
            },
        },
{
    let certificate = match certificate {
        None => return Err(Error::Certificate("No certificate found in PEM file".to_owned())),
        Some(Err(e)) => return Err(Error::Certificate(e)),
        Some(Ok(c)) => c,
    };
    let private_key = match private_key {
        Err(e) => return Err(Error::Certificate(e)),
        Ok(None) => return Err(Error::Certificate("No private key found in PEM file".to_owned())),
        Ok(Some(k)) => k,
    };
    Ok(TlsManager::from_der(certificate, private_key))
}

/// A manager for the certificate and private key stored as PEM text: the
/// first certificate of `cert_pem` and the first private key of `key_pem`.
/// A missing certificate or key, or a PEM error, is a certificate error.
pub fn tls_manager_from_pem(cert_pem: &[u8], key_pem: &[u8]) -> (r: Result<TlsManager, Error>)
    ensures
        match pem_load_outcome(cert_pem@, key_pem@) {
            Ok(v) => r matches Ok(m) && m@ == v,
            Err(t) => r matches Err(Error::Certificate(e)) && e@ == t,
        },
{
    tls_manager_from_parsed(first_pem_certificate(cert_pem), first_pem_private_key(key_pem))
}

/// The PEM text `pem` reads back as the certificate `der`.
pub open spec fn pem_holds_certificate(pem: Seq<u8>, der: Seq<u8>) -> bool {
    pem_first_certificate(pem) == Some(Ok::<Seq<u8>, Seq<char>>(der))
}

/// The PEM text `pem` reads back as the private key `der`.
pub open spec fn pem_holds_private_key(pem: Seq<u8>, der: Seq<u8>) -> bool {
    pem_first_private_key(pem) == Ok::<Option<Seq<u8>>, Seq<char>>(Some(der))
}

/// What a certificate is generated for: the subject's common name and
/// organization, and its two DNS names.
#[derive(Debug, Clone)]
pub struct CertificateRequest {
    pub common_name: String,
    pub organization: String,
    pub dns_first: String,
    pub dns_second: String,
}

impl View for CertificateRequest {
    type V = (Seq<char>, Seq<char>, Seq<char>, Seq<char>);

    open spec fn view(&self) -> (Seq<char>, Seq<char>, Seq<char>, Seq<char>) {
        (self.common_name@, self.organization@, self.dns_first@, self.dns_second@)
    }
}

/// The request for this machine's certificate: common name the machine name,
/// organization "MacWinShare", DNS names the machine name when it is a valid
/// DNS name (all ASCII) or else "localhost", then "localhost".
pub open spec fn request_for(machine_name: Seq<char>) -> (Seq<char>, Seq<char>, Seq<char>, Seq<char>) {
    (
        machine_name,
        "MacWinShare"@,
        if is_ascii_chars(machine_name) {
            machine_name
        } else {
            "localhost"@
        },
        "localhost"@,
    )
}

/// A freshly generated self-signed certificate and its private key, each as
/// DER bytes and as PEM text, with the request it was generated for.
pub struct GeneratedCertificate {
    pub cert_der: Vec<u8>,
    pub key_der: Vec<u8>,
    pub cert_pem: Vec<u8>,
    pub key_pem: Vec<u8>,
    pub request: CertificateRequest,
}

/// The error type of `rcgen`.
#[verifier::external_type_specification]
#[verifier::external_body]
pub struct ExRcgenError(RcgenError);

/// `rcgen::Error`'s `Display` text. What it says is not stated.
#[verifier::external_body]
fn rcgen_error_text(e: &RcgenError) -> (text: String) {
    e.to_string()
}

/// `rcgen::Ia5String::try_from`: a name is accepted as a DNS name exactly
/// when all its characters are ASCII.
#[verifier::external_body]
fn rcgen_accepts_dns_name(name: &str) -> (ok: bool)
    ensures
        ok == is_ascii_chars(name@),
{
    Ia5String::try_from(name).is_ok()
}

/// `rcgen::KeyPair::generate` and `CertificateParams::self_signed`: a new key
/// pair and a certificate signed with it, whose subject holds the request's
/// common name and organization and whose subject alternative names are the
/// request's two DNS names; the result carries the request. The key is drawn
/// at random, so what is stated holds of every outcome: the result was made
/// for `req`, and its PEM texts hold exactly its DER bytes (a "CERTIFICATE"
/// section and a PKCS#8 "PRIVATE KEY" section). The certificate's bytes, and
/// when generation fails, are not stated.
#[verifier::external_body]
fn rcgen_self_signed(req: &CertificateRequest) -> (r: Result<GeneratedCertificate, RcgenError>)
    ensures
        r matches Ok(g) ==> g.request@ == req@ && pem_holds_certificate(g.cert_pem@, g.cert_der@)
            && pem_holds_private_key(g.key_pem@, g.key_der@),
{
    let key = KeyPair::generate()?;
    let mut params = CertificateParams::default();
    params.distinguished_name.push(DnType::CommonName, req.common_name.as_str());
    params.distinguished_name.push(DnType::OrganizationName, req.organization.as_str());
    let first = SanType::DnsName(Ia5String::try_from(req.dns_first.as_str())?);
    let second = SanType::DnsName(Ia5String::try_from(req.dns_second.as_str())?);
    params.subject_alt_names = vec![first, second];
    let cert = params.self_signed(&key)?;
    let (cert_der, key_der, request) = (cert.der().to_vec(), key.serialize_der(), req.clone());
    Ok(GeneratedCertificate { cert_der, key_der, cert_pem: cert.pem().into(), key_pem: key.serialize_pem().into(), request })
}

/// The request for this machine's certificate.
pub fn certificate_request(machine_name: &str) -> (r: CertificateRequest)
    ensures
        r@ == request_for(machine_name@),
{
    let dns_first = if rcgen_accepts_dns_name(machine_name) {
        machine_name.to_owned()
    } else {
        "localhost".to_owned()
    };
    CertificateRequest {
        common_name: machine_name.to_owned(),
        organization: "MacWinShare".to_owned(),
        dns_first,
        dns_second: "localhost".to_owned(),
    }
}

/// What a certificate stored as PEM text loads back as: the certificate, the
/// private key and the fingerprint, or the text of the certificate error.
pub open spec fn pem_load_outcome(cert_pem: Seq<u8>, key_pem: Seq<u8>) -> Result<
    (Seq<u8>, Seq<u8>, Seq<char>),
    Seq<char>,
> {
    match pem_first_certificate(cert_pem) {
        None => Err("No certificate found in PEM file"@),
        Some(Err(e)) => Err(e),
        Some(Ok(c)) => match pem_first_private_key(key_pem) {
            Err(e) => Err(e),
            Ok(None) => Err("No private key found in PEM file"@),
            Ok(Some(k)) => Ok((c, k, fingerprint_text(sha256_digest(c)))),
        },
    }
}

/// A certificate and key stored as PEM text that holds them load back as the
/// same certificate and key, with the same fingerprint: what the first run
/// stores, later runs load unchanged.
pub proof fn lemma_stored_certificate_reloads(cert_pem: Seq<u8>, key_pem: Seq<u8>, cert_der: Seq<u8>, key_der: Seq<u8>)
    requires
        pem_holds_certificate(cert_pem, cert_der),
        pem_holds_private_key(key_pem, key_der),
    ensures
        pem_load_outcome(cert_pem, key_pem) == Ok::<(Seq<u8>, Seq<u8>, Seq<char>), Seq<char>>(
            (cert_der, key_der, fingerprint_text(sha256_digest(cert_der))),
        ),
{
}

/// A new self-signed certificate for this machine, generated for
/// `certificate_request(machine_name)`, with the manager for it. The
/// certificate and key come with their PEM text, to be stored; loading that
/// text back gives the same manager. A generation failure is a certificate
/// error.
pub fn generate_tls_manager(machine_name: &str) -> (r: Result<(TlsManager, GeneratedCertificate), Error>)
    ensures
        match r {
            Ok((m, g)) => {
                &&& g.request@ == request_for(machine_name@)
                &&& m@ == (g.cert_der@, g.key_der@, fingerprint_text(sha256_digest(g.cert_der@)))
                &&& m@.2.len() == 95
                &&& pem_holds_certificate(g.cert_pem@, g.cert_der@)
                &&& pem_holds_private_key(g.key_pem@, g.key_der@)
                &&& pem_load_outcome(g.cert_pem@, g.key_pem@) == Ok::<
                    (Seq<u8>, Seq<u8>, Seq<char>),
                    Seq<char>,
                >(m@)
            },
            Err(e) => e is Certificate,
        },
{
    let request = certificate_request(machine_name);
    match rcgen_self_signed(&request) {
        Err(e) => Err(Error::Certificate(rcgen_error_text(&e))),
        Ok(g) => {
            let manager = TlsManager::from_der(g.cert_der.clone(), g.key_der.clone());
            proof {
                lemma_stored_certificate_reloads(g.cert_pem@, g.key_pem@, g.cert_der@, g.key_der@);
            }
            Ok((manager, g))
        },
    }
}

} // verus!

use macwinshare::encryption::{
    calculate_fingerprint, certificate_request, eq_ignore_ascii_case, format_fingerprint,
    generate_tls_manager, tls_manager_from_parsed, tls_manager_from_pem,
};
use macwinshare::error::Error;
use macwinshare::TlsManager;

const ABC_FINGERPRINT: &str = "BA:78:16:BF:8F:01:CF:EA:41:41:40:DE:5D:AE:22:23:B0:03:61:A3:96:17:7A:9C:B4:10:FF:61:F2:00:15:AD";

#[test]
fn fingerprint_formatting() {
    assert_eq!(format_fingerprint(&[0x00, 0x0f, 0xa0, 0xff]), "00:0F:A0:FF");
    assert_eq!(format_fingerprint(&[0x5c]), "5C");
    assert_eq!(format_fingerprint(&[]), "");
}

#[test]
fn fingerprint_of_known_input() {
    assert_eq!(calculate_fingerprint(b"abc"), ABC_FINGERPRINT);
    let empty = calculate_fingerprint(b"");
    assert!(empty.starts_with("E3:B0:C4:42:98:FC:1C:14"));
    assert_eq!(empty.len(), 95);
}

#[test]
fn ascii_case_insensitive_comparison() {
    assert!(eq_ignore_ascii_case("AB:cd", "ab:CD"));
    assert!(!eq_ignore_ascii_case("AB:cd", "AB:ce"));
    assert!(!eq_ignore_ascii_case("AB", "ABC"));
    assert!(eq_ignore_ascii_case("", ""));
}

#[test]
fn tls_manager_keeps_its_material() {
    let m = TlsManager::from_der(b"abc".to_vec(), vec![1, 2, 3]);
    assert_eq!(m.fingerprint(), ABC_FINGERPRINT);
    assert_eq!(m.certificate(), b"abc");
    assert_eq!(m.private_key(), &[1, 2, 3]);
}

#[test]
fn verify_fingerprint_ignores_case() {
    assert!(TlsManager::verify_fingerprint(b"abc", ABC_FINGERPRINT));
    assert!(TlsManager::verify_fingerprint(b"abc", &ABC_FINGERPRINT.to_lowercase()));
    assert!(!TlsManager::verify_fingerprint(b"abd", ABC_FINGERPRINT));
    assert!(!TlsManager::verify_fingerprint(b"abc", "BA:78"));
}

fn certificate_error(r: Result<TlsManager, Error>) -> String {
    match r {
        Err(Error::Certificate(t)) => t,
        Err(other) => panic!("unexpected error {:?}", other),
        Ok(_) => panic!("unexpected success"),
    }
}

#[test]
fn fingerprint_is_95_characters_and_other_lengths_never_match() {
    assert_eq!(calculate_fingerprint(b"any certificate").len(), 95);
    assert!(!TlsManager::verify_fingerprint(b"abc", &ABC_FINGERPRINT[..94]));
    assert!(!TlsManager::verify_fingerprint(b"abc", &format!("{}:", ABC_FINGERPRINT)));
}

#[test]
fn tls_manager_from_pem_text() {
    let key = rcgen::KeyPair::generate().unwrap();
    let cert = rcgen::CertificateParams::new(vec!["localhost".to_string()])
        .unwrap()
        .self_signed(&key)
        .unwrap();
    let cert_pem = cert.pem();
    let key_pem = key.serialize_pem();

    let m = tls_manager_from_pem(cert_pem.as_bytes(), key_pem.as_bytes()).unwrap();
    assert_eq!(m.certificate(), &cert.der()[..]);
    assert_eq!(m.private_key(), key.serialize_der().as_slice());
    assert_eq!(m.fingerprint(), calculate_fingerprint(&cert.der()[..]));

    assert_eq!(
        certificate_error(tls_manager_from_pem(b"", key_pem.as_bytes())),
        "No certificate found in PEM file"
    );
    assert_eq!(
        certificate_error(tls_manager_from_pem(cert_pem.as_bytes(), cert_pem.as_bytes())),
        "No private key found in PEM file"
    );
    let broken = certificate_error(tls_manager_from_pem(
        b"-----BEGIN CERTIFICATE-----\nAAAA\n",
        key_pem.as_bytes(),
    ));
    assert!(broken.starts_with("section end"));
}

#[test]
fn tls_manager_from_parsed_values() {
    let m = tls_manager_from_parsed(Some(Ok(b"abc".to_vec())), Ok(Some(vec![7]))).unwrap();
    assert_eq!(m.fingerprint(), ABC_FINGERPRINT);
    assert_eq!(m.private_key(), &[7]);
    assert_eq!(certificate_error(tls_manager_from_parsed(None, Ok(Some(vec![7])))), "No certificate found in PEM file");
    assert_eq!(certificate_error(tls_manager_from_parsed(Some(Err("bad pem".to_string())), Ok(None))), "bad pem");
    assert_eq!(certificate_error(tls_manager_from_parsed(Some(Ok(vec![1])), Err("bad key".to_string()))), "bad key");
    assert_eq!(
        certificate_error(tls_manager_from_parsed(Some(Ok(vec![1])), Ok(None))),
        "No private key found in PEM file"
    );
}

#[test]
fn certificate_request_for_the_machine() {
    let r = certificate_request("Desk");
    assert_eq!(r.common_name, "Desk");
    assert_eq!(r.organization, "MacWinShare");
    assert_eq!(r.dns_first, "Desk");
    assert_eq!(r.dns_second, "localhost");
    let r = certificate_request("Büro");
    assert_eq!(r.common_name, "Büro");
    assert_eq!(r.dns_first, "localhost");
    assert_eq!(r.dns_second, "localhost");
}

#[test]
fn generated_certificate_reloads_from_its_pem() {
    let (m, g) = generate_tls_manager("Desk-1").unwrap();
    assert_eq!(g.request.common_name, "Desk-1");
    assert_eq!(g.request.organization, "MacWinShare");
    assert_eq!(g.request.dns_first, "Desk-1");
    assert_eq!(m.certificate(), g.cert_der.as_slice());
    assert_eq!(m.private_key(), g.key_der.as_slice());
    assert_eq!(m.fingerprint().len(), 95);
    assert_eq!(m.fingerprint(), calculate_fingerprint(m.certificate()));
    let again = tls_manager_from_pem(&g.cert_pem, &g.key_pem).unwrap();
    assert_eq!(again.certificate(), m.certificate());
    assert_eq!(again.private_key(), m.private_key());
    assert_eq!(again.fingerprint(), m.fingerprint());
    // The subject names appear in the certificate's DER bytes.
    let contains = |needle: &[u8]| g.cert_der.windows(needle.len()).any(|w| w == needle);
    assert!(contains(b"Desk-1"));
    assert!(contains(b"MacWinShare"));
    assert!(contains(b"localhost"));

    let (other, _) = generate_tls_manager("Büro").unwrap();
    assert_ne!(other.fingerprint(), m.fingerprint());
}

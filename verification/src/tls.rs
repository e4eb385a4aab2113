//! The TLS certificate chain and private key, read from PEM text.
use vstd::prelude::*;

use crate::error::WispError;
use crate::config::config_error;

verus! {

/// Key kind: an RSA key in PKCS#1 form.
pub const KEY_PKCS1: u8 = 1;

/// Key kind: an elliptic-curve key in SEC1 form.
pub const KEY_SEC1: u8 = 2;

/// Key kind: a key in PKCS#8 form.
pub const KEY_PKCS8: u8 = 3;

/// What `rustls_pemfile::certs` reads from PEM text, collected: the DER bytes
/// of each certificate section in order, or the text of the first error.
pub uninterp spec fn pem_certificates(pem: Seq<u8>) -> Result<Seq<Seq<u8>>, Seq<char>>;

/// What `rustls_pemfile::private_key` reads from PEM text: the kind and DER
/// bytes of the first private-key section, none when there is no such
/// section, or the text of the error met before one.
pub uninterp spec fn pem_private_key(pem: Seq<u8>) -> Result<Option<(u8, Seq<u8>)>, Seq<char>>;

/// The certificates read, or the error's text, as plain values.
pub open spec fn certificates_view(r: Result<Vec<Vec<u8>>, String>) -> Result<Seq<Seq<u8>>, Seq<char>> {
    match r {
        Ok(v) => Ok(v.deep_view()),
        Err(m) => Err(m@),
    }
}

/// The key read, or the error's text, as plain values.
pub open spec fn key_view(r: Result<Option<(u8, Vec<u8>)>, String>) -> Result<Option<(u8, Seq<u8>)>, Seq<char>> {
    match r {
        Ok(Some((kind, der))) => Ok(Some((kind, der@))),
        Ok(None) => Ok(None),
        Err(m) => Err(m@),
    }
}

/// `rustls_pemfile::certs` over the PEM bytes, collected into a list of DER
/// certificates or stopped at the first error, whose text is kept.
#[verifier::external_body]
fn read_certificates(pem: &[u8]) -> (r: Result<Vec<Vec<u8>>, String>)
    ensures
        certificates_view(r) == pem_certificates(pem@),
{
    let mut reader = pem;
    match rustls_pemfile::certs(&mut reader).collect::<Result<Vec<_>, _>>() {
        Ok(certs) => Ok(certs.into_iter().map(|c| c.as_ref().to_vec()).collect()),
        Err(e) => Err(e.to_string()),
    }
}

/// `rustls_pemfile::private_key` over the PEM bytes: the first private key's
/// kind (PKCS#1, SEC1 or PKCS#8; 0 for a kind added to the crate later) and
/// DER bytes, none, or the error's text.
#[verifier::external_body]
fn read_private_key(pem: &[u8]) -> (r: Result<Option<(u8, Vec<u8>)>, String>)
    ensures
        key_view(r) == pem_private_key(pem@),
{
    let mut reader = pem;
    match rustls_pemfile::private_key(&mut reader) {
        Ok(Some(key)) => {
            let kind = match &key {
                rustls::pki_types::PrivateKeyDer::Pkcs1(_) => KEY_PKCS1,
                rustls::pki_types::PrivateKeyDer::Sec1(_) => KEY_SEC1,
                rustls::pki_types::PrivateKeyDer::Pkcs8(_) => KEY_PKCS8,
                _ => 0,
            };
            Ok(Some((kind, key.secret_der().to_vec())))
        },
        Ok(None) => Ok(None),
        Err(e) => Err(e.to_string()),
    }
}

/// What the TLS material of a server is, given the PEM text of its
/// certificate file and of its key file: the certificate chain and the first
/// private key; or a configuration error when the certificates do not parse,
/// when the key file does not parse, or when it holds no private key.
pub open spec fn tls_material_of(cert_pem: Seq<u8>, key_pem: Seq<u8>)
    -> Result<(Seq<Seq<u8>>, (u8, Seq<u8>)), Seq<char>>
{
    match pem_certificates(cert_pem) {
        Err(e) => Err("failed to parse certificates: "@ + e),
        Ok(certs) => match pem_private_key(key_pem) {
            Err(e) => Err("failed to parse private key: "@ + e),
            Ok(None) => Err("no private key found in key file"@),
            Ok(Some(key)) => Ok((certs, key)),
        },
    }
}

/// Reads the certificate chain and the private key from PEM text.
pub fn tls_material(cert_pem: &[u8], key_pem: &[u8]) -> (r: Result<(Vec<Vec<u8>>, (u8, Vec<u8>)), WispError>)
    ensures
        match tls_material_of(cert_pem@, key_pem@) {
            Ok((certs, (kind, der))) => r matches Ok((c, (k, d))) && c.deep_view() == certs && k == kind && d@ == der,
            Err(m) => r matches Err(WispError::Config(e)) && e@ == m,
        },
{
    let certs = match read_certificates(cert_pem) {
        Ok(c) => c,
        Err(e) => return Err(config_error("failed to parse certificates: ", e.as_str())),
    };
    match read_private_key(key_pem) {
        Err(e) => Err(config_error("failed to parse private key: ", e.as_str())),
        Ok(None) => Err(WispError::Config("no private key found in key file".to_owned())),
        Ok(Some(key)) => Ok((certs, key)),
    }
}

} // verus!

//! The credential loader: PEM text to certificate chains, private keys and
//! trust stores. It decodes and counts; it does not check signatures or
//! validity periods, which the TLS session does during the handshake.

use vstd::prelude::*;
use crate::backend::{
    anchor_of,
    decode_certificates,
    decode_pkcs8_keys,
    der_list,
    io_error_text,
    is_trust_anchor,
    pem_certificates,
    pem_pkcs8_keys,
    root_store_add,
    root_store_empty,
    tls_error_text,
    trust_anchors,
};
use crate::error::{EndpointError, Fault};

verus! {

/// The reason given where a PEM text holds no certificate at all.
pub open spec fn no_certificates_text() -> Seq<char> {
    "No certificates found"@
}

/// Whether every certificate of a list can serve as a trust anchor.
pub open spec fn all_trust_anchors(certs: Seq<Seq<u8>>) -> bool {
    forall|i: int| 0 <= i < certs.len() ==> is_trust_anchor(#[trigger] certs[i])
}

/// The trust anchors of a list of certificates, each of which has one: what
/// a trust store keeps of them.
pub open spec fn anchors_of(certs: Seq<Seq<u8>>) -> Seq<(Seq<u8>, Seq<u8>, Option<Seq<u8>>)> {
    certs.map_values(|der: Seq<u8>| anchor_of(der).unwrap())
}

/// Whether a PEM text can fill a trust store: it decodes, holds at least one
/// certificate, and holds only certificates readable as trust anchors.
pub open spec fn usable_trust(pem: Seq<u8>) -> bool {
    pem_certificates(pem) matches Some(certs) && certs.len() > 0 && all_trust_anchors(certs)
}

/// The certificates of a PEM text, in the order in which they stand there; the
/// list may be empty. A text that cannot be decoded is `ConfigInvalid`.
pub fn load_certificate_chain(pem: &[u8]) -> (loaded: Result<Vec<Vec<u8>>, EndpointError>)
    ensures
        match pem_certificates(pem@) {
            Some(certs) => loaded matches Ok(chain) && der_list(chain@) == certs,
            None => loaded matches Err(e) && e@ is ConfigInvalid,
        },
{
    match decode_certificates(pem) {
        Ok(chain) => Ok(chain),
        Err(error) => Err(EndpointError::ConfigInvalid(io_error_text(&error))),
    }
}

/// A list of keys as it is, unless it is empty: then `NoPrivateKey`.
pub fn require_private_key(keys: Vec<Vec<u8>>) -> (checked: Result<Vec<Vec<u8>>, EndpointError>)
    ensures
        keys@.len() > 0 ==> checked == Ok::<Vec<Vec<u8>>, EndpointError>(keys),
        keys@.len() == 0 ==> (checked matches Err(e) && e@ == Fault::NoPrivateKey),
{
    if keys.len() == 0 {
        Err(EndpointError::NoPrivateKey)
    } else {
        Ok(keys)
    }
}

/// A certificate list as it is, unless it is empty: then `ConfigInvalid`.
pub fn require_certificates(chain: Vec<Vec<u8>>) -> (checked: Result<Vec<Vec<u8>>, EndpointError>)
    ensures
        chain@.len() > 0 ==> checked == Ok::<Vec<Vec<u8>>, EndpointError>(chain),
        chain@.len() == 0 ==> (checked matches Err(e) && e@ == Fault::ConfigInvalid(
            no_certificates_text(),
        )),
{
    if chain.len() == 0 {
        Err(EndpointError::ConfigInvalid("No certificates found".to_owned()))
    } else {
        Ok(chain)
    }
}

/// The PKCS#8 private keys of a PEM text, in the order in which they stand
/// there. A text without any is `NoPrivateKey`; one that cannot be decoded is
/// `ConfigInvalid`.
pub fn load_private_keys(pem: &[u8]) -> (loaded: Result<Vec<Vec<u8>>, EndpointError>)
    ensures
        match pem_pkcs8_keys(pem@) {
            Some(keys) => if keys.len() > 0 {
                loaded matches Ok(found) && der_list(found@) == keys
            } else {
                loaded matches Err(e) && e@ == Fault::NoPrivateKey
            },
            None => loaded matches Err(e) && e@ is ConfigInvalid,
        },
{
    match decode_pkcs8_keys(pem) {
        Ok(keys) => require_private_key(keys),
        Err(error) => Err(EndpointError::ConfigInvalid(io_error_text(&error))),
    }
}

/// A trust store that holds the trust anchors of the given certificates, in
/// their order. The list must not be empty and each certificate must be
/// readable as a trust anchor; otherwise the result is `ConfigInvalid`.
pub fn root_store_from(certs: &Vec<Vec<u8>>) -> (built: Result<
    rustls::RootCertStore,
    EndpointError,
>)
    ensures
        match built {
            Ok(store) => trust_anchors(store) == anchors_of(der_list(certs@)),
            Err(e) => e@ is ConfigInvalid,
        },
        built is Ok <==> certs@.len() > 0 && all_trust_anchors(der_list(certs@)),
        certs@.len() == 0 ==> (built matches Err(e) && e@ == Fault::ConfigInvalid(
            no_certificates_text(),
        )),
{
    if certs.len() == 0 {
        return Err(EndpointError::ConfigInvalid("No certificates found".to_owned()));
    }
    let mut store = root_store_empty();
    let mut i: usize = 0;
    while i < certs.len()
        invariant
            i <= certs@.len(),
            trust_anchors(store) == anchors_of(der_list(certs@).take(i as int)),
            all_trust_anchors(der_list(certs@).take(i as int)),
        decreases certs@.len() - i,
    {
        let added = root_store_add(&mut store, certs[i].as_slice());
        match added {
            Ok(()) => {},
            Err(error) => {
                assert(!is_trust_anchor(der_list(certs@)[i as int]));
                return Err(EndpointError::ConfigInvalid(tls_error_text(&error)));
            },
        }
        proof {
            let all = der_list(certs@);
            assert(all.take(i as int + 1) == all.take(i as int).push(all[i as int]));
            assert(anchors_of(all.take(i as int + 1)) =~= anchors_of(all.take(i as int)).push(
                anchor_of(all[i as int]).unwrap(),
            ));
        }
        i = i + 1;
    }
    proof {
        let all = der_list(certs@);
        assert(all.take(i as int) == all);
    }
    Ok(store)
}

/// The trust store made of the certificates of a PEM text: it holds their
/// trust anchors, in their order. The text must decode, hold at least one
/// certificate, and hold only certificates that are readable as trust
/// anchors; otherwise the result is `ConfigInvalid`.
pub fn load_root_store_from_cert(pem: &[u8]) -> (loaded: Result<
    rustls::RootCertStore,
    EndpointError,
>)
    ensures
        match loaded {
            Ok(store) => pem_certificates(pem@) matches Some(certs) && trust_anchors(store)
                == anchors_of(certs),
            Err(e) => e@ is ConfigInvalid,
        },
        loaded is Ok <==> usable_trust(pem@),
{
    match load_certificate_chain(pem) {
        Ok(certs) => root_store_from(&certs),
        Err(error) => Err(error),
    }
}

/// What two PEM texts come to as the credentials of a server.
pub enum Verdict {
    /// One of the texts cannot be decoded.
    Malformed,
    /// The key text holds no PKCS#8 key.
    NoKey,
    /// The certificate text holds no certificate.
    NoCertificate,
    /// The certificates, as one chain with the leaf first, and the first key.
    Usable(Seq<Seq<u8>>, Seq<u8>),
}

/// The verdict on a certificate text and a key text. The keys are looked at
/// first: a key text without a PKCS#8 key is `NoKey` whatever the certificate
/// text holds. Of several keys only the first is used.
pub open spec fn credentials_verdict(cert_pem: Seq<u8>, key_pem: Seq<u8>) -> Verdict {
    match pem_pkcs8_keys(key_pem) {
        None => Verdict::Malformed,
        Some(keys) => if keys.len() == 0 {
            Verdict::NoKey
        } else {
            match pem_certificates(cert_pem) {
                None => Verdict::Malformed,
                Some(certs) => if certs.len() == 0 {
                    Verdict::NoCertificate
                } else {
                    Verdict::Usable(certs, keys[0])
                },
            }
        },
    }
}

/// Whether `fault` is the error that a verdict calls for: `NoPrivateKey`
/// without a key, and `ConfigInvalid` for what cannot be decoded or holds no
/// certificate. Usable credentials call for none.
pub open spec fn verdict_fault(verdict: Verdict, fault: Fault) -> bool {
    match verdict {
        Verdict::Malformed => fault is ConfigInvalid,
        Verdict::NoKey => fault == Fault::NoPrivateKey,
        Verdict::NoCertificate => fault == Fault::ConfigInvalid(no_certificates_text()),
        Verdict::Usable(_, _) => false,
    }
}

/// The credentials of a server out of a certificate text and a key text: the
/// certificate chain and the key that go into its configuration, or the error
/// that the texts call for.
pub fn server_credentials(cert_pem: &[u8], key_pem: &[u8]) -> (loaded: Result<
    (Vec<Vec<u8>>, Vec<u8>),
    EndpointError,
>)
    ensures
        match loaded {
            Ok((chain, key)) => credentials_verdict(cert_pem@, key_pem@) == Verdict::Usable(
                der_list(chain@),
                key@,
            ),
            Err(e) => verdict_fault(credentials_verdict(cert_pem@, key_pem@), e@),
        },
{
    let mut keys = match load_private_keys(key_pem) {
        Ok(keys) => keys,
        Err(error) => {
            return Err(error);
        },
    };
    let chain = match load_certificate_chain(cert_pem) {
        Ok(chain) => chain,
        Err(error) => {
            return Err(error);
        },
    };
    let chain = match require_certificates(chain) {
        Ok(chain) => chain,
        Err(error) => {
            return Err(error);
        },
    };
    let key = keys.swap_remove(0);
    Ok((chain, key))
}

} // verus!

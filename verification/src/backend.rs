//! The calls into `rustls`, `rustls-pemfile` and the parts of `std` that have no
//! specification. Nothing in this file is proved: each contract is taken from
//! the called function's source or documentation, and everything else in the
//! crate is verified against these contracts.

use vstd::prelude::*;

verus! {

/// A TLS connection of either role: the protocol state machine with its
/// buffers. Nothing inside it is visible to the verifier.
#[verifier::external_type_specification]
#[verifier::external_body]
pub struct ExConnection(rustls::Connection);

/// A finished client configuration.
#[verifier::external_type_specification]
#[verifier::external_body]
pub struct ExClientConfig(rustls::ClientConfig);

/// A finished server configuration.
#[verifier::external_type_specification]
#[verifier::external_body]
pub struct ExServerConfig(rustls::ServerConfig);

/// A container of trust anchors.
#[verifier::external_type_specification]
#[verifier::external_body]
pub struct ExRootCertStore(rustls::RootCertStore);

/// An error reported by the TLS library.
#[verifier::external_type_specification]
#[verifier::external_body]
pub struct ExTlsError(rustls::Error);

/// A parsed server name: a DNS name or an IP address.
#[verifier::external_type_specification]
#[verifier::external_body]
pub struct ExServerName<'a>(rustls::pki_types::ServerName<'a>);

/// The error of parsing a server name.
#[verifier::external_type_specification]
#[verifier::external_body]
pub struct ExInvalidDnsNameError(rustls::pki_types::InvalidDnsNameError);

/// An I/O error of the standard library.
#[verifier::external_type_specification]
#[verifier::external_body]
pub struct ExIoError(std::io::Error);

/// A list of byte strings as a mathematical value: the view of each, in order.
pub open spec fn der_list(list: Seq<Vec<u8>>) -> Seq<Seq<u8>> {
    list.map_values(|der: Vec<u8>| der@)
}

/// The certificates that `rustls_pemfile::certs` finds in a PEM text, in
/// order, each as its DER bytes; `None` where it reports an error.
pub uninterp spec fn pem_certificates(pem: Seq<u8>) -> Option<Seq<Seq<u8>>>;

/// The PKCS#8 keys that `rustls_pemfile::pkcs8_private_keys` finds in a PEM
/// text, in order, each as its DER bytes; `None` where it reports an error.
pub uninterp spec fn pem_pkcs8_keys(pem: Seq<u8>) -> Option<Seq<Seq<u8>>>;

/// `rustls_pemfile::certs` on a text held in memory, collected until the
/// first error. Reading from a slice cannot fail, so the outcome is a function
/// of the bytes alone: the sections marked `CERTIFICATE`, base64-decoded, or
/// the error of the first malformed section.
#[verifier::external_body]
pub(crate) fn decode_certificates(pem: &[u8]) -> (found: Result<Vec<Vec<u8>>, std::io::Error>)
    ensures
        match found {
            Ok(certs) => pem_certificates(pem@) == Some(der_list(certs@)),
            Err(_) => pem_certificates(pem@) is None,
        },
{
    let mut reader = pem;
    rustls_pemfile::certs(&mut reader).map(|item| item.map(|der| der.as_ref().to_vec())).collect()
}

/// `rustls_pemfile::pkcs8_private_keys` on a text held in memory, collected
/// until the first error: the sections marked `PRIVATE KEY`, base64-decoded.
#[verifier::external_body]
pub(crate) fn decode_pkcs8_keys(pem: &[u8]) -> (found: Result<Vec<Vec<u8>>, std::io::Error>)
    ensures
        match found {
            Ok(keys) => pem_pkcs8_keys(pem@) == Some(der_list(keys@)),
            Err(_) => pem_pkcs8_keys(pem@) is None,
        },
{
    let mut reader = pem;
    rustls_pemfile::pkcs8_private_keys(&mut reader).map(
        |item| item.map(|der| der.secret_pkcs8_der().to_vec()),
    ).collect()
}

/// The `Display` text of an I/O error.
#[verifier::external_body]
pub(crate) fn io_error_text(error: &std::io::Error) -> (text: String) {
    error.to_string()
}

/// The `Display` text of a TLS error.
#[verifier::external_body]
pub(crate) fn tls_error_text(error: &rustls::Error) -> (text: String) {
    error.to_string()
}

/// What `webpki::anchor_from_trusted_cert` reads out of a certificate, which
/// is all that a trust anchor is: the subject, the subject's public key
/// information, and the name constraints where the certificate has any, each
/// as its DER bytes; `None` where it reports an error.
pub uninterp spec fn anchor_of(der: Seq<u8>) -> Option<(Seq<u8>, Seq<u8>, Option<Seq<u8>>)>;

/// Whether `RootCertStore::add` takes a certificate: whether a trust anchor
/// can be read out of it.
pub open spec fn is_trust_anchor(der: Seq<u8>) -> bool {
    anchor_of(der) is Some
}

/// The trust anchors that a store holds, in the order in which they were
/// added: of each the subject, the subject's public key information, and the
/// name constraints where it has any.
pub uninterp spec fn trust_anchors(store: rustls::RootCertStore) -> Seq<
    (Seq<u8>, Seq<u8>, Option<Seq<u8>>),
>;

/// `RootCertStore::empty`: a store without anchors.
#[verifier::external_body]
pub(crate) fn root_store_empty() -> (store: rustls::RootCertStore)
    ensures
        trust_anchors(store) == Seq::<(Seq<u8>, Seq<u8>, Option<Seq<u8>>)>::empty(),
{
    rustls::RootCertStore::empty()
}

/// `RootCertStore::add`: reads the trust anchor out of the certificate and,
/// where that succeeds, pushes it behind those already held; on an error the
/// store is as it was. The certificate itself is not kept.
#[verifier::external_body]
pub(crate) fn root_store_add(store: &mut rustls::RootCertStore, der: &[u8]) -> (added: Result<
    (),
    rustls::Error,
>)
    ensures
        added is Ok == anchor_of(der@) is Some,
        trust_anchors(*final(store)) == match anchor_of(der@) {
            Some(anchor) => trust_anchors(*old(store)).push(anchor),
            None => trust_anchors(*old(store)),
        },
{
    store.add(rustls::pki_types::CertificateDer::from(der))
}

/// What `ServerName::try_from` makes of a text, shown as
/// `ServerName::to_str` shows it: a DNS name as it was written, an IP address
/// in its usual form; `None` where the text is neither.
pub uninterp spec fn parsed_name(text: Seq<char>) -> Option<Seq<char>>;

/// Whether `ServerName::try_from` accepts a text: whether it is a
/// syntactically valid DNS name or an IP address literal.
pub open spec fn is_server_name(text: Seq<char>) -> bool {
    parsed_name(text) is Some
}

/// A server name as `ServerName::to_str` shows it.
pub uninterp spec fn name_text(name: rustls::pki_types::ServerName<'static>) -> Seq<char>;

/// `ServerName::try_from` on an owned copy of the text.
#[verifier::external_body]
pub(crate) fn parse_server_name(name: &str) -> (parsed: Result<
    rustls::pki_types::ServerName<'static>,
    rustls::pki_types::InvalidDnsNameError,
>)
    ensures
        match parsed {
            Ok(made) => parsed_name(name@) == Some(name_text(made)),
            Err(_) => parsed_name(name@) is None,
        },
{
    rustls::pki_types::ServerName::try_from(name.to_owned())
}

/// The client configuration builder of `rustls`, with the `ring` provider and
/// the default protocol versions: server certificates are verified against
/// the given trust anchors, and no client certificate is offered. The builder
/// refuses only a provider whose cipher suites and key exchange groups do not
/// go with the versions, and those of the `ring` provider do; nothing else in
/// it can fail.
#[verifier::external_body]
pub(crate) fn client_config(roots: rustls::RootCertStore) -> (built: Result<
    rustls::ClientConfig,
    rustls::Error,
>)
    ensures
        built is Ok,
{
    let provider = std::sync::Arc::new(rustls::crypto::ring::default_provider());
    let builder = rustls::ClientConfig::builder_with_provider(provider);
    let builder = builder.with_safe_default_protocol_versions()?;
    Ok(builder.with_root_certificates(roots).with_no_client_auth())
}

/// Whether `ServerConnection::new` makes a session on a configuration. It
/// refuses one whose largest fragment size is out of range, and nothing else.
pub uninterp spec fn admits_sessions(config: rustls::ServerConfig) -> bool;

/// The server configuration builder of `rustls`, with the `ring` provider and
/// the default protocol versions: no client authentication, one certificate
/// chain and its PKCS#8 key. The builder leaves the largest fragment size
/// unset, so that what it builds admits sessions.
#[verifier::external_body]
pub(crate) fn server_config(chain: Vec<Vec<u8>>, key: Vec<u8>) -> (built: Result<
    rustls::ServerConfig,
    rustls::Error,
>)
    ensures
        built matches Ok(config) ==> admits_sessions(config),
{
    let provider = std::sync::Arc::new(rustls::crypto::ring::default_provider());
    let builder = rustls::ServerConfig::builder_with_provider(provider);
    let builder = builder.with_safe_default_protocol_versions()?.with_no_client_auth();
    let chain = chain.into_iter().map(rustls::pki_types::CertificateDer::from).collect();
    let key = rustls::pki_types::PrivatePkcs8KeyDer::from(key);
    builder.with_single_cert(chain, rustls::pki_types::PrivateKeyDer::Pkcs8(key))
}

/// What a connection holds in its buffer of received plaintext: the bytes
/// that it has decrypted and that have not been read from it, in the order
/// in which they came.
pub uninterp spec fn buffered_plaintext(conn: rustls::Connection) -> Seq<u8>;

/// What a connection holds in its buffer of outgoing TLS records: the bytes
/// that it has made and that have not been written out, in the order in which
/// they are to go.
pub uninterp spec fn pending_records(conn: rustls::Connection) -> Seq<u8>;

/// The bound that a connection has on its buffers of outgoing data: the limit
/// that `Connection::set_buffer_limit` last gave to both of them, or the one
/// that the connection was made with. `None` is no bound.
pub uninterp spec fn buffer_limit(conn: rustls::Connection) -> Option<usize>;

/// Whether a connection has sent its last alert: a notice of shutdown or a
/// fatal alert, after which it gives no further notice.
pub uninterp spec fn alert_sent(conn: rustls::Connection) -> bool;

/// The server name that a connection was made to expect, as
/// `ServerName::to_str` shows it: the name that a client connection holds for
/// its handshake, to ask the server for and to hold the server's certificate
/// against. A server connection expects none.
pub uninterp spec fn expected_name(conn: rustls::Connection) -> Option<Seq<char>>;

/// `ClientConnection::new`: a client session that expects the named server.
/// A new connection has received nothing and has sent no alert.
#[verifier::external_body]
pub(crate) fn client_connection(
    config: rustls::ClientConfig,
    name: rustls::pki_types::ServerName<'static>,
) -> (made: Result<rustls::Connection, rustls::Error>)
    ensures
        made matches Ok(conn) ==> buffered_plaintext(conn).len() == 0 && !alert_sent(conn)
            && expected_name(conn) == Some(name_text(name)),
{
    rustls::ClientConnection::new(std::sync::Arc::new(config), name).map(
        rustls::Connection::Client,
    )
}

/// `ServerConnection::new`: a server session on a shared configuration,
/// made exactly where the configuration admits sessions; nothing is drawn
/// or read to make it. A new connection has received nothing and has sent
/// no alert.
#[verifier::external_body]
pub(crate) fn server_connection(config: &std::sync::Arc<rustls::ServerConfig>) -> (made: Result<
    rustls::Connection,
    rustls::Error,
>)
    ensures
        made is Ok <==> admits_sessions(**config),
        made matches Ok(conn) ==> buffered_plaintext(conn).len() == 0 && !alert_sent(conn)
            && expected_name(conn) is None,
{
    rustls::ServerConnection::new(config.clone()).map(rustls::Connection::Server)
}

/// `CommonState::is_handshaking`.
#[verifier::external_body]
pub(crate) fn is_handshaking(conn: &rustls::Connection) -> (yes: bool) {
    conn.is_handshaking()
}

/// `CommonState::wants_read`.
#[verifier::external_body]
pub(crate) fn wants_read(conn: &rustls::Connection) -> (yes: bool) {
    conn.wants_read()
}

/// `CommonState::wants_write`: whether the buffer of outgoing records holds
/// anything.
#[verifier::external_body]
pub(crate) fn wants_write(conn: &rustls::Connection) -> (yes: bool)
    ensures
        yes == (pending_records(*conn).len() > 0),
{
    conn.wants_write()
}

/// `Connection::set_buffer_limit`: gives the buffers of outgoing data the
/// limit named, and leaves what the buffers hold. No other method of a
/// connection touches the limit.
#[verifier::external_body]
pub(crate) fn set_buffer_limit(conn: &mut rustls::Connection, limit: Option<usize>)
    ensures
        buffer_limit(*final(conn)) == limit,
        alert_sent(*final(conn)) == alert_sent(*old(conn)),
        buffered_plaintext(*final(conn)) == buffered_plaintext(*old(conn)),
        pending_records(*final(conn)) == pending_records(*old(conn)),
{
    conn.set_buffer_limit(limit)
}

/// `CommonState::send_close_notify`: where the connection has not sent its
/// last alert, the notice of shutdown is put behind the outgoing records,
/// and is the last alert from then on; otherwise nothing happens. Either way
/// the records that were there stay where they are, at the front, and
/// received plaintext is not touched.
#[verifier::external_body]
pub(crate) fn send_close_notify(conn: &mut rustls::Connection)
    ensures
        alert_sent(*final(conn)),
        if alert_sent(*old(conn)) {
            pending_records(*final(conn)) == pending_records(*old(conn))
        } else {
            pending_records(*final(conn)).len() > pending_records(*old(conn)).len()
        },
        buffer_limit(*final(conn)) == buffer_limit(*old(conn)),
        buffered_plaintext(*final(conn)) == buffered_plaintext(*old(conn)),
        pending_records(*old(conn)).len() <= pending_records(*final(conn)).len(),
        pending_records(*final(conn)).take(pending_records(*old(conn)).len() as int)
            == pending_records(*old(conn)),
{
    conn.send_close_notify()
}

/// `Connection::read_tls` from bytes held in memory: the connection copies a
/// front part of `input` into its buffer of undecoded input and says how long
/// that part was. Neither received plaintext nor outgoing records are touched.
#[verifier::external_body]
pub(crate) fn read_tls(conn: &mut rustls::Connection, input: &[u8]) -> (taken: Result<
    usize,
    std::io::Error,
>)
    ensures
        taken matches Ok(n) ==> n <= input@.len(),
        buffered_plaintext(*final(conn)) == buffered_plaintext(*old(conn)),
        pending_records(*final(conn)) == pending_records(*old(conn)),
        buffer_limit(*final(conn)) == buffer_limit(*old(conn)),
        alert_sent(*final(conn)) == alert_sent(*old(conn)),
{
    let mut reader = input;
    conn.read_tls(&mut reader)
}

/// `Connection::write_tls` into a fresh vector, which takes whatever is
/// written to it: a front part of the outgoing records moves out of the
/// connection's buffer, and where the buffer holds anything, that part is not
/// empty. Received plaintext is not touched.
#[verifier::external_body]
pub(crate) fn write_tls(conn: &mut rustls::Connection) -> (records: Vec<u8>)
    ensures
        records@ + pending_records(*final(conn)) == pending_records(*old(conn)),
        pending_records(*old(conn)).len() > 0 ==> records@.len() > 0,
        buffered_plaintext(*final(conn)) == buffered_plaintext(*old(conn)),
        buffer_limit(*final(conn)) == buffer_limit(*old(conn)),
        alert_sent(*final(conn)) == alert_sent(*old(conn)),
{
    let mut records = Vec::new();
    let _ = conn.write_tls(&mut records);
    records
}

/// What the library reads of the report of `Connection::process_new_packets`.
pub struct IoReport {
    /// The bytes of received plaintext waiting to be read.
    pub plaintext_bytes_to_read: usize,
    /// Whether the peer's `close_notify` has been received.
    pub peer_has_closed: bool,
}

/// `Connection::process_new_packets`, its report moved field by field. The
/// report counts the received plaintext that the connection holds once it
/// has worked through its input. What it decrypts it puts behind the
/// plaintext that it held.
#[verifier::external_body]
pub(crate) fn process_new_packets(conn: &mut rustls::Connection) -> (report: Result<
    IoReport,
    rustls::Error,
>)
    ensures
        report matches Ok(state) ==> state.plaintext_bytes_to_read == buffered_plaintext(
            *final(conn),
        ).len(),
        report is Ok ==> buffered_plaintext(*old(conn)).len() <= buffered_plaintext(
            *final(conn),
        ).len() && buffered_plaintext(*final(conn)).take(
            buffered_plaintext(*old(conn)).len() as int,
        ) == buffered_plaintext(*old(conn)),
        buffer_limit(*final(conn)) == buffer_limit(*old(conn)),
{
    conn.process_new_packets().map(
        |state|
            IoReport {
                plaintext_bytes_to_read: state.plaintext_bytes_to_read(),
                peer_has_closed: state.peer_has_closed(),
            },
    )
}

/// `Reader::read` on `Connection::reader`: received plaintext moves from the
/// front of the connection's buffer to the front of `buffer`, as much as
/// there is or as fits; the rest of `buffer` is as it was. The read fails only
/// where there is nothing to read and `buffer` could take something. Outgoing
/// records are not touched.
#[verifier::external_body]
pub(crate) fn read_plaintext(conn: &mut rustls::Connection, buffer: &mut [u8]) -> (copied: Result<
    usize,
    std::io::Error,
>)
    ensures
        final(buffer)@.len() == old(buffer)@.len(),
        pending_records(*final(conn)) == pending_records(*old(conn)),
        buffer_limit(*final(conn)) == buffer_limit(*old(conn)),
        alert_sent(*final(conn)) == alert_sent(*old(conn)),
        match copied {
            Ok(n) => {
                &&& n <= old(buffer)@.len()
                &&& n <= buffered_plaintext(*old(conn)).len()
                &&& n == old(buffer)@.len() || n == buffered_plaintext(*old(conn)).len()
                &&& final(buffer)@ == buffered_plaintext(*old(conn)).take(n as int) + old(
                    buffer,
                )@.skip(n as int)
                &&& buffered_plaintext(*final(conn)) == buffered_plaintext(*old(conn)).skip(
                    n as int,
                )
            },
            Err(_) => {
                &&& final(buffer)@ == old(buffer)@
                &&& buffered_plaintext(*final(conn)) == buffered_plaintext(*old(conn))
                &&& buffered_plaintext(*old(conn)).len() == 0
                &&& old(buffer)@.len() > 0
            },
        },
{
    std::io::Read::read(&mut conn.reader(), buffer)
}

/// `Writer::write` on `Connection::writer`: the connection takes a front part
/// of `data` as plaintext to send and says how long that part was. Received
/// plaintext is not touched.
#[verifier::external_body]
pub(crate) fn write_plaintext(conn: &mut rustls::Connection, data: &[u8]) -> (taken: Result<
    usize,
    std::io::Error,
>)
    ensures
        taken matches Ok(n) ==> n <= data@.len(),
        buffered_plaintext(*final(conn)) == buffered_plaintext(*old(conn)),
        buffer_limit(*final(conn)) == buffer_limit(*old(conn)),
{
    std::io::Write::write(&mut conn.writer(), data)
}

/// What `String::from_utf8_lossy` makes of bytes: the text they encode, with
/// U+FFFD in place of each invalid sequence.
pub uninterp spec fn utf8_lossy(bytes: Seq<u8>) -> Seq<char>;

/// `String::from_utf8_lossy`, as an owned string.
#[verifier::external_body]
pub(crate) fn lossy_text(bytes: &[u8]) -> (text: String)
    ensures
        text@ == utf8_lossy(bytes@),
{
    String::from_utf8_lossy(bytes).into_owned()
}

} // verus!

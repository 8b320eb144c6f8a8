//! How a server identifies itself, and what it allows.
use vstd::prelude::*;
use vstd::utf8::{encode_utf8, is_ascii_chars};

verus! {

/// The name that every server goes by in its certificate.
pub const SERVER_NAME: &'static str = "localhost";

/// The number of one-way streams that a client may keep open to a server.
pub const MAX_CONCURRENT_UNI_STREAMS: u8 = 0;

/// Why no certificate could be made.
#[verifier::external_type_specification]
#[verifier::external_body]
pub struct ExRcgenError(rcgen::RcgenError);

/// What a server is set up with.
#[derive(Debug)]
pub struct ServerSettings {
    /// The certificates to present, in the DER format.
    pub cert_chain: Vec<Vec<u8>>,
    /// The private key of the first certificate, in the DER format.
    pub private_key: Vec<u8>,
    /// The number of one-way streams that a client may keep open.
    pub max_concurrent_uni_streams: u8,
}

/// `part` occurs somewhere in `whole`.
pub open spec fn occurs_in(part: Seq<u8>, whole: Seq<u8>) -> bool {
    exists|at: int|
        0 <= at <= whole.len() - part.len() && #[trigger] whole.subrange(at, at + part.len())
            == part
}

/// The names as texts.
pub open spec fn texts(names: Seq<String>) -> Seq<Seq<char>> {
    Seq::new(names.len(), |i: int| names[i]@)
}

/// The entries of DNS names in DER, each with its tag, its length and its letters. The lengths are
/// right for names of less than 128 bytes.
pub open spec fn name_entries(names: Seq<Seq<char>>) -> Seq<u8>
    decreases names.len(),
{
    if names.len() == 0 {
        Seq::empty()
    } else {
        let last = encode_utf8(names.last());
        name_entries(names.drop_last()) + seq![0x82u8, last.len() as u8] + last
    }
}

/// The longest entries whose length, and that of what is around them, takes one byte in DER.
pub open spec fn max_name_entries_len() -> nat {
    125
}

/// The list of the names that a certificate is for, in DER: the identifier of the extension for
/// subject alternative names, and as its content the sequence of exactly the given names.
pub open spec fn name_list(names: Seq<Seq<char>>) -> Seq<u8> {
    let entries = name_entries(names);
    seq![0x06u8, 0x03, 0x55, 0x1d, 0x11] + seq![0x04u8, (entries.len() + 2) as u8] + seq![
        0x30u8,
        entries.len() as u8,
    ] + entries
}

/// The private key belongs to the certificate: the public key, with which the document of the
/// private key ends, is in the certificate.
pub open spec fn belongs_to(private_key: Seq<u8>, certificate: Seq<u8>) -> bool {
    private_key.len() >= 65 && occurs_in(private_key.skip(private_key.len() - 65), certificate)
}

/// Calls `rcgen::generate_simple_self_signed` and hands out the new certificate and its private
/// key by `serialize_der` and `serialize_private_key_der`.
///
/// Taken on trust: a certificate that comes out holds the list of the given names and no others,
/// and the private key ends in a public key of 65 bytes that the certificate holds too. Of names
/// so long that DER spends more than one byte on a length, nothing is stated. Which key it is and
/// what the signature is are left to chance; nor is it stated when the call succeeds, which
/// depends on the machine's source of randomness. A name beyond ASCII would make the call panic.
#[verifier::external_body]
fn generate_certificate(names: Vec<String>) -> (generated: Result<
    (Vec<u8>, Vec<u8>),
    rcgen::RcgenError,
>)
    requires
        forall|i: int| 0 <= i < names@.len() ==> is_ascii_chars(#[trigger] names@[i]@),
    ensures
        generated matches Ok((certificate, private_key)) ==> {
            &&& 0 < name_entries(texts(names@)).len() <= max_name_entries_len() ==> occurs_in(
                name_list(texts(names@)),
                certificate@,
            )
            &&& belongs_to(private_key@, certificate@)
        },
{
    let certificate = rcgen::generate_simple_self_signed(names)?;
    Ok((certificate.serialize_der()?, certificate.serialize_private_key_der()))
}

/// The names that the certificate of a server is made for: [`SERVER_NAME`] alone.
pub fn certificate_names() -> (names: Vec<String>)
    ensures
        names@.len() == 1,
        names@[0]@ == SERVER_NAME@,
{
    let mut names: Vec<String> = Vec::new();
    names.push(SERVER_NAME.to_string());
    names
}

proof fn lemma_server_name_list()
    ensures
        is_ascii_chars(SERVER_NAME@),
        0 < name_entries(seq![SERVER_NAME@]).len() <= max_name_entries_len(),
{
    reveal_strlit("localhost");
    assert(is_ascii_chars(SERVER_NAME@));
    vstd::utf8::is_ascii_chars_encode_utf8(SERVER_NAME@);
    assert(seq![SERVER_NAME@].drop_last() =~= Seq::<Seq<char>>::empty());
    reveal_with_fuel(name_entries, 2);
}

/// The settings of a server that presents the given certificate alone; also gives the certificate.
pub fn settings_for(certificate: Vec<u8>, private_key: Vec<u8>) -> (settings: (
    ServerSettings,
    Vec<u8>,
))
    ensures
        settings.0.cert_chain@.len() == 1,
        settings.0.cert_chain@[0]@ == certificate@,
        settings.0.private_key == private_key,
        settings.0.max_concurrent_uni_streams == MAX_CONCURRENT_UNI_STREAMS,
        settings.1 == certificate,
{
    let presented = certificate.clone();
    assert(presented@ =~= certificate@);
    let mut cert_chain: Vec<Vec<u8>> = Vec::new();
    cert_chain.push(presented);
    (
        ServerSettings {
            cert_chain,
            private_key,
            max_concurrent_uni_streams: MAX_CONCURRENT_UNI_STREAMS,
        },
        certificate,
    )
}

/// The settings of a server with a fresh certificate for [`SERVER_NAME`] and no other name, and the
/// private key that belongs to it; also gives the certificate.
pub fn default_server_settings() -> (settings: Result<
    (ServerSettings, Vec<u8>),
    rcgen::RcgenError,
>)
    ensures
        settings matches Ok((settings, certificate)) ==> {
            &&& settings.cert_chain@.len() == 1
            &&& settings.cert_chain@[0]@ == certificate@
            &&& settings.max_concurrent_uni_streams == MAX_CONCURRENT_UNI_STREAMS
            &&& occurs_in(name_list(seq![SERVER_NAME@]), certificate@)
            &&& belongs_to(settings.private_key@, certificate@)
        },
{
    let names = certificate_names();
    proof {
        lemma_server_name_list();
        assert(texts(names@) =~= seq![SERVER_NAME@]);
    }
    settings_from(generate_certificate(names))
}

/// The settings of a server, given what making a certificate and its private key came to: there
/// are some exactly where a certificate was made, and otherwise the reason why not is passed on.
pub fn settings_from(generated: Result<(Vec<u8>, Vec<u8>), rcgen::RcgenError>) -> (settings: Result<
    (ServerSettings, Vec<u8>),
    rcgen::RcgenError,
>)
    ensures
        match generated {
            Ok((certificate, private_key)) => settings matches Ok((settings, presented)) && {
                &&& settings.cert_chain@.len() == 1
                &&& settings.cert_chain@[0]@ == certificate@
                &&& settings.private_key == private_key
                &&& settings.max_concurrent_uni_streams == MAX_CONCURRENT_UNI_STREAMS
                &&& presented == certificate
            },
            Err(err) => settings == Err::<(ServerSettings, Vec<u8>), rcgen::RcgenError>(err),
        },
{
    match generated {
        Ok((certificate, private_key)) => Ok(settings_for(certificate, private_key)),
        Err(err) => Err(err),
    }
}

/// Something occurs in a whole exactly where the whole is it with something before and behind.
pub proof fn law_occurring(part: Seq<u8>, before: Seq<u8>, behind: Seq<u8>, whole: Seq<u8>)
    ensures
        occurs_in(part, before + part + behind),
        occurs_in(part, whole) ==> exists|at: int|
            0 <= at && at + part.len() <= whole.len() && whole == #[trigger] whole.take(at) + part
                + whole.skip(at + part.len()),
{
    let all = before + part + behind;
    assert(all.subrange(before.len() as int, (before.len() + part.len()) as int) =~= part);
    if occurs_in(part, whole) {
        let at = choose|at: int|
            0 <= at <= whole.len() - part.len() && #[trigger] whole.subrange(at, at + part.len())
                == part;
        assert(whole =~= whole.take(at) + whole.subrange(at, at + part.len()) + whole.skip(
            at + part.len(),
        ));
    }
}

/// The list of one name says how long the name is, and holds it and nothing else.
pub proof fn law_list_of_one_name(name: Seq<char>)
    ensures
        ({
            let utf8 = encode_utf8(name);
            name_list(seq![name]) == seq![
                0x06u8,
                0x03,
                0x55,
                0x1d,
                0x11,
                0x04,
                (utf8.len() + 4) as u8,
                0x30,
                (utf8.len() + 2) as u8,
                0x82,
                utf8.len() as u8,
            ] + utf8
        }),
{
    let utf8 = encode_utf8(name);
    reveal_with_fuel(name_entries, 2);
    assert(seq![name].drop_last() =~= Seq::<Seq<char>>::empty());
    assert(name_entries(seq![name]) =~= seq![0x82u8, utf8.len() as u8] + utf8);
    assert(name_list(seq![name]) =~= seq![
        0x06u8,
        0x03,
        0x55,
        0x1d,
        0x11,
        0x04,
        (utf8.len() + 4) as u8,
        0x30,
        (utf8.len() + 2) as u8,
        0x82,
        utf8.len() as u8,
    ] + utf8);
}

/// A private key belongs to every certificate that holds the 65 bytes in which the key ends, and
/// to no other.
pub proof fn law_key_belongs(private_part: Seq<u8>, public_key: Seq<u8>, certificate: Seq<u8>)
    requires
        public_key.len() == 65,
    ensures
        belongs_to(private_part + public_key, certificate) <==> occurs_in(public_key, certificate),
{
    let key = private_part + public_key;
    assert(key.skip(key.len() - 65) =~= public_key);
}

} // verus!

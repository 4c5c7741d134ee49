//! Certificates and private keys in PEM text.

use rustls::pki_types::pem::{Error as SectionError, PemObject, ReadIter};
use rustls::pki_types::{CertificateDer, PrivateKeyDer};
use std::io::{BufReader, Cursor};
use vstd::prelude::*;

verus! {

/// Why PEM text could not be decoded.
#[derive(Debug)]
pub enum PemError {
    /// A section is opened and never closed.
    MissingSectionEnd { end_marker: Vec<u8> },
    /// The line that opens a section is malformed.
    IllegalSectionStart { line: Vec<u8> },
    /// The body of a section is not base64.
    Base64Decode(String),
    /// There is no section of the wanted kind.
    NoItemsFound,
    /// A section is larger than the decoder allows.
    SectionTooLarge,
    /// A failure of another kind. Decoding from memory gives none.
    Other,
}

/// The mathematical content of a [`PemError`].
pub enum PemErrorView {
    MissingSectionEnd { end_marker: Seq<u8> },
    IllegalSectionStart { line: Seq<u8> },
    Base64Decode(Seq<char>),
    NoItemsFound,
    SectionTooLarge,
    Other,
}

impl View for PemError {
    type V = PemErrorView;

    open spec fn view(&self) -> PemErrorView {
        match *self {
            PemError::MissingSectionEnd { end_marker } => PemErrorView::MissingSectionEnd {
                end_marker: end_marker@,
            },
            PemError::IllegalSectionStart { line } => PemErrorView::IllegalSectionStart {
                line: line@,
            },
            PemError::Base64Decode(text) => PemErrorView::Base64Decode(text@),
            PemError::NoItemsFound => PemErrorView::NoItemsFound,
            PemError::SectionTooLarge => PemErrorView::SectionTooLarge,
            PemError::Other => PemErrorView::Other,
        }
    }
}

/// The encoding of a private key.
#[derive(Clone, Copy, Debug, PartialEq, Eq, Structural)]
pub enum KeyForm {
    Pkcs1,
    Sec1,
    Pkcs8,
}

/// A private key in DER.
pub struct PrivateKey {
    pub form: KeyForm,
    pub der: Vec<u8>,
}

/// The mathematical content of a [`PrivateKey`].
pub struct PrivateKeyView {
    pub form: KeyForm,
    pub der: Seq<u8>,
}

impl View for PrivateKey {
    type V = PrivateKeyView;

    open spec fn view(&self) -> PrivateKeyView {
        PrivateKeyView { form: self.form, der: self.der@ }
    }
}

/// `std::io::BufReader`, a part of [`CertificateSections`].
#[verifier::external_type_specification]
#[verifier::external_body]
#[verifier::reject_recursive_types(R)]
pub struct ExBufReader<R: ?Sized>(BufReader<R>);

/// `std::io::Cursor`, a part of [`CertificateSections`].
#[verifier::external_type_specification]
#[verifier::external_body]
#[verifier::reject_recursive_types(T)]
pub struct ExCursor<T>(Cursor<T>);

/// `rustls::pki_types::CertificateDer`, a part of [`CertificateSections`].
#[verifier::external_type_specification]
#[verifier::external_body]
pub struct ExCertificateDer<'a>(CertificateDer<'a>);

/// `rustls::pki_types::pem::ReadIter`, seen only through [`sections_left`].
#[verifier::external_type_specification]
#[verifier::external_body]
#[verifier::reject_recursive_types(R)]
#[verifier::reject_recursive_types(T)]
pub struct ExReadIter<R, T>(ReadIter<R, T>);

/// The content of a decoded section.
pub open spec fn section_view(section: Result<Vec<u8>, PemError>) -> Result<
    Seq<u8>,
    PemErrorView,
> {
    match section {
        Ok(der) => Ok(der@),
        Err(error) => Err(error@),
    }
}

/// The content of each decoded section.
pub open spec fn sections_view(sections: Seq<Result<Vec<u8>, PemError>>) -> Seq<
    Result<Seq<u8>, PemErrorView>,
> {
    sections.map_values(|section: Result<Vec<u8>, PemError>| section_view(section))
}

/// The content of a decoded key.
pub open spec fn key_view(key: Result<PrivateKey, PemError>) -> Result<
    PrivateKeyView,
    PemErrorView,
> {
    match key {
        Ok(key) => Ok(key@),
        Err(error) => Err(error@),
    }
}

/// The bytes of each certificate of a chain.
pub open spec fn chain_view(chain: Seq<Vec<u8>>) -> Seq<Seq<u8>> {
    chain.map_values(|der: Vec<u8>| der@)
}

/// The content of a decoded chain.
pub open spec fn chain_result_view(chain: Result<Vec<Vec<u8>>, PemError>) -> Result<
    Seq<Seq<u8>>,
    PemErrorView,
> {
    match chain {
        Ok(chain) => Ok(chain_view(chain@)),
        Err(error) => Err(error@),
    }
}

/// What is still to come of the certificate sections of a PEM text, read from memory.
pub type CertificateSections = ReadIter<BufReader<Cursor<Vec<u8>>>, CertificateDer<'static>>;

/// The certificates, or failures, that `sections` has yet to yield, in order.
pub uninterp spec fn sections_left(sections: CertificateSections) -> Seq<
    Result<Seq<u8>, PemErrorView>,
>;

/// What the PEM decoder finds in `pem` when it looks for certificates: the DER bytes of each
/// certificate section, and a failure wherever the text breaks off or is malformed, in order.
pub uninterp spec fn certificate_sections(pem: Seq<u8>) -> Seq<Result<Seq<u8>, PemErrorView>>;

/// What the PEM decoder gives for the first private key in `pem`.
pub uninterp spec fn first_private_key(pem: Seq<u8>) -> Result<PrivateKeyView, PemErrorView>;

/// Calls `CertificateDer::pem_reader_iter` on an in-memory reader of `pem`.
///
/// Trusted: the iterator will yield what the decoder finds in `pem`, which depends on the bytes
/// alone and is not described further here.
#[verifier::external_body]
fn pem_reader_iter(pem: Vec<u8>) -> (sections: CertificateSections)
    ensures
        sections_left(sections) == certificate_sections(pem@),
{
    CertificateDer::pem_reader_iter(Cursor::new(pem))
}

/// Calls `next` of the iterator that `CertificateDer::pem_reader_iter` returns.
///
/// Trusted: it yields the first of the items that are left and keeps the others in their order;
/// once none is left it yields nothing and stays as it is.
#[verifier::external_body]
fn next_section(sections: &mut CertificateSections) -> (item: Option<
    Result<Vec<u8>, PemError>,
>)
    ensures
        item is None <==> sections_left(*old(sections)).len() == 0,
        item is None ==> sections_left(*final(sections)) == sections_left(*old(sections)),
        item matches Some(item) ==> sections_left(*old(sections)).first() == section_view(item),
        item is Some ==> sections_left(*final(sections)) == sections_left(
            *old(sections),
        ).drop_first(),
{
    match sections.next()? {
        Ok(der) => Some(Ok(der.to_vec())),
        Err(error) => Some(Err(match error {
            SectionError::MissingSectionEnd { end_marker } => PemError::MissingSectionEnd { end_marker },
            SectionError::IllegalSectionStart { line } => PemError::IllegalSectionStart { line },
            SectionError::Base64Decode(text) => PemError::Base64Decode(text),
            SectionError::NoItemsFound => PemError::NoItemsFound,
            SectionError::SectionTooLarge => PemError::SectionTooLarge,
            _ => PemError::Other,
        })),
    }
}

/// Calls `PrivateKeyDer::from_pem_slice`.
///
/// Trusted: the key, with its encoding and its bytes, or the failure, depends on the bytes of
/// `pem` alone and is not described further here. The decoder knows three encodings; the last
/// arm for `Ok` is the third of them.
#[verifier::external_body]
pub(crate) fn from_pem_slice(pem: &[u8]) -> (key: Result<PrivateKey, PemError>)
    ensures
        key_view(key) == first_private_key(pem@),
{
    match PrivateKeyDer::from_pem_slice(pem) {
        Ok(PrivateKeyDer::Pkcs1(key)) => Ok(
            PrivateKey { form: KeyForm::Pkcs1, der: key.secret_pkcs1_der().to_vec() }),
        Ok(PrivateKeyDer::Sec1(key)) => Ok(
            PrivateKey { form: KeyForm::Sec1, der: key.secret_sec1_der().to_vec() }),
        Ok(key) => Ok(PrivateKey { form: KeyForm::Pkcs8, der: key.secret_der().to_vec() }),
        Err(error) => Err(match error {
            SectionError::MissingSectionEnd { end_marker } => PemError::MissingSectionEnd { end_marker },
            SectionError::IllegalSectionStart { line } => PemError::IllegalSectionStart { line },
            SectionError::Base64Decode(text) => PemError::Base64Decode(text),
            SectionError::NoItemsFound => PemError::NoItemsFound,
            SectionError::SectionTooLarge => PemError::SectionTooLarge,
            _ => PemError::Other,
        }),
    }
}

/// All the certificates among `items`, or the first failure.
pub open spec fn all_or_first_error(items: Seq<Result<Seq<u8>, PemErrorView>>) -> Result<
    Seq<Seq<u8>>,
    PemErrorView,
>
    decreases items.len(),
{
    if items.len() == 0 {
        Ok(Seq::empty())
    } else {
        match items.first() {
            Err(error) => Err(error),
            Ok(der) => match all_or_first_error(items.drop_first()) {
                Err(error) => Err(error),
                Ok(rest) => Ok(seq![der] + rest),
            },
        }
    }
}

/// Decodes every certificate section of `pem`, failures included.
pub fn decode_sections(pem: Vec<u8>) -> (items: Vec<Result<Vec<u8>, PemError>>)
    ensures
        sections_view(items@) == certificate_sections(pem@),
{
    let mut items: Vec<Result<Vec<u8>, PemError>> = Vec::new();
    let mut sections = pem_reader_iter(pem);
    assert(sections_view(items@) + sections_left(sections) =~= sections_left(sections));
    loop
        invariant
            sections_view(items@) + sections_left(sections) == certificate_sections(pem@),
        decreases sections_left(sections).len(),
    {
        let ghost left = sections_left(sections);
        match next_section(&mut sections) {
            None => {
                assert(sections_view(items@) + left =~= sections_view(items@));
                return items;
            },
            Some(item) => {
                let ghost before = sections_view(items@);
                items.push(item);
                assert(sections_view(items@) =~= before.push(section_view(item)));
                assert(before + left =~= sections_view(items@) + left.drop_first());
            },
        }
    }
}

/// Gathers the certificates of a chain, or gives the first failure among its sections.
pub fn collect_chain(items: Vec<Result<Vec<u8>, PemError>>) -> (chain: Result<
    Vec<Vec<u8>>,
    PemError,
>)
    ensures
        chain_result_view(chain) == all_or_first_error(sections_view(items@)),
{
    let mut chain: Vec<Vec<u8>> = Vec::new();
    let ghost all = sections_view(items@);
    proof {
        assert(all.skip(0) =~= all);
        if all_or_first_error(all) is Ok {
            let ders = all_or_first_error(all)->Ok_0;
            assert(chain_view(chain@) + ders =~= ders);
        }
    }
    for item in iter: items.into_iter()
        invariant
            all == sections_view(items@),
            iter.seq() == items@,
            all_or_first_error(all) matches Err(error) ==> all_or_first_error(
                all.skip(iter.index() as int),
            ) == Err::<Seq<Seq<u8>>, PemErrorView>(error),
            all_or_first_error(all) matches Ok(ders) ==> {
                &&& all_or_first_error(all.skip(iter.index() as int)) is Ok
                &&& ders == chain_view(chain@) + all_or_first_error(
                    all.skip(iter.index() as int),
                )->Ok_0
            },
    {
        let ghost left = all.skip(iter.index() as int);
        assert(left.first() == section_view(item));
        assert(left.drop_first() =~= all.skip(iter.index() + 1));
        match item {
            Err(error) => {
                return Err(error);
            },
            Ok(der) => {
                let ghost before = chain_view(chain@);
                chain.push(der);
                proof {
                    assert(chain_view(chain@) =~= before.push(der@));
                    if all_or_first_error(all) is Ok {
                        let tail = all_or_first_error(left.drop_first())->Ok_0;
                        assert(before + (seq![der@] + tail) =~= chain_view(chain@) + tail);
                    }
                }
            },
        }
    }
    proof {
        assert(all.skip(all.len() as int) =~= Seq::empty());
        assert(chain_view(chain@) + Seq::<Seq<u8>>::empty() =~= chain_view(chain@));
    }
    Ok(chain)
}

/// Decodes a chain of certificates, leaf first, as it stands in `pem`.
pub fn certificate_chain(pem: Vec<u8>) -> (chain: Result<Vec<Vec<u8>>, PemError>)
    ensures
        chain_result_view(chain) == all_or_first_error(certificate_sections(pem@)),
{
    collect_chain(decode_sections(pem))
}

/// A chain is accepted exactly when every section decodes; it then holds the sections in their
/// order. Otherwise the failure reported is the first one in the text.
pub proof fn chain_is_all_sections_or_first_error(items: Seq<Result<Seq<u8>, PemErrorView>>)
    ensures
        match all_or_first_error(items) {
            Ok(chain) => {
                &&& chain.len() == items.len()
                &&& forall|i: int|
                    0 <= i < items.len() ==> (#[trigger] items[i]) == Ok::<Seq<u8>, PemErrorView>(
                        chain[i],
                    )
            },
            Err(error) => exists|i: int|
                {
                    &&& 0 <= i < items.len()
                    &&& #[trigger] items[i] == Err::<Seq<u8>, PemErrorView>(error)
                    &&& forall|j: int| 0 <= j < i ==> (#[trigger] items[j]) is Ok
                },
        },
    decreases items.len(),
{
    if items.len() > 0 {
        let rest = items.drop_first();
        chain_is_all_sections_or_first_error(rest);
        assert forall|i: int| 0 < i < items.len() implies #[trigger] items[i] == rest[i - 1] by {}
        if items.first() is Ok {
            match all_or_first_error(rest) {
                Ok(_) => {},
                Err(error) => {
                    let i = choose|i: int|
                        {
                            &&& 0 <= i < rest.len()
                            &&& #[trigger] rest[i] == Err::<Seq<u8>, PemErrorView>(error)
                            &&& forall|j: int| 0 <= j < i ==> (#[trigger] rest[j]) is Ok
                        };
                    assert(items[i + 1] == rest[i]);
                },
            }
        } else {
            assert(items[0] is Err);
        }
    }
}

} // verus!

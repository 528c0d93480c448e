//! The store: sealing text into a record and opening a record again.

use crate::cipher::{
    aead_decrypt, aead_encrypt, aes256_gcm_open, aes256_gcm_seal, max_plaintext_len, random_nonce,
    KEY_SIZE, NONCE_SIZE, TAG_SIZE,
};
use crate::record::{
    assemble_record, holds_nonce, lemma_split_of_assembled, record_bytes, record_nonce,
    record_sealed, split_record,
};
use vstd::prelude::*;
use vstd::string::StringSliceAdditionalSpecFns;
use vstd::utf8::{
    decode_utf8, decode_utf8_encode_utf8, encode_utf8, encode_utf8_decode_utf8,
    encode_utf8_valid_utf8, valid_utf8,
};

verus! {

/// Why a record could not be produced or read.
#[derive(Clone, Copy, Debug, PartialEq, Eq, Structural)]
pub enum StoreError {
    /// The stored bytes are too short to hold a nonce; `len` is their length.
    MalformedRecord { len: usize },
    /// The cipher refused the record: wrong key, or altered bytes.
    Authentication,
    /// The decrypted bytes are not UTF-8.
    Encoding,
    /// The cipher refused the plaintext because of its length.
    Encryption,
}

/// The record that sealing `text` under `key` with `nonce` gives.
pub open spec fn sealed_record(key: Seq<u8>, nonce: Seq<u8>, text: Seq<char>) -> Result<
    Seq<u8>,
    StoreError,
> {
    if encode_utf8(text).len() > max_plaintext_len() {
        Err(StoreError::Encryption)
    } else {
        Ok(record_bytes(nonce, aes256_gcm_seal(key, nonce, encode_utf8(text))))
    }
}

/// The text that the cipher's answer stands for: no answer is an
/// authentication failure, bytes that are not UTF-8 an encoding failure.
pub open spec fn decoded_text(opened: Option<Seq<u8>>) -> Result<Seq<char>, StoreError> {
    match opened {
        None => Err(StoreError::Authentication),
        Some(bytes) => if valid_utf8(bytes) {
            Ok(decode_utf8(bytes))
        } else {
            Err(StoreError::Encoding)
        },
    }
}

/// The text that opening `record` under `key` gives.
pub open spec fn opened_record(key: Seq<u8>, record: Seq<u8>) -> Result<Seq<char>, StoreError> {
    if !holds_nonce(record) {
        Err(StoreError::MalformedRecord { len: record.len() as usize })
    } else {
        decoded_text(aes256_gcm_open(key, record_nonce(record), record_sealed(record)))
    }
}

/// The text that retrieval gives for what was found in storage: nothing
/// stored reads as the empty text.
pub open spec fn retrieved_text(key: Seq<u8>, stored: Option<Seq<u8>>) -> Result<
    Seq<char>,
    StoreError,
> {
    match stored {
        None => Ok(Seq::empty()),
        Some(record) => opened_record(key, record),
    }
}

/// A text result, with the string taken by its characters.
pub open spec fn text_view(r: Result<String, StoreError>) -> Result<Seq<char>, StoreError> {
    match r {
        Ok(s) => Ok(s@),
        Err(e) => Err(e),
    }
}

/// A record result, with the vector taken by its bytes.
pub open spec fn record_view(r: Result<Vec<u8>, StoreError>) -> Result<Seq<u8>, StoreError> {
    match r {
        Ok(v) => Ok(v@),
        Err(e) => Err(e),
    }
}

/// The cipher's answer, with the vector taken by its bytes.
pub open spec fn bytes_view(o: Option<Vec<u8>>) -> Option<Seq<u8>> {
    match o {
        Some(v) => Some(v@),
        None => None,
    }
}

/// Stored bytes as found, taken as a sequence.
pub open spec fn stored_view(o: Option<&[u8]>) -> Option<Seq<u8>> {
    match o {
        Some(v) => Some(v@),
        None => None,
    }
}

/// Turns the cipher's answer into text.
pub fn decode_plaintext(opened: Option<Vec<u8>>) -> (r: Result<String, StoreError>)
    ensures
        text_view(r) == decoded_text(bytes_view(opened)),
{
    match opened {
        None => Err(StoreError::Authentication),
        Some(bytes) => match String::from_utf8(bytes) {
            Ok(text) => Ok(text),
            Err(_) => Err(StoreError::Encoding),
        },
    }
}

/// Text comes only from a record that the cipher accepted: where opening
/// gives a text, the record holds a nonce and the cipher, for that nonce and
/// the bytes after it, answered with the UTF-8 encoding of that text.
pub proof fn lemma_text_only_from_accepted_record(key: Seq<u8>, record: Seq<u8>, text: Seq<char>)
    requires
        opened_record(key, record) == Ok::<Seq<char>, StoreError>(text),
    ensures
        holds_nonce(record),
        aes256_gcm_open(key, record_nonce(record), record_sealed(record)) == Some(
            encode_utf8(text),
        ),
{
    let opened = aes256_gcm_open(key, record_nonce(record), record_sealed(record));
    decode_utf8_encode_utf8(opened->Some_0);
}

/// A record that the cipher refuses fails authentication: where the record
/// holds a nonce and the cipher gives no answer for it, opening gives the
/// authentication error, and no text.
pub proof fn lemma_refused_record_fails_authentication(key: Seq<u8>, record: Seq<u8>)
    requires
        holds_nonce(record),
        aes256_gcm_open(key, record_nonce(record), record_sealed(record)) is None,
    ensures
        opened_record(key, record) == Err::<Seq<char>, StoreError>(StoreError::Authentication),
{
}

/// Sealing and then retrieving gives the text back, as far as the library's
/// own part goes: where the cipher, for this key and nonce, answers the
/// sealed encoding of `text` with that encoding, the record that sealing
/// gives is read back as `text`.
pub proof fn lemma_round_trip_where_cipher_inverts(
    key: Seq<u8>,
    nonce: Seq<u8>,
    text: Seq<char>,
    record: Seq<u8>,
)
    requires
        nonce.len() == NONCE_SIZE,
        sealed_record(key, nonce, text) == Ok::<Seq<u8>, StoreError>(record),
        aes256_gcm_open(key, nonce, aes256_gcm_seal(key, nonce, encode_utf8(text))) == Some(
            encode_utf8(text),
        ),
    ensures
        opened_record(key, record) == Ok::<Seq<char>, StoreError>(text),
        retrieved_text(key, Some(record)) == Ok::<Seq<char>, StoreError>(text),
{
    lemma_split_of_assembled(nonce, aes256_gcm_seal(key, nonce, encode_utf8(text)));
    encode_utf8_valid_utf8(text);
    encode_utf8_decode_utf8(text);
}

/// Nothing stored and an empty text stored read alike: both give the empty
/// text, so the result alone does not tell them apart.
pub proof fn lemma_absent_reads_as_empty(key: Seq<u8>, record: Seq<u8>)
    requires
        opened_record(key, record) == Ok::<Seq<char>, StoreError>(Seq::empty()),
    ensures
        retrieved_text(key, Some(record)) == retrieved_text(key, None),
{
}

/// A store bound to one 256-bit key.
pub struct SecureBlobStore {
    key: [u8; 32],
}

impl View for SecureBlobStore {
    type V = Seq<u8>;

    /// The key, as its 32 bytes.
    closed spec fn view(&self) -> Seq<u8> {
        self.key@
    }
}

impl SecureBlobStore {
    /// A store that seals and opens under `key`.
    pub fn new(key: [u8; 32]) -> (store: SecureBlobStore)
        ensures
            store@ == key@,
            store@.len() == KEY_SIZE,
    {
        SecureBlobStore { key }
    }

    /// Seals `text` with the given nonce.
    ///
    /// Fails exactly when the text is longer than the cipher accepts. A
    /// record that comes back opens, under this store's key, to `text`.
    ///
    /// The caller answers for the nonce: one that was used before under the
    /// same key, for another text, breaks the cipher's guarantees. Use
    /// [`seal`](Self::seal) unless the nonce has to be fixed.
    pub fn seal_with_nonce(&self, nonce: &[u8; 12], text: &str) -> (r: Result<
        Vec<u8>,
        StoreError,
    >)
        ensures
            record_view(r) == sealed_record(self@, nonce@, text@),
            r is Ok ==> r->Ok_0@.len() == NONCE_SIZE + text.spec_bytes().len() + TAG_SIZE,
            r is Ok ==> opened_record(self@, r->Ok_0@) == Ok::<Seq<char>, StoreError>(text@),
    {
        let plaintext = text.as_bytes();
        match aead_encrypt(&self.key, nonce.as_slice(), plaintext) {
            Err(_) => Err(StoreError::Encryption),
            Ok(sealed) => {
                let record = assemble_record(nonce.as_slice(), sealed.as_slice());
                proof {
                    lemma_round_trip_where_cipher_inverts(self@, nonce@, text@, record@);
                }
                Ok(record)
            },
        }
    }

    /// Seals `text` with a fresh random nonce.
    ///
    /// Fails exactly when the text is longer than the cipher accepts.
    /// Whatever nonce was drawn, the record is the one that
    /// [`seal_with_nonce`](Self::seal_with_nonce) gives for it, and opens,
    /// under this store's key, to `text`.
    pub fn seal(&self, text: &str) -> (r: Result<Vec<u8>, StoreError>)
        ensures
            r is Ok <==> text.spec_bytes().len() <= max_plaintext_len(),
            r is Err ==> r == Err::<Vec<u8>, StoreError>(StoreError::Encryption),
            r is Ok ==> exists|nonce: Seq<u8>|
                nonce.len() == NONCE_SIZE && #[trigger] sealed_record(self@, nonce, text@) == Ok::<
                    Seq<u8>,
                    StoreError,
                >(r->Ok_0@),
            r is Ok ==> r->Ok_0@.len() == NONCE_SIZE + text.spec_bytes().len() + TAG_SIZE,
            r is Ok ==> opened_record(self@, r->Ok_0@) == Ok::<Seq<char>, StoreError>(text@),
    {
        let nonce = random_nonce();
        let r = self.seal_with_nonce(&nonce, text);
        assert(r is Ok ==> sealed_record(self@, nonce@, text@) == Ok::<Seq<u8>, StoreError>(
            r->Ok_0@,
        ));
        r
    }

    /// Opens a record: splits off the nonce, decrypts what follows and reads
    /// the plaintext as UTF-8.
    pub fn open(&self, record: &[u8]) -> (r: Result<String, StoreError>)
        ensures
            text_view(r) == opened_record(self@, record@),
            !holds_nonce(record@) ==> r == Err::<String, StoreError>(
                StoreError::MalformedRecord { len: record.len() },
            ),
            holds_nonce(record@) && record@.len() < NONCE_SIZE + TAG_SIZE ==> r == Err::<
                String,
                StoreError,
            >(StoreError::Authentication),
    {
        match split_record(record) {
            None => Err(StoreError::MalformedRecord { len: record.len() }),
            Some((nonce, sealed)) => {
                let opened = match aead_decrypt(&self.key, nonce, sealed) {
                    Ok(bytes) => Some(bytes),
                    Err(_) => None,
                };
                decode_plaintext(opened)
            },
        }
    }

    /// Reads back what was found in storage: `None`, for nothing stored,
    /// gives the empty text; stored bytes are opened as a record.
    pub fn retrieve(&self, stored: Option<&[u8]>) -> (r: Result<String, StoreError>)
        ensures
            text_view(r) == retrieved_text(self@, stored_view(stored)),
            stored is None ==> r is Ok && r->Ok_0@.len() == 0,
            stored is Some && !holds_nonce(stored->Some_0@) ==> r == Err::<String, StoreError>(
                StoreError::MalformedRecord { len: stored->Some_0.len() },
            ),
    {
        match stored {
            None => Ok(String::new()),
            Some(record) => self.open(record),
        }
    }
}

} // verus!

//! Passphrase encryption of the plaintext into an armored age file.
use vstd::prelude::*;

use age::secrecy::SecretString;

verus! {

#[verifier::external_type_specification]
#[verifier::external_body]
pub struct ExScryptRecipient(age::scrypt::Recipient);

#[verifier::external_type_specification]
#[verifier::external_body]
pub struct ExEncryptError(age::EncryptError);

/// The first line of an armored age file.
pub const ARMOR_BEGIN_MARKER: &'static str = "-----BEGIN AGE ENCRYPTED FILE-----";

/// The last line of an armored age file.
pub const ARMOR_END_MARKER: &'static str = "-----END AGE ENCRYPTED FILE-----";

/// Whether `s` opens with the begin marker as a line of its own.
pub open spec fn opens_armor(s: Seq<char>) -> bool {
    (ARMOR_BEGIN_MARKER@ + seq!['\n']).is_prefix_of(s) || (ARMOR_BEGIN_MARKER@ + seq![
        '\r',
        '\n',
    ]).is_prefix_of(s)
}

/// Whether `s` closes with the end marker as a line of its own.
pub open spec fn closes_armor(s: Seq<char>) -> bool {
    (seq!['\n'] + ARMOR_END_MARKER@ + seq!['\n']).is_suffix_of(s) || (seq!['\n']
        + ARMOR_END_MARKER@ + seq!['\r', '\n']).is_suffix_of(s)
}

/// Why the plaintext could not be encrypted.
#[derive(Clone, Copy, Debug, PartialEq, Eq, Structural)]
pub enum EncryptionError {
    /// Writing the encrypted or armored stream failed.
    Io,
}

/// Relies on `age::scrypt::Recipient::new`: a recipient that wraps the
/// file key with the passphrase.
#[verifier::external_body]
fn passphrase_recipient(passphrase: String) -> age::scrypt::Recipient {
    age::scrypt::Recipient::new(SecretString::from(passphrase))
}

/// Relies on `age::encrypt_and_armor`: the ciphertext in ASCII armor. Its
/// first line is the begin marker and its last line the end marker, each
/// ended by the platform's line ending.
#[verifier::external_body]
fn encrypt_and_armor(recipient: &age::scrypt::Recipient, plaintext: &[u8]) -> (r: Result<
    String,
    age::EncryptError,
>)
    ensures
        r is Ok ==> opens_armor(r->Ok_0@),
        r is Ok ==> closes_armor(r->Ok_0@),
{
    age::encrypt_and_armor(recipient, plaintext)
}

/// Encrypt the plaintext with the passphrase and PEM encode the ciphertext.
/// Returns the plaintext's length and the armored ciphertext.
pub fn encrypt_plaintext(plaintext: &[u8], passphrase: String) -> (r: Result<
    (usize, String),
    EncryptionError,
>)
    ensures
        r is Ok ==> r->Ok_0.0 == plaintext@.len(),
        r is Ok ==> opens_armor(r->Ok_0.1@),
        r is Ok ==> closes_armor(r->Ok_0.1@),
        r is Err ==> r == Err::<(usize, String), EncryptionError>(EncryptionError::Io),
{
    let recipient = passphrase_recipient(passphrase);
    match encrypt_and_armor(&recipient, plaintext) {
        Ok(armored) => Ok((plaintext.len(), armored)),
        Err(_) => Err(EncryptionError::Io),
    }
}

} // verus!

//! The cipher that seals and opens Noise transport messages.
//!
//! Sealing and opening is done by [`NoiseCipher`]: AES-256-GCM under a key agreed during the
//! handshake, with a nonce made of a message counter and no associated data. What a sealed
//! message looks like is given a name here, [`sealed`]; what a received one opens to, another,
//! [`opened`].

use vstd::prelude::*;
use wacore::handshake::NoiseCipher;
use wacore::noise::NoiseError;

verus! {

/// Bytes that sealing appends to a message: the authentication tag.
pub const TAG_SIZE: usize = 16;

/// The longest message that the cipher seals.
pub const MAX_PLAINTEXT_SIZE: u64 = 0x10_0000_0000;

/// `wacore::handshake::NoiseCipher`, a key ready for use. A value of it never changes.
#[verifier::external_type_specification]
#[verifier::external_body]
pub struct ExNoiseCipher(wacore::handshake::NoiseCipher);

/// `wacore::noise::NoiseError`, what a cipher operation fails with.
#[verifier::external_type_specification]
#[verifier::external_body]
pub struct ExNoiseError(wacore::noise::NoiseError);

/// The ciphertext, tag included, that `NoiseCipher::encrypt_with_counter` returns.
pub uninterp spec fn sealed(cipher: NoiseCipher, counter: u32, plaintext: Seq<u8>) -> Seq<u8>;

/// The plaintext that `NoiseCipher::decrypt_with_counter` returns, or `None` where it refuses
/// the ciphertext.
pub uninterp spec fn opened(cipher: NoiseCipher, counter: u32, ciphertext: Seq<u8>) -> Option<
    Seq<u8>,
>;

/// The text that a `NoiseError` displays as.
pub uninterp spec fn noise_error_text(error: NoiseError) -> Seq<char>;

/// What a message that is too long for the cipher is refused with.
pub open spec fn seal_error_text() -> Seq<char> {
    "Cryptographic operation failed: aead::Error"@
}

/// What a ciphertext that does not open is refused with.
pub open spec fn open_error_text() -> Seq<char> {
    "Cryptographic operation failed: Decrypt failed: aead::Error"@
}

/// What sealing `plaintext` as message number `counter` comes to: the sealed message or, for one
/// too long for the cipher, the text of the error.
pub open spec fn seal_outcome(cipher: NoiseCipher, counter: u32, plaintext: Seq<u8>) -> Result<
    Seq<u8>,
    Seq<char>,
> {
    if plaintext.len() <= MAX_PLAINTEXT_SIZE {
        Ok(sealed(cipher, counter, plaintext))
    } else {
        Err(seal_error_text())
    }
}

/// That the message sealed from `plaintext` is one tag longer, and opens to `plaintext` again
/// under the same cipher and counter.
pub open spec fn seal_sound(cipher: NoiseCipher, counter: u32, plaintext: Seq<u8>) -> bool {
    &&& sealed(cipher, counter, plaintext).len() == plaintext.len() + TAG_SIZE
    &&& opened(cipher, counter, sealed(cipher, counter, plaintext)) == Some(plaintext)
}

/// Trusted: `NoiseCipher::encrypt_with_counter` returns the message sealed under the counter, one
/// tag longer than the plaintext, which opens to the plaintext again; and it refuses, with the
/// text of an `aead` error, just what is longer than the cipher allows. The buffer that it
/// allocates has to fit in memory.
pub assume_specification[ NoiseCipher::encrypt_with_counter ](
    cipher: &NoiseCipher,
    counter: u32,
    plaintext: &[u8],
) -> (result: Result<Vec<u8>, NoiseError>)
    requires
        plaintext@.len() + TAG_SIZE <= isize::MAX,
    ensures
        result is Ok <==> plaintext@.len() <= MAX_PLAINTEXT_SIZE,
        result matches Ok(ciphertext) ==> ciphertext@ == sealed(*cipher, counter, plaintext@),
        result matches Ok(ciphertext) ==> ciphertext@.len() == plaintext@.len() + TAG_SIZE,
        result matches Ok(ciphertext) ==> opened(*cipher, counter, ciphertext@) == Some(
            plaintext@,
        ),
        result matches Err(error) ==> noise_error_text(error) == seal_error_text(),
;

/// Trusted: `NoiseCipher::encrypt_in_place_with_counter` replaces the plaintext in the buffer by
/// what `encrypt_with_counter` makes of it, and refuses the same plaintexts, which it leaves in
/// the buffer.
pub assume_specification[ NoiseCipher::encrypt_in_place_with_counter ](
    cipher: &NoiseCipher,
    counter: u32,
    buffer: &mut Vec<u8>,
) -> (result: Result<(), NoiseError>)
    requires
        old(buffer)@.len() + TAG_SIZE <= isize::MAX,
    ensures
        result is Ok <==> old(buffer)@.len() <= MAX_PLAINTEXT_SIZE,
        result is Ok ==> final(buffer)@ == sealed(*cipher, counter, old(buffer)@),
        result is Ok ==> final(buffer)@.len() == old(buffer)@.len() + TAG_SIZE,
        result is Ok ==> opened(*cipher, counter, final(buffer)@) == Some(old(buffer)@),
        result is Err ==> final(buffer)@ == old(buffer)@,
        result matches Err(error) ==> noise_error_text(error) == seal_error_text(),
;

/// Trusted: `NoiseCipher::decrypt_with_counter` returns what the ciphertext opens to under the
/// counter, one tag shorter than the ciphertext, and refuses what does not open, with the text of
/// an `aead` error.
pub assume_specification[ NoiseCipher::decrypt_with_counter ](
    cipher: &NoiseCipher,
    counter: u32,
    ciphertext: &[u8],
) -> (result: Result<Vec<u8>, NoiseError>)
    ensures
        result is Ok <==> opened(*cipher, counter, ciphertext@) is Some,
        result matches Ok(plaintext) ==> opened(*cipher, counter, ciphertext@) == Some(plaintext@),
        result matches Ok(plaintext) ==> plaintext@.len() + TAG_SIZE == ciphertext@.len(),
        result matches Err(error) ==> noise_error_text(error) == open_error_text(),
;

/// Trusted: the text of a `NoiseError`, as `ToString::to_string` gives it.
#[verifier::external_body]
pub(crate) fn describe_noise_error(error: &NoiseError) -> (text: String)
    ensures
        text@ == noise_error_text(*error),
{
    error.to_string()
}

} // verus!

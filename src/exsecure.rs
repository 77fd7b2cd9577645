//! Password-keyed bulk encryption of file contents.
//!
//! A password is hashed to a 16-byte AES key. Contents are framed by
//! appending four random bytes and then run through AES-128 in counter mode
//! under a fixed initialisation vector; opening runs the same keystream and
//! drops the last four bytes. There is no salt, no per-file nonce and no
//! integrity tag: the same password always gives the same key and keystream,
//! and tampering is not detected. A new deployment should store a random
//! nonce beside each ciphertext instead of relying on the fixed vector, which
//! is kept here so that existing ciphertexts stay readable.
use crate::error::{E2eError, FolderError};
use crate::primitives::{
    aes128_ctr64le_keystream, apply_aes128_ctr, random_suffix, sha256, sha256_of, xor_bytes,
};
use vstd::prelude::*;
use vstd::slice::slice_to_vec;
use vstd::string::StringSliceAdditionalSpecFns;

verus! {

/// The fixed initialisation vector: the ASCII bytes of `tranngochung1996`.
pub open spec fn fixed_iv() -> Seq<u8> {
    seq![
        116u8, 114u8, 97u8, 110u8, 110u8, 103u8, 111u8, 99u8,
        104u8, 117u8, 110u8, 103u8, 49u8, 57u8, 57u8, 54u8,
    ]
}

/// The AES key derived from a password: the first 16 bytes of the SHA-256
/// digest of its UTF-8 bytes.
pub open spec fn derived_key(password: Seq<u8>) -> Seq<u8> {
    Seq::new(16, |i: int| sha256_of(password)[i])
}

/// The counter-mode transform: `data` XORed with as much keystream as it is long.
pub open spec fn ctr_transform(key: Seq<u8>, iv: Seq<u8>, data: Seq<u8>) -> Seq<u8> {
    xor_bytes(data, aes128_ctr64le_keystream(key, iv, data.len()))
}

/// `sealed` is `plain` with some four-byte suffix appended, run through the
/// counter-mode transform.
pub open spec fn is_sealing_of(key: Seq<u8>, iv: Seq<u8>, plain: Seq<u8>, sealed: Seq<u8>) -> bool {
    exists|suffix: Seq<u8>| suffix.len() == 4 && sealed == #[trigger] ctr_transform(key, iv, plain + suffix)
}

/// What opening framed ciphertext gives: the transform undone and the
/// four-byte suffix dropped, after the argument checks in their order.
pub open spec fn open_frame(key: Seq<u8>, iv: Seq<u8>, sealed: Seq<u8>) -> Result<Seq<u8>, E2eError> {
    if iv.len() != 16 {
        Err(E2eError::InvalidIvLength)
    } else if key.len() != 16 {
        Err(E2eError::InvalidKeyLength)
    } else if sealed.len() < 4 {
        Err(E2eError::TruncatedInput)
    } else {
        Ok(ctr_transform(key, iv, sealed).subrange(0, sealed.len() - 4))
    }
}

/// A byte-vector result seen as a byte-sequence result.
pub open spec fn bytes_result(r: Result<Vec<u8>, E2eError>) -> Result<Seq<u8>, E2eError> {
    match r {
        Ok(v) => Ok(v@),
        Err(e) => Err(e),
    }
}

proof fn lemma_xor_twice(data: Seq<u8>, pad: Seq<u8>)
    ensures
        xor_bytes(xor_bytes(data, pad), pad) == data,
{
    assert forall|i: int| 0 <= i < data.len() implies xor_bytes(xor_bytes(data, pad), pad)[i]
        == data[i] by {
        let a = data[i];
        let b = pad[i];
        assert((a ^ b) ^ b == a) by (bit_vector);
    }
    assert(xor_bytes(xor_bytes(data, pad), pad) =~= data);
}

/// Opening what was sealed under the same key and vector gives back the
/// plaintext, whatever suffix was drawn.
pub proof fn lemma_open_sealed(key: Seq<u8>, iv: Seq<u8>, plain: Seq<u8>, sealed: Seq<u8>)
    requires
        key.len() == 16,
        iv.len() == 16,
        is_sealing_of(key, iv, plain, sealed),
    ensures
        open_frame(key, iv, sealed) == Ok::<Seq<u8>, E2eError>(plain),
{
    let suffix = choose|suffix: Seq<u8>|
        suffix.len() == 4 && sealed == #[trigger] ctr_transform(key, iv, plain + suffix);
    let framed = plain + suffix;
    lemma_xor_twice(framed, aes128_ctr64le_keystream(key, iv, framed.len()));
    assert(ctr_transform(key, iv, sealed) == framed);
    assert(framed.subrange(0, plain.len() as int) =~= plain);
}

/// The fixed initialisation vector.
pub fn aes_iv() -> (r: Vec<u8>)
    ensures
        r@ == fixed_iv(),
{
    let r = vec![
        116u8, 114u8, 97u8, 110u8, 110u8, 103u8, 111u8, 99u8,
        104u8, 117u8, 110u8, 103u8, 49u8, 57u8, 57u8, 54u8,
    ];
    assert(r@ =~= fixed_iv());
    r
}

/// Derives the 16-byte AES key of a password.
pub fn hash_aes_key(password: &str) -> (r: Vec<u8>)
    ensures
        r@ == derived_key(password.spec_bytes()),
        r@.len() == 16,
{
    let digest = sha256(password.as_bytes());
    let mut key: Vec<u8> = Vec::new();
    let mut i: usize = 0;
    while i < 16
        invariant
            i <= 16,
            digest@.len() == 32,
            key@ == digest@.subrange(0, i as int),
        decreases 16 - i,
    {
        key.push(digest[i]);
        i = i + 1;
        assert(key@ =~= digest@.subrange(0, i as int));
    }
    assert(key@ =~= derived_key(password.spec_bytes()));
    key
}

fn frame_and_apply(data: &[u8], suffix: &[u8; 4], iv: &[u8], key: &[u8]) -> (r: Vec<u8>)
    requires
        iv@.len() == 16,
        key@.len() == 16,
    ensures
        r@ == ctr_transform(key@, iv@, data@ + suffix@),
{
    let mut framed = slice_to_vec(data);
    framed.push(suffix[0]);
    framed.push(suffix[1]);
    framed.push(suffix[2]);
    framed.push(suffix[3]);
    assert(framed@ =~= data@ + suffix@);
    apply_aes128_ctr(key, iv, framed.as_slice())
}

/// Encrypts `data` with the given four-byte suffix appended.
pub fn encrypt_aes128_ctr_with_suffix(data: &[u8], suffix: &[u8; 4], iv: &[u8], key: &[u8]) -> (r:
    Result<Vec<u8>, E2eError>)
    ensures
        iv@.len() != 16 ==> r == Err::<Vec<u8>, E2eError>(E2eError::InvalidIvLength),
        iv@.len() == 16 && key@.len() != 16 ==> r == Err::<Vec<u8>, E2eError>(
            E2eError::InvalidKeyLength,
        ),
        iv@.len() == 16 && key@.len() == 16 ==> (r matches Ok(v) && v@ == ctr_transform(
            key@,
            iv@,
            data@ + suffix@,
        )),
{
    if iv.len() != 16 {
        return Err(E2eError::InvalidIvLength);
    }
    if key.len() != 16 {
        return Err(E2eError::InvalidKeyLength);
    }
    Ok(frame_and_apply(data, suffix, iv, key))
}

/// Encrypts `data` with four freshly drawn random bytes appended.
pub fn encrypt_aes128_ctr(data: &[u8], iv: &[u8], key: &[u8]) -> (r: Result<Vec<u8>, E2eError>)
    ensures
        iv@.len() != 16 ==> r == Err::<Vec<u8>, E2eError>(E2eError::InvalidIvLength),
        iv@.len() == 16 && key@.len() != 16 ==> r == Err::<Vec<u8>, E2eError>(
            E2eError::InvalidKeyLength,
        ),
        iv@.len() == 16 && key@.len() == 16 ==> (r matches Ok(v) && is_sealing_of(
            key@,
            iv@,
            data@,
            v@,
        )),
{
    if iv.len() != 16 {
        return Err(E2eError::InvalidIvLength);
    }
    if key.len() != 16 {
        return Err(E2eError::InvalidKeyLength);
    }
    let suffix = random_suffix();
    let sealed = frame_and_apply(data, &suffix, iv, key);
    assert(suffix@.len() == 4);
    Ok(sealed)
}

/// Decrypts framed ciphertext and drops its four-byte suffix.
pub fn decrypt_aes128_ctr(encrypted: &[u8], iv: &[u8], key: &[u8]) -> (r: Result<Vec<u8>, E2eError>)
    ensures
        bytes_result(r) == open_frame(key@, iv@, encrypted@),
{
    if iv.len() != 16 {
        return Err(E2eError::InvalidIvLength);
    }
    if key.len() != 16 {
        return Err(E2eError::InvalidKeyLength);
    }
    let mut plain = apply_aes128_ctr(key, iv, encrypted);
    if plain.len() < 4 {
        return Err(E2eError::TruncatedInput);
    }
    let keep = plain.len() - 4;
    plain.truncate(keep);
    assert(plain@ =~= ctr_transform(key@, iv@, encrypted@).subrange(0, encrypted@.len() - 4));
    Ok(plain)
}

/// Every entry before `upto` was readable and now holds a sealing of what it
/// held; every entry from `upto` on is unchanged.
pub open spec fn sealed_up_to(
    key: Seq<u8>,
    before: Seq<Option<Vec<u8>>>,
    after: Seq<Option<Vec<u8>>>,
    upto: int,
) -> bool {
    &&& after.len() == before.len()
    &&& 0 <= upto <= before.len()
    &&& forall|i: int|
        0 <= i < upto ==> (#[trigger] before[i] is Some && after[i] is Some && is_sealing_of(
            key,
            fixed_iv(),
            before[i]->Some_0@,
            after[i]->Some_0@,
        ))
    &&& forall|i: int| upto <= i < before.len() ==> #[trigger] after[i] == before[i]
}

/// An entry that opening can take: it was read and is long enough to hold
/// the four-byte suffix.
pub open spec fn openable(entry: Option<Vec<u8>>) -> bool {
    entry is Some && entry->Some_0@.len() >= 4
}

/// Every entry before `upto` was openable and now holds what opening it gave;
/// every entry from `upto` on is unchanged.
pub open spec fn opened_up_to(
    key: Seq<u8>,
    before: Seq<Option<Vec<u8>>>,
    after: Seq<Option<Vec<u8>>>,
    upto: int,
) -> bool {
    &&& after.len() == before.len()
    &&& 0 <= upto <= before.len()
    &&& forall|i: int|
        0 <= i < upto ==> (openable(#[trigger] before[i]) && after[i] is Some && open_frame(
            key,
            fixed_iv(),
            before[i]->Some_0@,
        ) == Ok::<Seq<u8>, E2eError>(after[i]->Some_0@))
    &&& forall|i: int| upto <= i < before.len() ==> #[trigger] after[i] == before[i]
}

/// Encrypts the contents of one file under a password; the caller writes the
/// result back in place of the contents.
pub fn encrypt_file(contents: &[u8], password: &str) -> (r: Vec<u8>)
    ensures
        is_sealing_of(derived_key(password.spec_bytes()), fixed_iv(), contents@, r@),
{
    let key = hash_aes_key(password);
    let iv = aes_iv();
    let suffix = random_suffix();
    let sealed = frame_and_apply(contents, &suffix, iv.as_slice(), key.as_slice());
    assert(suffix@.len() == 4);
    sealed
}

/// Decrypts the contents of one file under a password and returns the
/// plaintext; nothing is written back.
pub fn decrypt_file(contents: &[u8], password: &str) -> (r: Result<Vec<u8>, E2eError>)
    ensures
        bytes_result(r) == open_frame(derived_key(password.spec_bytes()), fixed_iv(), contents@),
{
    let key = hash_aes_key(password);
    let iv = aes_iv();
    decrypt_aes128_ctr(contents, iv.as_slice(), key.as_slice())
}

/// Encrypts, in order, the files of a folder as the caller read them (`None`
/// for a file that could not be read). Each entry is replaced by its
/// ciphertext. The pass stops at the first unreadable entry: the entries
/// before it stay encrypted, it and the ones after it are left untouched, and
/// the error says where it stopped.
pub fn encrypt_folder(files: &mut Vec<Option<Vec<u8>>>, password: &str) -> (r: Result<
    (),
    FolderError,
>)
    ensures
        r is Ok ==> sealed_up_to(
            derived_key(password.spec_bytes()),
            old(files)@,
            final(files)@,
            old(files)@.len() as int,
        ),
        r matches Err(e) ==> {
            &&& e.error == E2eError::IoError
            &&& e.processed < old(files)@.len()
            &&& old(files)@[e.processed as int] is None
            &&& sealed_up_to(
                derived_key(password.spec_bytes()),
                old(files)@,
                final(files)@,
                e.processed as int,
            )
        },
{
    let key = hash_aes_key(password);
    let iv = aes_iv();
    let ghost before = files@;
    let mut i: usize = 0;
    while i < files.len()
        invariant
            before == old(files)@,
            key@ == derived_key(password.spec_bytes()),
            key@.len() == 16,
            iv@ == fixed_iv(),
            sealed_up_to(key@, before, files@, i as int),
        decreases files@.len() - i,
    {
        let sealed = match &files[i] {
            Some(contents) => {
                let suffix = random_suffix();
                let sealed = frame_and_apply(contents.as_slice(), &suffix, iv.as_slice(), key.as_slice());
                assert(suffix@.len() == 4);
                assert(is_sealing_of(key@, iv@, contents@, sealed@));
                sealed
            },
            None => {
                return Err(FolderError { processed: i, error: E2eError::IoError });
            },
        };
        files[i] = Some(sealed);
        i = i + 1;
    }
    Ok(())
}

/// Decrypts, in order, the files of a folder as the caller read them (`None`
/// for a file that could not be read). Each entry is replaced by its
/// plaintext. The pass stops at the first entry that is unreadable or too
/// short to hold the suffix: the entries before it stay decrypted, it and the
/// ones after it are left untouched, and the error says where and why.
pub fn decrypt_folder(files: &mut Vec<Option<Vec<u8>>>, password: &str) -> (r: Result<
    (),
    FolderError,
>)
    ensures
        r is Ok ==> opened_up_to(
            derived_key(password.spec_bytes()),
            old(files)@,
            final(files)@,
            old(files)@.len() as int,
        ),
        r matches Err(e) ==> {
            &&& e.processed < old(files)@.len()
            &&& !openable(old(files)@[e.processed as int])
            &&& e.error == if old(files)@[e.processed as int] is None {
                E2eError::IoError
            } else {
                E2eError::TruncatedInput
            }
            &&& opened_up_to(
                derived_key(password.spec_bytes()),
                old(files)@,
                final(files)@,
                e.processed as int,
            )
        },
{
    let key = hash_aes_key(password);
    let iv = aes_iv();
    let ghost before = files@;
    let mut i: usize = 0;
    while i < files.len()
        invariant
            before == old(files)@,
            key@ == derived_key(password.spec_bytes()),
            key@.len() == 16,
            iv@ == fixed_iv(),
            opened_up_to(key@, before, files@, i as int),
        decreases files@.len() - i,
    {
        let opened = match &files[i] {
            Some(contents) => decrypt_aes128_ctr(contents.as_slice(), iv.as_slice(), key.as_slice()),
            None => {
                return Err(FolderError { processed: i, error: E2eError::IoError });
            },
        };
        match opened {
            Ok(plain) => {
                files[i] = Some(plain);
            },
            Err(e) => {
                return Err(FolderError { processed: i, error: e });
            },
        }
        i = i + 1;
    }
    Ok(())
}

/// A file that a folder pass encrypted under a password decrypts, under the
/// same password, to the contents it had before the pass.
pub proof fn lemma_folder_round_trip(
    password: Seq<u8>,
    before: Seq<Option<Vec<u8>>>,
    after: Seq<Option<Vec<u8>>>,
    upto: int,
    i: int,
)
    requires
        sealed_up_to(derived_key(password), before, after, upto),
        0 <= i < upto,
    ensures
        open_frame(derived_key(password), fixed_iv(), after[i]->Some_0@) == Ok::<
            Seq<u8>,
            E2eError,
        >(before[i]->Some_0@),
{
    assert(before[i] is Some);
    lemma_open_sealed(derived_key(password), fixed_iv(), before[i]->Some_0@, after[i]->Some_0@);
}

/// Decrypting a folder that was encrypted under the same password restores
/// every encrypted file, and the decryption pass gets through all of them.
pub proof fn lemma_folder_restored(
    password: Seq<u8>,
    original: Seq<Option<Vec<u8>>>,
    encrypted: Seq<Option<Vec<u8>>>,
    upto: int,
)
    requires
        sealed_up_to(derived_key(password), original, encrypted, upto),
    ensures
        forall|i: int| 0 <= i < upto ==> openable(#[trigger] encrypted[i]),
        forall|i: int|
            0 <= i < upto ==> open_frame(derived_key(password), fixed_iv(), #[trigger] encrypted[i]->Some_0@)
                == Ok::<Seq<u8>, E2eError>(original[i]->Some_0@),
        forall|restored: Seq<Option<Vec<u8>>>, i: int|
            opened_up_to(derived_key(password), encrypted, restored, upto) && 0 <= i < upto
                ==> #[trigger] restored[i] is Some && restored[i]->Some_0@ == original[i]->Some_0@,
{
    assert forall|i: int| 0 <= i < upto implies openable(#[trigger] encrypted[i])
        && open_frame(derived_key(password), fixed_iv(), encrypted[i]->Some_0@) == Ok::<
            Seq<u8>,
            E2eError,
        >(original[i]->Some_0@) by {
        lemma_folder_round_trip(password, original, encrypted, upto, i);
    }
}

} // verus!

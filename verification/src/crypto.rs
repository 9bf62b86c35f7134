//! The stream obfuscation that wraps every payload on the wire.
//!
//! Each ciphertext byte is the XOR of the plaintext byte with the previous
//! ciphertext byte; the first byte is chained to a fixed initial key. The
//! transform is its own inverse up to the direction of the chaining, and it
//! provides no confidentiality.

use vstd::prelude::*;

verus! {

/// The key that the chain starts from.
pub const INITIAL_KEY: u8 = 0xAB;

/// Number of bytes in the length header of a framed message.
pub const HEADER_LEN: usize = 4;

/// The byte that position `i` of a ciphertext is chained to: the initial
/// key for the first position, the preceding ciphertext byte otherwise.
pub open spec fn chained_key(cipher: Seq<u8>, i: int) -> u8 {
    if i <= 0 {
        INITIAL_KEY
    } else {
        cipher[i - 1]
    }
}

/// The running key after the first `n` plaintext bytes were absorbed:
/// the initial key XOR-ed with each of them in turn.
pub open spec fn running_key(plain: Seq<u8>, n: int) -> u8
    decreases n,
{
    if n <= 0 {
        INITIAL_KEY
    } else {
        running_key(plain, n - 1) ^ plain[n - 1]
    }
}

/// The ciphertext of `plain`: byte `i` is the running key after `i + 1` bytes.
pub open spec fn encrypted(plain: Seq<u8>) -> Seq<u8> {
    Seq::new(plain.len(), |i: int| running_key(plain, i + 1))
}

/// The plaintext of `cipher`: byte `i` is the ciphertext byte XOR-ed with
/// the byte it was chained to.
pub open spec fn decrypted(cipher: Seq<u8>) -> Seq<u8> {
    Seq::new(cipher.len(), |i: int| cipher[i] ^ chained_key(cipher, i))
}

/// The four header bytes for a plaintext of `len` bytes: `len` modulo 2^32,
/// most significant byte first.
pub open spec fn length_header(len: nat) -> Seq<u8> {
    let n = len % 0x1_0000_0000;
    seq![
        (n / 0x100_0000) as u8,
        ((n / 0x1_0000) % 0x100) as u8,
        ((n / 0x100) % 0x100) as u8,
        (n % 0x100) as u8,
    ]
}

/// A framed message: the length header of the plaintext, then its ciphertext.
pub open spec fn framed(plain: Seq<u8>) -> Seq<u8> {
    length_header(plain.len()) + encrypted(plain)
}

/// What is left of a framed message once the header is skipped. A message
/// shorter than the header has nothing left.
pub open spec fn frame_body(message: Seq<u8>) -> Seq<u8> {
    if message.len() <= HEADER_LEN {
        Seq::empty()
    } else {
        message.skip(HEADER_LEN as int)
    }
}

/// The plaintext of a framed message. The header is skipped, not checked.
pub open spec fn unframed(message: Seq<u8>) -> Seq<u8> {
    decrypted(frame_body(message))
}

proof fn lemma_xor_cancels(a: u8, b: u8)
    ensures
        (a ^ b) ^ a == b,
        (b ^ a) ^ a == b,
        a ^ (a ^ b) == b,
        a ^ (b ^ a) == b,
{
    assert(a ^ (b ^ a) == b) by (bit_vector);
    assert((a ^ b) ^ a == b) by (bit_vector);
    assert((b ^ a) ^ a == b) by (bit_vector);
    assert(a ^ (a ^ b) == b) by (bit_vector);
}

/// Decrypting undoes encrypting, for every byte sequence.
pub proof fn lemma_decrypt_encrypt(plain: Seq<u8>)
    ensures
        decrypted(encrypted(plain)) == plain,
{
    let cipher = encrypted(plain);
    assert forall|i: int| 0 <= i < plain.len() implies decrypted(cipher)[i] == plain[i] by {
        // cipher[i] = key_i ^ plain[i], and it is chained to key_i.
        assert(chained_key(cipher, i) == running_key(plain, i));
        lemma_xor_cancels(running_key(plain, i), plain[i]);
    }
    assert(decrypted(cipher) =~= plain);
}

/// The running key of a decrypted text is the ciphertext byte just absorbed.
proof fn lemma_running_key_of_decrypted(cipher: Seq<u8>, n: int)
    requires
        0 <= n <= cipher.len(),
    ensures
        running_key(decrypted(cipher), n) == chained_key(cipher, n),
    decreases n,
{
    if n > 0 {
        lemma_running_key_of_decrypted(cipher, n - 1);
        lemma_xor_cancels(chained_key(cipher, n - 1), cipher[n - 1]);
    }
}

/// Encrypting undoes decrypting, for every byte sequence.
pub proof fn lemma_encrypt_decrypt(cipher: Seq<u8>)
    ensures
        encrypted(decrypted(cipher)) == cipher,
{
    let plain = decrypted(cipher);
    assert forall|i: int| 0 <= i < cipher.len() implies encrypted(plain)[i] == cipher[i] by {
        lemma_running_key_of_decrypted(cipher, i + 1);
    }
    assert(encrypted(plain) =~= cipher);
}

/// Unframing undoes framing, for every byte sequence.
pub proof fn lemma_unframe_frame(plain: Seq<u8>)
    ensures
        unframed(framed(plain)) == plain,
{
    let message = framed(plain);
    assert(length_header(plain.len()).len() == HEADER_LEN);
    if plain.len() == 0 {
        assert(frame_body(message) =~= Seq::<u8>::empty());
        assert(decrypted(Seq::<u8>::empty()) =~= plain);
    } else {
        assert(frame_body(message) =~= encrypted(plain));
        lemma_decrypt_encrypt(plain);
    }
}

/// Encrypts `bytes`: each output byte is the input byte XOR-ed with the
/// previous output byte, starting from the initial key.
pub fn encrypt(bytes: &[u8]) -> (cipher: Vec<u8>)
    ensures
        cipher@ == encrypted(bytes@),
{
    let mut key: u8 = INITIAL_KEY;
    let mut cipher: Vec<u8> = Vec::with_capacity(bytes.len());
    let mut i: usize = 0;
    while i < bytes.len()
        invariant
            i <= bytes.len(),
            cipher.len() == i,
            key == running_key(bytes@, i as int),
            forall|j: int| 0 <= j < i ==> cipher[j] == running_key(bytes@, j + 1),
        decreases bytes.len() - i,
    {
        key = key ^ bytes[i];
        cipher.push(key);
        i += 1;
    }
    assert(cipher@ =~= encrypted(bytes@));
    cipher
}

/// Decrypts `bytes`: each output byte is the input byte XOR-ed with the
/// previous input byte, starting from the initial key.
pub fn decrypt(bytes: &[u8]) -> (plain: Vec<u8>)
    ensures
        plain@ == decrypted(bytes@),
{
    let mut key: u8 = INITIAL_KEY;
    let mut plain: Vec<u8> = Vec::with_capacity(bytes.len());
    let mut i: usize = 0;
    while i < bytes.len()
        invariant
            i <= bytes.len(),
            plain.len() == i,
            key == chained_key(bytes@, i as int),
            forall|j: int| 0 <= j < i ==> plain[j] == bytes[j] ^ chained_key(bytes@, j),
        decreases bytes.len() - i,
    {
        let byte = bytes[i];
        plain.push(byte ^ key);
        key = byte;
        i += 1;
    }
    assert(plain@ =~= decrypted(bytes@));
    plain
}

/// The length header for a plaintext of `len` bytes.
fn header_bytes(len: usize) -> (header: Vec<u8>)
    ensures
        header@ == length_header(len as nat),
{
    let n: u64 = (len as u64) % 0x1_0000_0000;
    let mut header: Vec<u8> = Vec::with_capacity(HEADER_LEN);
    header.push((n / 0x100_0000) as u8);
    header.push(((n / 0x1_0000) % 0x100) as u8);
    header.push(((n / 0x100) % 0x100) as u8);
    header.push((n % 0x100) as u8);
    assert(header@ =~= length_header(len as nat));
    header
}

/// Encrypts `bytes` and puts the four-byte big-endian length of `bytes` in
/// front of the ciphertext.
pub fn encrypt_with_header(bytes: &[u8]) -> (message: Vec<u8>)
    ensures
        message@ == framed(bytes@),
{
    let mut message = header_bytes(bytes.len());
    let mut cipher = encrypt(bytes);
    message.append(&mut cipher);
    message
}

/// Skips the four header bytes of `bytes` and decrypts the rest. The header
/// is not held against the length of what follows it.
pub fn decrypt_with_header(bytes: &[u8]) -> (plain: Vec<u8>)
    ensures
        plain@ == unframed(bytes@),
{
    let mut body: Vec<u8> = Vec::new();
    let mut i: usize = HEADER_LEN;
    while i < bytes.len()
        invariant
            HEADER_LEN <= i,
            i <= bytes.len() || bytes.len() < HEADER_LEN,
            body.len() == if i <= bytes.len() { i - HEADER_LEN } else { 0 },
            forall|j: int| 0 <= j < body.len() ==> body[j] == bytes[j + HEADER_LEN],
        decreases bytes.len() - i,
    {
        body.push(bytes[i]);
        i += 1;
    }
    assert(body@ =~= frame_body(bytes@));
    decrypt(body.as_slice())
}

} // verus!

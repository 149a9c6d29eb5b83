use vstd::arithmetic::div_mod::lemma_mod_add_multiples_vanish;
use vstd::prelude::*;

verus! {

/// Which way the key is applied to the payload.
#[derive(Clone, Copy, Debug, PartialEq, Eq, Structural)]
pub enum Mode {
    /// Add each key byte, modulo 256.
    Encrypt,
    /// Subtract each key byte, modulo 256.
    Decrypt,
}

/// The byte that `mode` makes of payload byte `p` under key byte `k`.
pub open spec fn combine_spec(mode: Mode, p: u8, k: u8) -> u8 {
    match mode {
        Mode::Encrypt => ((p as int + k as int) % 256) as u8,
        Mode::Decrypt => ((p as int - k as int) % 256) as u8,
    }
}

/// Combines one payload byte with one key byte.
pub fn combine(mode: Mode, p: u8, k: u8) -> (r: u8)
    ensures
        r == combine_spec(mode, p, k),
{
    match mode {
        Mode::Encrypt => p.wrapping_add(k),
        Mode::Decrypt => p.wrapping_sub(k),
    }
}

/// Why a transformation could not be carried out.
#[derive(Clone, Debug, PartialEq, Eq)]
pub enum CryptError {
    /// The key holds no byte, so no key byte exists for any payload position.
    EmptyKey,
    /// Opening, reading or writing the file at `path` failed with `message`.
    Io { path: String, message: String },
}

/// The key byte applied at payload position `i`: the key repeats end to end.
pub open spec fn key_at(key: Seq<u8>, i: int) -> u8
    recommends
        key.len() > 0,
        0 <= i,
{
    key[i % (key.len() as int)]
}

/// The output for `payload` under `key`: position `i` combines `payload[i]`
/// with `key_at(key, i)`.
pub open spec fn transform_spec(mode: Mode, payload: Seq<u8>, key: Seq<u8>) -> Seq<u8> {
    Seq::new(payload.len(), |i: int| combine_spec(mode, payload[i], key_at(key, i)))
}

/// Applies `key`, repeated as often as needed, to every byte of `payload`.
/// An empty key is refused; any payload, the empty one included, is accepted.
pub fn transform(mode: Mode, payload: &[u8], key: &[u8]) -> (r: Result<Vec<u8>, CryptError>)
    ensures
        r is Err <==> key@.len() == 0,
        r matches Err(e) ==> e == CryptError::EmptyKey,
        r matches Ok(out) ==> out@ == transform_spec(mode, payload@, key@),
        r matches Ok(out) ==> out@.len() == payload@.len(),
{
    let klen = key.len();
    if klen == 0 {
        return Err(CryptError::EmptyKey);
    }
    let mut out: Vec<u8> = Vec::with_capacity(payload.len());
    let mut i: usize = 0;
    while i < payload.len()
        invariant
            klen == key@.len(),
            klen > 0,
            i <= payload@.len(),
            out@.len() == i,
            forall|j: int|
                0 <= j < i ==> #[trigger] out@[j] == combine_spec(mode, payload@[j], key_at(key@, j)),
        decreases payload.len() - i,
    {
        let b = combine(mode, payload[i], key[i % klen]);
        out.push(b);
        i = i + 1;
    }
    assert(out@ =~= transform_spec(mode, payload@, key@));
    Ok(out)
}

/// Decrypting undoes encrypting, byte by byte.
pub proof fn lemma_combine_inverse(p: u8, k: u8)
    ensures
        combine_spec(Mode::Decrypt, combine_spec(Mode::Encrypt, p, k), k) == p,
        combine_spec(Mode::Encrypt, combine_spec(Mode::Decrypt, p, k), k) == p,
{
}

/// Round trip: decrypting with a non-empty key what was encrypted with the
/// same key gives back the payload exactly.
pub proof fn lemma_round_trip(payload: Seq<u8>, key: Seq<u8>)
    requires
        key.len() > 0,
    ensures
        transform_spec(Mode::Decrypt, transform_spec(Mode::Encrypt, payload, key), key) == payload,
{
    let enc = transform_spec(Mode::Encrypt, payload, key);
    let dec = transform_spec(Mode::Decrypt, enc, key);
    assert forall|i: int| 0 <= i < payload.len() implies dec[i] == payload[i] by {
        lemma_combine_inverse(payload[i], key_at(key, i));
    }
    assert(dec =~= payload);
}

/// The output is exactly as long as the payload, in either mode.
pub proof fn lemma_length_preserved(mode: Mode, payload: Seq<u8>, key: Seq<u8>)
    ensures
        transform_spec(mode, payload, key).len() == payload.len(),
{
}

/// An empty payload gives an empty output, whatever the key and mode.
pub proof fn lemma_empty_payload(mode: Mode, key: Seq<u8>)
    ensures
        transform_spec(mode, Seq::<u8>::empty(), key) == Seq::<u8>::empty(),
{
    assert(transform_spec(mode, Seq::<u8>::empty(), key) =~= Seq::<u8>::empty());
}

/// For a key of length `L`, the key byte applied at position `i` is the one
/// applied at position `i + L`.
pub proof fn lemma_key_cycle(key: Seq<u8>, i: int)
    requires
        key.len() > 0,
        0 <= i,
    ensures
        key_at(key, i) == key_at(key, i + key.len()),
{
    lemma_mod_add_multiples_vanish(i, key.len() as int);
    assert(key.len() + i == i + key.len());
}

} // verus!

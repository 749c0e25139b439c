//! Fixed-capacity text buffers, as the radio driver's configuration wants them.
//!
//! The buffers are `heapless::String`s. Their behaviour is not proved here: the
//! few calls this library makes are given contracts that restate what the
//! `heapless` source does, over the text a buffer holds.

use vstd::prelude::*;

verus! {

/// Makes `heapless::String` known to the verifier as an opaque type.
#[verifier::external_type_specification]
#[verifier::external_body]
pub struct ExBoundedString<const N: usize>(heapless::String<N>);

/// Bytes that the driver reserves for a network name.
pub const SSID_CAPACITY: usize = 32;

/// Bytes that the driver reserves for a passphrase.
pub const PASSPHRASE_CAPACITY: usize = 64;

/// The characters held by a network-name buffer, in order.
pub uninterp spec fn ssid_text(b: heapless::String<32>) -> Seq<char>;

/// The characters held by a passphrase buffer, in order.
pub uninterp spec fn passphrase_text(b: heapless::String<64>) -> Seq<char>;

/// Number of bytes that the UTF-8 encoding of `c` takes.
pub open spec fn utf8_width(c: char) -> nat {
    let v = c as u32;
    if v < 0x80 {
        1
    } else if v < 0x800 {
        2
    } else if v < 0x1_0000 {
        3
    } else {
        4
    }
}

/// Number of bytes that the UTF-8 encoding of `s` takes.
pub open spec fn encoded_len(s: Seq<char>) -> nat
    decreases s.len(),
{
    if s.len() == 0 {
        0
    } else {
        encoded_len(s.drop_last()) + utf8_width(s.last())
    }
}

/// `heapless::String::<32>::new`: a fresh buffer holds no text.
#[verifier::external_body]
fn empty_ssid() -> (b: heapless::String<32>)
    ensures
        ssid_text(b) == Seq::<char>::empty(),
{
    heapless::String::new()
}

/// `heapless::String::<32>::push`: the character is appended when its encoding
/// fits in the bytes that are left, and the buffer is untouched when it does
/// not.
#[verifier::external_body]
fn push_ssid(b: &mut heapless::String<32>, c: char) -> (r: Result<(), ()>)
    ensures
        r is Ok <==> encoded_len(ssid_text(*old(b))) + utf8_width(c) <= 32,
        r is Ok ==> ssid_text(*final(b)) == ssid_text(*old(b)).push(c),
        r is Err ==> ssid_text(*final(b)) == ssid_text(*old(b)),
{
    b.push(c)
}

/// `heapless::String::<64>::new`: a fresh buffer holds no text.
#[verifier::external_body]
fn empty_passphrase() -> (b: heapless::String<64>)
    ensures
        passphrase_text(b) == Seq::<char>::empty(),
{
    heapless::String::new()
}

/// `heapless::String::<64>::push`: the character is appended when its encoding
/// fits in the bytes that are left, and the buffer is untouched when it does
/// not.
#[verifier::external_body]
fn push_passphrase(b: &mut heapless::String<64>, c: char) -> (r: Result<(), ()>)
    ensures
        r is Ok <==> encoded_len(passphrase_text(*old(b))) + utf8_width(c) <= 64,
        r is Ok ==> passphrase_text(*final(b)) == passphrase_text(*old(b)).push(c),
        r is Err ==> passphrase_text(*final(b)) == passphrase_text(*old(b)),
{
    b.push(c)
}

/// Whether `s` fits in a buffer of `capacity` bytes.
pub open spec fn fits(s: Seq<char>, capacity: nat) -> bool {
    encoded_len(s) <= capacity
}

/// Appending a character adds its width to the encoded length.
pub proof fn lemma_encoded_len_push(s: Seq<char>, c: char)
    ensures
        encoded_len(s.push(c)) == encoded_len(s) + utf8_width(c),
{
    assert(s.push(c).drop_last() =~= s);
}

/// A prefix never takes more bytes than the whole text.
pub proof fn lemma_encoded_len_prefix(s: Seq<char>, k: int)
    requires
        0 <= k <= s.len(),
    ensures
        encoded_len(s.take(k)) <= encoded_len(s),
    decreases s.len(),
{
    if k < s.len() {
        assert(s.drop_last().take(k) =~= s.take(k));
        lemma_encoded_len_prefix(s.drop_last(), k);
    } else {
        assert(s.take(k) =~= s);
    }
}

/// The encoded length of two texts joined is the sum of their encoded lengths.
pub proof fn lemma_encoded_len_concat(a: Seq<char>, b: Seq<char>)
    ensures
        encoded_len(a + b) == encoded_len(a) + encoded_len(b),
    decreases b.len(),
{
    if b.len() == 0 {
        assert(a + b =~= a);
    } else {
        assert((a + b).drop_last() =~= a + b.drop_last());
        lemma_encoded_len_concat(a, b.drop_last());
    }
}

/// [`encoded_len`] is the number of bytes of the UTF-8 encoding, which is what
/// `str::len` returns.
pub proof fn lemma_encoded_len_is_byte_length(s: Seq<char>)
    ensures
        encoded_len(s) == vstd::utf8::encode_utf8(s).len(),
    decreases s.len(),
{
    if s.len() > 0 {
        let c = s[0];
        let head = Seq::<char>::empty().push(c);
        assert(head + s.drop_first() =~= s);
        lemma_encoded_len_push(Seq::<char>::empty(), c);
        lemma_encoded_len_concat(head, s.drop_first());
        lemma_encoded_len_is_byte_length(s.drop_first());
        vstd::utf8::char_is_scalar(c);
    }
}

/// Copies a network name into a driver buffer, character by character.
///
/// The copy succeeds exactly when the name's UTF-8 encoding fits in
/// [`SSID_CAPACITY`] bytes, and the buffer then holds the name unchanged.
pub fn ssid_buffer(name: &str) -> (r: Option<heapless::String<32>>)
    ensures
        r is Some <==> fits(name@, SSID_CAPACITY as nat),
        r is Some <==> vstd::utf8::encode_utf8(name@).len() <= SSID_CAPACITY,
        r matches Some(b) ==> ssid_text(b) == name@,
{
    proof {
        lemma_encoded_len_is_byte_length(name@);
    }
    let mut buf = empty_ssid();
    let n: usize = name.unicode_len();
    let mut i: usize = 0;
    while i < n
        invariant
            n == name@.len(),
            i <= n,
            encoded_len(name@) == vstd::utf8::encode_utf8(name@).len(),
            ssid_text(buf) == name@.take(i as int),
            encoded_len(name@.take(i as int)) <= 32,
        decreases n - i,
    {
        let c = name.get_char(i);
        proof {
            assert(name@.take(i as int).push(c) =~= name@.take(i + 1));
            lemma_encoded_len_push(name@.take(i as int), c);
            lemma_encoded_len_prefix(name@, i + 1);
        }
        if push_ssid(&mut buf, c).is_err() {
            return None;
        }
        i += 1;
    }
    proof {
        assert(name@.take(n as int) =~= name@);
    }
    Some(buf)
}

/// Copies a passphrase into a driver buffer, character by character.
///
/// The copy succeeds exactly when the passphrase's UTF-8 encoding fits in
/// [`PASSPHRASE_CAPACITY`] bytes, and the buffer then holds it unchanged.
pub fn passphrase_buffer(passphrase: &str) -> (r: Option<heapless::String<64>>)
    ensures
        r is Some <==> fits(passphrase@, PASSPHRASE_CAPACITY as nat),
        r is Some <==> vstd::utf8::encode_utf8(passphrase@).len() <= PASSPHRASE_CAPACITY,
        r matches Some(b) ==> passphrase_text(b) == passphrase@,
{
    proof {
        lemma_encoded_len_is_byte_length(passphrase@);
    }
    let mut buf = empty_passphrase();
    let n: usize = passphrase.unicode_len();
    let mut i: usize = 0;
    while i < n
        invariant
            n == passphrase@.len(),
            i <= n,
            encoded_len(passphrase@) == vstd::utf8::encode_utf8(passphrase@).len(),
            passphrase_text(buf) == passphrase@.take(i as int),
            encoded_len(passphrase@.take(i as int)) <= 64,
        decreases n - i,
    {
        let c = passphrase.get_char(i);
        proof {
            assert(passphrase@.take(i as int).push(c) =~= passphrase@.take(i + 1));
            lemma_encoded_len_push(passphrase@.take(i as int), c);
            lemma_encoded_len_prefix(passphrase@, i + 1);
        }
        if push_passphrase(&mut buf, c).is_err() {
            return None;
        }
        i += 1;
    }
    proof {
        assert(passphrase@.take(n as int) =~= passphrase@);
    }
    Some(buf)
}

} // verus!

//! How the value of a new token is derived.

use crate::text::push_char;
use rand::rngs::OsRng;
use rand::RngCore;
use sha2::{Digest, Sha256};
use vstd::prelude::*;
use vstd::string::*;

verus! {

/// The SHA-256 digest of a message.
pub uninterp spec fn sha256_digest(message: Seq<u8>) -> Seq<u8>;

/// Hashes a message with `Sha256::digest` of the crate sha2. The result is the
/// SHA-256 digest of the message, which is 32 bytes long.
#[verifier::external_body]
fn sha256(message: &Vec<u8>) -> (out: Vec<u8>)
    ensures
        out@ == sha256_digest(message@),
        out@.len() == 32,
{
    Sha256::digest(message.as_slice()).to_vec()
}

/// Draws `count` bytes from the operating system's random source with
/// `OsRng::fill_bytes` of the crate rand, which fills the whole buffer it is
/// given. Nothing is known of the bytes but their number. Where the system
/// cannot supply them the call aborts the program, as `fill_bytes` does.
#[verifier::external_body]
pub(crate) fn random_block(count: usize) -> (out: Vec<u8>)
    ensures
        out@.len() == count,
{
    let mut block = vec![0u8; count];
    OsRng.fill_bytes(&mut block);
    block
}

/// Sixteen fresh random bytes, as the hashing of a password takes for its salt.
pub fn fresh_salt() -> (salt: Vec<u8>)
    ensures
        salt@.len() == 16,
{
    random_block(16)
}

/// The hexadecimal digit for a number below sixteen, in lower case.
pub open spec fn hex_digit(n: int) -> char {
    if n < 10 {
        (n + 48) as char
    } else {
        (n + 87) as char
    }
}

/// The lower-case hexadecimal form of a run of bytes, two digits for each.
pub open spec fn hex_text(bytes: Seq<u8>) -> Seq<char> {
    Seq::new(
        2 * bytes.len(),
        |i: int|
            if i % 2 == 0 {
                hex_digit(bytes[i / 2] as int / 16)
            } else {
                hex_digit(bytes[i / 2] as int % 16)
            },
    )
}

/// The `width` low bytes of `x`, most significant first.
pub open spec fn be_bytes_of(x: nat, width: nat) -> Seq<u8>
    decreases width,
{
    if width == 0 {
        Seq::empty()
    } else {
        be_bytes_of(x / 256, (width - 1) as nat).push((x % 256) as u8)
    }
}

/// The eight bytes of a signed number of 64 bits in two's complement, most
/// significant first.
pub open spec fn be_bytes(v: i64) -> Seq<u8> {
    if v >= 0 {
        be_bytes_of(v as nat, 8)
    } else {
        be_bytes_of((v + 0x1_0000_0000_0000_0000) as nat, 8)
    }
}

/// The message that is hashed into a token: the secret's bytes, the random
/// bytes, then the time of issue.
pub open spec fn token_message(secret: Seq<u8>, random: Seq<u8>, now: i64) -> Seq<u8> {
    secret + random + be_bytes(now)
}

/// The token that a secret, a random block and a time of issue give.
pub open spec fn token_text(secret: Seq<u8>, random: Seq<u8>, now: i64) -> Seq<char> {
    hex_text(sha256_digest(token_message(secret, random, now)))
}

fn hex_char(n: u8) -> (c: char)
    requires
        n < 16,
    ensures
        c == hex_digit(n as int),
{
    if n < 10 {
        (n + 48) as char
    } else {
        (n + 87) as char
    }
}

/// Writes bytes in lower-case hexadecimal.
pub fn hex_encode(bytes: &Vec<u8>) -> (out: String)
    ensures
        out@ == hex_text(bytes@),
{
    let mut out = String::new();
    let mut i: usize = 0;
    while i < bytes.len()
        invariant
            i <= bytes.len(),
            out@ == hex_text(bytes@.take(i as int)),
        decreases bytes.len() - i,
    {
        let b: u8 = bytes[i];
        push_char(&mut out, hex_char(b / 16));
        push_char(&mut out, hex_char(b % 16));
        assert(out@ =~= hex_text(bytes@.take(i as int + 1)));
        i = i + 1;
    }
    assert(bytes@.take(bytes@.len() as int) == bytes@);
    out
}

/// Appends the eight bytes of `v`, most significant first.
pub fn push_be_bytes(out: &mut Vec<u8>, v: i64)
    ensures
        final(out)@ == old(out)@ + be_bytes(v),
{
    let x: u64 = if v >= 0 {
        v as u64
    } else {
        (v as i128 + 0x1_0000_0000_0000_0000) as u64
    };
    let mut low: Vec<u8> = Vec::new();
    let mut rest: u64 = x;
    let mut k: usize = 0;
    while k < 8
        invariant
            k <= 8,
            low@.len() == k,
            be_bytes_of(x as nat, 8) == be_bytes_of(rest as nat, (8 - k) as nat) + low@.reverse(),
        decreases 8 - k,
    {
        let b: u8 = (rest % 256) as u8;
        proof {
            let before = low@;
            assert(before.push(b).reverse() =~= seq![b] + before.reverse());
            assert(be_bytes_of((rest / 256) as nat, (8 - k - 1) as nat).push(b) + before.reverse()
                =~= be_bytes_of((rest / 256) as nat, (8 - k - 1) as nat) + (seq![b]
                + before.reverse()));
        }
        low.push(b);
        rest = rest / 256;
        k = k + 1;
    }
    let mut j: usize = 8;
    while j > 0
        invariant
            j <= 8,
            low@.len() == 8,
            out@ == old(out)@ + low@.reverse().take(8 - j),
        decreases j,
    {
        j = j - 1;
        out.push(low[j]);
        proof {
            let r = low@.reverse();
            assert(r[7 - j] == low@[j as int]);
            assert(r.take(8 - j) =~= r.take(7 - j).push(r[7 - j]));
        }
    }
    proof {
        assert(low@.reverse().take(8) =~= low@.reverse());
        assert(be_bytes_of(rest as nat, 0) + low@.reverse() =~= low@.reverse());
    }
}

/// Derives a token from a secret, a block of random bytes and the time of
/// issue: the SHA-256 digest of the three in a row, in hexadecimal.
pub fn token_value(secret: &str, random: &Vec<u8>, now: i64) -> (token: String)
    ensures
        token@ == token_text(secret.spec_bytes(), random@, now),
        token@.len() == 64,
{
    let mut message = secret.as_bytes_vec();
    let mut i: usize = 0;
    while i < random.len()
        invariant
            i <= random.len(),
            message@ == secret.spec_bytes() + random@.take(i as int),
        decreases random.len() - i,
    {
        message.push(random[i]);
        assert(random@.take(i as int + 1) =~= random@.take(i as int).push(random@[i as int]));
        assert(message@ =~= secret.spec_bytes() + random@.take(i as int + 1));
        i = i + 1;
    }
    assert(random@.take(random@.len() as int) == random@);
    push_be_bytes(&mut message, now);
    let digest = sha256(&message);
    hex_encode(&digest)
}

/// A new token for the given secret and time of issue, over 32 bytes drawn
/// from the system's random source.
pub fn generate_token_value(secret: &str, now: i64) -> (token: String)
    ensures
        token@.len() == 64,
        exists|random: Seq<u8>|
            random.len() == 32 && token@ == #[trigger] token_text(
                secret.spec_bytes(),
                random,
                now,
            ),
{
    let random = random_block(32);
    token_value(secret, &random, now)
}

} // verus!

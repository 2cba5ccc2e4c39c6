//! Passwords, session tokens and the `Authorization` header.
//!
//! Passwords are stored as the lower-case hexadecimal rendering of the
//! 64-bit `DefaultHasher` digest of a fixed salt followed by the password.
//! Session tokens are two hexadecimal numbers read off the wall clock.
use std::collections::hash_map::DefaultHasher;
use std::hash::Hash;
use std::hash::Hasher;
use std::time::Duration;
use std::time::SystemTime;
use std::time::UNIX_EPOCH;
use vstd::prelude::*;
use vstd::std_specs::hash::DefaultHasherAdditionalSpecFns;
use crate::text::{hex_digits, strip_prefix, strip_prefix_spec, text_eq, to_hex};

verus! {

#[verifier::external_type_specification]
#[verifier::external_body]
pub struct ExSystemTime(std::time::SystemTime);

/// The writes, each a run of bytes, that hashing a text feeds into a hasher.
pub uninterp spec fn str_hash_writes(s: Seq<char>) -> Seq<Seq<u8>>;

/// Trusted: `<str as Hash>::hash` into a `DefaultHasher`. The contract claims
/// only that the writes it appends to the hasher's record depend on the text
/// alone; which bytes they are is left unsaid.
#[verifier::external_body]
fn hash_text_into(state: &mut DefaultHasher, s: &str)
    ensures
        final(state)@ == old(state)@ + str_hash_writes(s@),
{
    s.hash(state);
}

/// Trusted: `SystemTime::now`. It reads the wall clock; nothing is claimed of
/// the value.
#[verifier::external_body]
fn system_now() -> SystemTime {
    SystemTime::now()
}

/// Trusted: `SystemTime::duration_since(UNIX_EPOCH)`. `None` stands for the
/// error that the call returns for a time before the epoch; nothing is
/// claimed of the duration.
#[verifier::external_body]
fn duration_since_epoch(t: &SystemTime) -> Option<Duration> {
    t.duration_since(UNIX_EPOCH).ok()
}

/// Trusted: `Duration::as_nanos`. Nothing is claimed of the value.
#[verifier::external_body]
fn duration_nanos(d: &Duration) -> u128 {
    d.as_nanos()
}

/// The salt written into the hasher before every password.
pub open spec fn password_salt() -> Seq<char> {
    "salt_contributor_platform"@
}

/// The stored form of a password: the hexadecimal digest of salt and password.
pub open spec fn password_hash_spec(password: Seq<char>) -> Seq<char> {
    hex_digits(
        DefaultHasher::spec_finish(
            Seq::<Seq<u8>>::empty() + str_hash_writes(password_salt()) + str_hash_writes(password),
        ) as nat,
    )
}

/// Hashes a password for storage.
pub fn hash_password(password: &str) -> (h: String)
    ensures
        h@ == password_hash_spec(password@),
{
    let mut hasher = DefaultHasher::new();
    let salt = "salt_contributor_platform";
    hash_text_into(&mut hasher, salt);
    hash_text_into(&mut hasher, password);
    let digest = hasher.finish();
    to_hex(digest as u128)
}

/// Whether `password` is the one whose stored form is `hash`.
pub fn verify_password(password: &str, hash: &str) -> (ok: bool)
    ensures
        ok == (password_hash_spec(password@) == hash@),
{
    let computed = hash_password(password);
    text_eq(computed.as_str(), hash)
}

/// The number mixed from a clock reading: the total nanoseconds, cut to 64
/// bits, exclusive-or the sub-second nanoseconds times a fixed multiplier,
/// wrapped to 64 bits.
pub open spec fn clock_mix(nanos: u128, subsec: u32) -> u64 {
    (nanos as u64) ^ (((subsec as nat) * 6364136223846793005nat) % 0x1_0000_0000_0000_0000nat) as u64
}

/// Mixes a clock reading into a pseudo-random number.
pub fn mix_clock(nanos: u128, subsec: u32) -> (r: u64)
    ensures
        r == clock_mix(nanos, subsec),
{
    let low = nanos as u64;
    let spread = (subsec as u64).wrapping_mul(6364136223846793005u64);
    low ^ spread
}

/// The fractional second of a reading of `nanos` nanoseconds since the epoch,
/// in nanoseconds: what `Duration::subsec_nanos` gives of that duration.
pub open spec fn subsec_of(nanos: u128) -> u32 {
    (nanos % 1_000_000_000) as u32
}

/// The pseudo-random number drawn from a clock reading of `nanos`
/// nanoseconds since the epoch: the reading mixed with its own fractional
/// second.
pub open spec fn clock_rand(nanos: u128) -> u64 {
    clock_mix(nanos, subsec_of(nanos))
}

/// The fractional second, in nanoseconds, of a duration of `nanos`
/// nanoseconds.
fn subsec_part(nanos: u128) -> (r: u32)
    ensures
        r == subsec_of(nanos),
        r < 1_000_000_000,
{
    (nanos % 1_000_000_000) as u32
}

/// The pseudo-random number drawn from a clock reading of `nanos`
/// nanoseconds since the epoch.
pub fn rand_from_clock(nanos: u128) -> (r: u64)
    ensures
        r == clock_rand(nanos),
{
    mix_clock(nanos, subsec_part(nanos))
}

/// A pseudo-random number read off the wall clock; `None` where the clock
/// stands before the Unix epoch.
pub fn rand_simple() -> (r: Option<u64>)
    ensures
        r matches Some(v) ==> exists|n: u128| v == #[trigger] clock_rand(n),
{
    let now = system_now();
    match duration_since_epoch(&now) {
        Some(d) => {
            let total = duration_nanos(&d);
            Some(rand_from_clock(total))
        },
        None => None,
    }
}

/// The text of a session token: the timestamp and the random number, each in
/// lower-case hexadecimal, one after the other.
pub fn token_text(timestamp: u128, random: u64) -> (t: String)
    ensures
        t@ == hex_digits(timestamp as nat) + hex_digits(random as nat),
{
    let mut t = to_hex(timestamp);
    let r = to_hex(random as u128);
    t.append(r.as_str());
    t
}

/// A fresh session token built from the wall clock; `None` where the clock
/// stands before the Unix epoch.
pub fn generate_token() -> (t: Option<String>)
    ensures
        t matches Some(s) ==> exists|ts: u128, n: u128|
            s@ == #[trigger] hex_digits(ts as nat) + hex_digits(#[trigger] clock_rand(n) as nat),
{
    let now = system_now();
    match duration_since_epoch(&now) {
        Some(d) => {
            let stamp = duration_nanos(&d);
            match rand_simple() {
                Some(r) => Some(token_text(stamp, r)),
                None => None,
            }
        },
        None => None,
    }
}

/// The scheme word that opens an `Authorization` header, with its space.
pub open spec fn bearer_prefix() -> Seq<char> {
    "Bearer "@
}

/// The `Authorization` header value that carries a session token.
pub fn auth_header(token: &str) -> (h: String)
    ensures
        h@ == bearer_prefix() + token@,
{
    let mut h = String::from_str("Bearer ");
    h.append(token);
    h
}

/// The session token carried by an `Authorization` header value: the text
/// after `Bearer `, or `None` where the value does not begin with it.
pub fn bearer_token(header: &str) -> (t: Option<String>)
    ensures
        t matches Some(s) ==> strip_prefix_spec(header@, bearer_prefix()) == Some(s@),
        t is None ==> strip_prefix_spec(header@, bearer_prefix()) is None,
{
    strip_prefix(header, "Bearer ")
}

/// Reading back the header that `auth_header` wrote gives the token.
pub proof fn lemma_bearer_roundtrip(token: Seq<char>)
    ensures
        strip_prefix_spec(bearer_prefix() + token, bearer_prefix()) == Some(token),
{
    let h = bearer_prefix() + token;
    assert(h.subrange(0, bearer_prefix().len() as int) =~= bearer_prefix());
    assert(h.subrange(bearer_prefix().len() as int, h.len() as int) =~= token);
}

} // verus!

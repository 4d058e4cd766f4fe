use crate::error::Error;
use vstd::prelude::*;

verus! {

/// Length in bytes of the digest that an address holds.
pub const HASH_SIZE: usize = 20;

/// The Blake2b digest of 160 bits of `data`.
pub uninterp spec fn blake2b_160(data: Seq<u8>) -> Seq<u8>;

/// The base58check text, under the `tz4` prefix, of a digest of 20 bytes.
pub uninterp spec fn tz4_base58(hash: Seq<u8>) -> Seq<char>;

/// The digest that a base58check text decodes to, if it decodes to one.
pub uninterp spec fn tz4_base58_decode(text: Seq<char>) -> Option<Seq<u8>>;

/// The decimal digits of `n`, most significant first, as ASCII bytes.
pub open spec fn decimal(n: nat) -> Seq<u8>
    decreases n,
{
    if n < 10 {
        seq![(48 + n) as u8]
    } else {
        decimal(n / 10).push((48 + n % 10) as u8)
    }
}

/// The bytes whose digest names the function that `source` deploys with
/// `code` at `nonce`: the source's text, the code, the nonce in decimal.
pub open spec fn derive_preimage(source: Seq<u8>, code: Seq<u8>, nonce: nat) -> Seq<u8> {
    vstd::utf8::encode_utf8(tz4_base58(source)) + code + decimal(nonce)
}

/// The digest of the address derived from `(source, code, nonce)`.
pub open spec fn derived(source: Seq<u8>, code: Seq<u8>, nonce: nat) -> Seq<u8> {
    blake2b_160(derive_preimage(source, code, nonce))
}

/// Identifies an account or a deployed function by a digest of 20 bytes.
#[derive(Debug)]
pub struct Address {
    hash: Vec<u8>,
}

impl View for Address {
    type V = Seq<u8>;

    closed spec fn view(&self) -> Seq<u8> {
        self.hash@
    }
}

impl Clone for Address {
    fn clone(&self) -> (copy: Self)
        ensures
            copy@ == self@,
    {
        proof {
            use_type_invariant(self);
        }
        Address { hash: self.hash.clone() }
    }
}

/// Calls `tezos_crypto_rs::blake2b::digest_160`, which hashes `data` with
/// Blake2b into 20 bytes and cannot fail for that length.
#[verifier::external_body]
fn blake2b_digest(data: &[u8]) -> (hash: Vec<u8>)
    ensures
        hash@ == blake2b_160(data@),
        hash@.len() == HASH_SIZE,
{
    tezos_crypto_rs::blake2b::digest_160(data).unwrap_or_default()
}

/// Calls `ContractTz4Hash::to_base58_check`, which writes the prefix, the
/// digest and a checksum in base58, whose alphabet is made of ASCII letters
/// and digits. It does not return for a digest of another length than 20
/// bytes.
#[verifier::external_body]
fn tz4_encode(hash: &Vec<u8>) -> (text: String)
    requires
        hash@.len() == HASH_SIZE,
    ensures
        text@ == tz4_base58(hash@),
        forall|i: int| 0 <= i < text@.len() ==> is_alphanumeric(#[trigger] text@[i]),
{
    tezos_crypto_rs::hash::ContractTz4Hash(hash.clone()).to_base58_check()
}

/// Calls `ContractTz4Hash::from_base58_check`, which accepts a text of valid
/// base58 with a matching checksum and 23 bytes of payload, and hands back
/// the last 20 of them. It undoes `to_base58_check`: the text written for a
/// digest decodes to that digest.
#[verifier::external_body]
fn tz4_decode(text: &str) -> (decoded: Option<Vec<u8>>)
    ensures
        digest_of(decoded) == tz4_base58_decode(text@),
        digest_of(decoded) matches Some(h) ==> h.len() == HASH_SIZE,
        forall|h: Seq<u8>|
            h.len() == HASH_SIZE && text@ == tz4_base58(h) ==> digest_of(decoded) == Some(h),
{
    tezos_crypto_rs::hash::ContractTz4Hash::from_base58_check(text).ok().map(|h| h.0)
}

/// Whether `c` is an ASCII letter or digit.
pub open spec fn is_alphanumeric(c: char) -> bool {
    ||| '0' <= c <= '9'
    ||| 'A' <= c <= 'Z'
    ||| 'a' <= c <= 'z'
}

/// The bytes that an optional buffer holds.
pub open spec fn digest_of(decoded: Option<Vec<u8>>) -> Option<Seq<u8>> {
    match decoded {
        Some(v) => Some(v@),
        None => None,
    }
}

impl Address {
    #[verifier::type_invariant]
    closed spec fn well_formed(&self) -> bool {
        self.hash@.len() == HASH_SIZE
    }

    /// The address whose digest is the Blake2b digest of `data`.
    pub fn digest(data: &[u8]) -> (address: Address)
        ensures
            address@ == blake2b_160(data@),
            address@.len() == HASH_SIZE,
    {
        Address { hash: blake2b_digest(data) }
    }

    /// The address written as text.
    pub fn to_base58(&self) -> (text: String)
        ensures
            text@ == tz4_base58(self@),
            forall|i: int| 0 <= i < text@.len() ==> is_alphanumeric(#[trigger] text@[i]),
    {
        proof {
            use_type_invariant(self);
        }
        tz4_encode(&self.hash)
    }

    /// Reads an address from its text.
    pub fn from_base58(text: &str) -> (parsed: Result<Address, Error>)
        ensures
            match parsed {
                Ok(address) => tz4_base58_decode(text@) == Some(address@) && address@.len()
                    == HASH_SIZE,
                Err(e) => tz4_base58_decode(text@) is None && e == Error::MalformedAddress,
            },
            forall|h: Seq<u8>|
                h.len() == HASH_SIZE && text@ == tz4_base58(h) ==> tz4_base58_decode(text@)
                    == Some(h),
    {
        match tz4_decode(text) {
            Some(hash) => Ok(Address { hash }),
            None => Err(Error::MalformedAddress),
        }
    }

    /// Whether two addresses hold the same digest.
    pub fn same(&self, other: &Address) -> (equal: bool)
        ensures
            equal == (self@ == other@),
    {
        proof {
            use_type_invariant(self);
            use_type_invariant(other);
        }
        let mut i: usize = 0;
        while i < HASH_SIZE
            invariant
                i <= HASH_SIZE,
                self.hash@.len() == HASH_SIZE,
                other.hash@.len() == HASH_SIZE,
                forall|j: int| 0 <= j < i ==> self.hash@[j] == other.hash@[j],
            decreases HASH_SIZE - i,
        {
            if self.hash[i] != other.hash[i] {
                return false;
            }
            i += 1;
        }
        assert(self.hash@ =~= other.hash@);
        true
    }

    /// The address of the function that `source` deploys with `code` when its
    /// nonce is `nonce`.
    pub fn derive(source: &Address, code: &str, nonce: u64) -> (address: Address)
        ensures
            address@ == derived(source@, vstd::utf8::encode_utf8(code@), nonce as nat),
            address@.len() == HASH_SIZE,
    {
        let text = source.to_base58();
        let mut preimage: Vec<u8> = Vec::new();
        preimage.extend_from_slice(text.as_str().as_bytes());
        preimage.extend_from_slice(code.as_bytes());
        let digits = decimal_digits(nonce);
        preimage.extend_from_slice(digits.as_slice());
        assert(preimage@ =~= derive_preimage(source@, vstd::utf8::encode_utf8(code@), nonce as nat));
        Address::digest(preimage.as_slice())
    }
}

/// Writes `n` in decimal.
pub fn decimal_digits(n: u64) -> (digits: Vec<u8>)
    ensures
        digits@ == decimal(n as nat),
{
    let mut reversed: Vec<u8> = Vec::new();
    let mut rest: u64 = n;
    while rest >= 10
        invariant
            decimal(n as nat) == decimal(rest as nat) + reversed@.reverse(),
        decreases rest,
    {
        let digit: u8 = 48 + (rest % 10) as u8;
        proof {
            let r = reversed@;
            assert(decimal(rest as nat) == decimal((rest / 10) as nat).push(digit));
            assert(r.push(digit).reverse() =~= seq![digit] + r.reverse());
            assert(decimal((rest / 10) as nat).push(digit) + r.reverse() =~= decimal(
                (rest / 10) as nat,
            ) + (seq![digit] + r.reverse()));
        }
        reversed.push(digit);
        rest = rest / 10;
    }
    let mut digits: Vec<u8> = Vec::new();
    digits.push(48 + rest as u8);
    let mut i: usize = reversed.len();
    while i > 0
        invariant
            i <= reversed@.len(),
            digits@ == decimal(rest as nat) + reversed@.reverse().subrange(
                0,
                reversed@.len() - i,
            ),
        decreases i,
    {
        i -= 1;
        proof {
            let r = reversed@;
            let k = r.len() - i - 1;
            assert(r.reverse()[k] == r[i as int]);
            assert(r.reverse().subrange(0, k + 1) =~= r.reverse().subrange(0, k).push(r[i as int]));
        }
        digits.push(reversed[i]);
    }
    assert(reversed@.reverse().subrange(0, reversed@.len() as int) =~= reversed@.reverse());
    digits
}

/// A number in decimal has one digit exactly when it is below ten, and its
/// last digit is its remainder by ten.
pub proof fn lemma_decimal_shape(n: nat)
    ensures
        decimal(n).len() >= 1,
        n < 10 <==> decimal(n).len() == 1,
        decimal(n).last() == (48 + n % 10) as u8,
        n >= 10 ==> decimal(n).drop_last() == decimal(n / 10),
    decreases n,
{
    if n >= 10 {
        lemma_decimal_shape(n / 10);
        assert(decimal(n).drop_last() =~= decimal(n / 10));
    }
}

/// Two numbers with the same decimal digits are the same number.
pub proof fn lemma_decimal_injective(a: nat, b: nat)
    requires
        decimal(a) == decimal(b),
    ensures
        a == b,
    decreases a,
{
    lemma_decimal_shape(a);
    lemma_decimal_shape(b);
    if a >= 10 {
        lemma_decimal_injective(a / 10, b / 10);
    }
}

/// For one source and one code, two different nonces give two different
/// digest inputs: the derived addresses can only meet where the digest
/// itself collides.
pub proof fn lemma_nonces_separate_preimages(source: Seq<u8>, code: Seq<u8>, n1: nat, n2: nat)
    requires
        n1 != n2,
    ensures
        derive_preimage(source, code, n1) != derive_preimage(source, code, n2),
{
    let head = vstd::utf8::encode_utf8(tz4_base58(source)) + code;
    let first = derive_preimage(source, code, n1);
    let second = derive_preimage(source, code, n2);
    if first == second {
        assert(first.subrange(head.len() as int, first.len() as int) =~= decimal(n1));
        assert(second.subrange(head.len() as int, second.len() as int) =~= decimal(n2));
        lemma_decimal_injective(n1, n2);
    }
}

/// The derived address is a function of the source, the code and the nonce:
/// equal inputs give equal addresses.
pub proof fn lemma_derive_deterministic(
    source1: Seq<u8>,
    code1: Seq<u8>,
    nonce1: nat,
    source2: Seq<u8>,
    code2: Seq<u8>,
    nonce2: nat,
)
    requires
        source1 == source2,
        code1 == code2,
        nonce1 == nonce2,
    ensures
        derived(source1, code1, nonce1) == derived(source2, code2, nonce2),
{
}

} // verus!

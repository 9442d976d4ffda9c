//! Fixed-length ledger addresses (token mints and account owners).

use vstd::prelude::*;

verus! {

/// Number of bytes in a ledger address.
pub const ADDRESS_BYTES: usize = 32;

/// A ledger address, held as its raw bytes and compared by value.
#[derive(Clone, Copy, Debug, PartialEq, Eq, Hash)]
pub struct Address {
    pub bytes: [u8; 32],
}

impl View for Address {
    type V = Seq<u8>;

    open spec fn view(&self) -> Seq<u8> {
        self.bytes@
    }
}

/// The all-zero address, which the ledger uses as the default (sentinel) value.
pub open spec fn zero_address() -> Seq<u8> {
    Seq::new(32, |i: int| 0u8)
}

/// What base58 decoding of `text` into a 32-byte address yields, if it succeeds.
pub uninterp spec fn base58_address(text: Seq<char>) -> Option<Seq<u8>>;

/// The base58 text of the 32-byte address `bytes`.
pub uninterp spec fn base58_text(bytes: Seq<u8>) -> Seq<char>;

/// Relies on `Pubkey::from_str` of solana-program: base58 decoding into exactly
/// 32 bytes, which refuses text longer than 44 bytes before decoding.
#[verifier::external_body]
fn decode_base58(text: &str) -> (r: Option<Address>)
    ensures
        match r {
            Some(a) => base58_address(text@) == Some(a@),
            None => base58_address(text@).is_none(),
        },
        text@.len() > 44 ==> r.is_none(),
{
    <solana_program::pubkey::Pubkey as std::str::FromStr>::from_str(text).ok().map(
        |p| Address { bytes: p.to_bytes() },
    )
}

/// Relies on the `Display` impl of `Pubkey` of solana-program: the base58 text
/// of the address bytes.
#[verifier::external_body]
fn encode_base58(a: &Address) -> (r: String)
    ensures
        r@ == base58_text(a@),
{
    solana_program::pubkey::Pubkey::new_from_array(a.bytes).to_string()
}

/// Relies on `Pubkey::try_from(&[u8])` of solana-program, which succeeds exactly
/// when the slice holds 32 bytes and then keeps them as they are.
#[verifier::external_body]
fn address_from_slice(b: &[u8]) -> (r: Option<Address>)
    ensures
        r.is_some() <==> b@.len() == 32,
        r matches Some(a) ==> a@ == b@,
{
    solana_program::pubkey::Pubkey::try_from(b).ok().map(|p| Address { bytes: p.to_bytes() })
}

impl Address {
    /// The all-zero (default) address.
    pub fn zero() -> (r: Address)
        ensures
            r@ == zero_address(),
    {
        let r = Address { bytes: [0u8; 32] };
        assert(r@ =~= zero_address());
        r
    }

    /// Parses the base58 text form of an address.
    pub fn parse(text: &str) -> (r: Option<Address>)
        ensures
            match r {
                Some(a) => base58_address(text@) == Some(a@),
                None => base58_address(text@).is_none(),
            },
    {
        decode_base58(text)
    }

    /// The base58 text form of this address.
    pub fn to_text(&self) -> (r: String)
        ensures
            r@ == base58_text(self@),
    {
        encode_base58(self)
    }

    /// Reads an address from a byte slice; `None` unless it holds exactly 32 bytes.
    pub fn from_slice(b: &[u8]) -> (r: Option<Address>)
        ensures
            r.is_some() <==> b@.len() == 32,
            r matches Some(a) ==> a@ == b@,
    {
        address_from_slice(b)
    }

    /// Whether both addresses hold the same bytes.
    pub fn same_as(&self, other: &Address) -> (r: bool)
        ensures
            r == (self@ == other@),
    {
        let mut i: usize = 0;
        while i < ADDRESS_BYTES
            invariant
                0 <= i <= 32,
                forall|j: int| 0 <= j < i ==> self@[j] == other@[j],
            decreases 32 - i,
        {
            if self.bytes[i] != other.bytes[i] {
                return false;
            }
            i = i + 1;
        }
        assert(self@ =~= other@);
        true
    }

    /// Whether this is the all-zero (default) address.
    pub fn is_zero(&self) -> (r: bool)
        ensures
            r == (self@ == zero_address()),
    {
        let mut i: usize = 0;
        while i < ADDRESS_BYTES
            invariant
                0 <= i <= 32,
                forall|j: int| 0 <= j < i ==> self@[j] == 0u8,
            decreases 32 - i,
        {
            if self.bytes[i] != 0 {
                assert(self@[i as int] != zero_address()[i as int]);
                return false;
            }
            i = i + 1;
        }
        assert(self@ =~= zero_address());
        true
    }
}

} // verus!

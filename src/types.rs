use vstd::prelude::*;

verus! {

/// Length in bytes of an account address.
pub const ADDRESS_LEN: usize = 32;

/// An account address on the ledger.
#[derive(Clone, Copy, Debug, PartialEq, Eq)]
pub struct Address {
    pub bytes: [u8; 32],
}

impl View for Address {
    type V = Seq<u8>;

    open spec fn view(&self) -> Seq<u8> {
        self.bytes@
    }
}

impl Address {
    pub fn new(bytes: [u8; 32]) -> (r: Address)
        ensures
            r@ == bytes@,
    {
        Address { bytes }
    }

    /// Byte-wise comparison of two addresses.
    pub fn same_as(&self, other: &Address) -> (r: bool)
        ensures
            r == (self@ == other@),
    {
        let mut i: usize = 0;
        while i < ADDRESS_LEN
            invariant
                i <= ADDRESS_LEN,
                self@.len() == ADDRESS_LEN,
                other@.len() == ADDRESS_LEN,
                forall|j: int| 0 <= j < i ==> self@[j] == other@[j],
            decreases ADDRESS_LEN - i,
        {
            if self.bytes[i] != other.bytes[i] {
                return false;
            }
            i = i + 1;
        }
        assert(self@ =~= other@);
        true
    }
}

/// The identifier of a fungible token, as its ticker bytes (`"WEGLD-bd4d79"`).
#[derive(Debug)]
pub struct TokenIdentifier {
    pub bytes: Vec<u8>,
}

impl View for TokenIdentifier {
    type V = Seq<u8>;

    open spec fn view(&self) -> Seq<u8> {
        self.bytes@
    }
}

/// Byte-wise equality of two byte strings.
pub fn bytes_equal(a: &Vec<u8>, b: &Vec<u8>) -> (r: bool)
    ensures
        r == (a@ == b@),
{
    if a.len() != b.len() {
        return false;
    }
    let mut i: usize = 0;
    while i < a.len()
        invariant
            i <= a@.len(),
            a@.len() == b@.len(),
            forall|j: int| 0 <= j < i ==> a@[j] == b@[j],
        decreases a@.len() - i,
    {
        if a[i] != b[i] {
            return false;
        }
        i = i + 1;
    }
    assert(a@ =~= b@);
    true
}

/// A fresh copy of a byte string.
pub fn copy_bytes(a: &Vec<u8>) -> (r: Vec<u8>)
    ensures
        r@ == a@,
{
    let mut r: Vec<u8> = Vec::with_capacity(a.len());
    let mut i: usize = 0;
    while i < a.len()
        invariant
            i <= a@.len(),
            r@ == a@.subrange(0, i as int),
        decreases a@.len() - i,
    {
        r.push(a[i]);
        i = i + 1;
        assert(r@ =~= a@.subrange(0, i as int));
    }
    assert(r@ =~= a@);
    r
}

impl TokenIdentifier {
    pub fn from_bytes(bytes: Vec<u8>) -> (r: TokenIdentifier)
        ensures
            r@ == bytes@,
    {
        TokenIdentifier { bytes }
    }

    pub fn same_as(&self, other: &TokenIdentifier) -> (r: bool)
        ensures
            r == (self@ == other@),
    {
        bytes_equal(&self.bytes, &other.bytes)
    }

    pub fn copy(&self) -> (r: TokenIdentifier)
        ensures
            r@ == self@,
    {
        TokenIdentifier { bytes: copy_bytes(&self.bytes) }
    }
}

/// A payment of `amount` units of the token `token_identifier` with nonce `token_nonce`.
#[derive(Debug)]
pub struct EsdtTokenPayment {
    pub token_identifier: TokenIdentifier,
    pub token_nonce: u64,
    pub amount: u128,
}

impl View for EsdtTokenPayment {
    type V = (Seq<u8>, u64, u128);

    open spec fn view(&self) -> (Seq<u8>, u64, u128) {
        (self.token_identifier@, self.token_nonce, self.amount)
    }
}

impl EsdtTokenPayment {
    pub fn new(token_identifier: TokenIdentifier, token_nonce: u64, amount: u128) -> (r:
        EsdtTokenPayment)
        ensures
            r.token_identifier@ == token_identifier@,
            r.token_nonce == token_nonce,
            r.amount == amount,
    {
        EsdtTokenPayment { token_identifier, token_nonce, amount }
    }

    pub fn copy(&self) -> (r: EsdtTokenPayment)
        ensures
            r@ == self@,
    {
        EsdtTokenPayment {
            token_identifier: self.token_identifier.copy(),
            token_nonce: self.token_nonce,
            amount: self.amount,
        }
    }
}

/// The token of a payment: the native coin, or a fungible token.
#[derive(Debug)]
pub enum EgldOrEsdtTokenIdentifier {
    Egld,
    Esdt(TokenIdentifier),
}

/// A payment in the native coin or in a fungible token.
#[derive(Debug)]
pub struct EgldOrEsdtTokenPayment {
    pub token_identifier: EgldOrEsdtTokenIdentifier,
    pub token_nonce: u64,
    pub amount: u128,
}

/// A transfer to be carried out by the ledger: `payment` goes to `to`.
#[derive(Debug)]
pub struct Transfer {
    pub to: Address,
    pub payment: EsdtTokenPayment,
}

/// A transfer of several payments at once to `to`.
#[derive(Debug)]
pub struct MultiTransfer {
    pub to: Address,
    pub payments: Vec<EsdtTokenPayment>,
}

} // verus!

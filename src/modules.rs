use vstd::prelude::*;
use crate::governance::GovernanceV2;
use crate::types::{
    Address, EgldOrEsdtTokenIdentifier, EgldOrEsdtTokenPayment, EsdtTokenPayment, MultiTransfer,
    TokenIdentifier, Transfer,
};

verus! {

/// Length of the random suffix of a token identifier, after the dash.
pub const TOKEN_RANDOM_CHARS_LEN: usize = 6;

/// Shortest and longest ticker of a token identifier.
pub const TICKER_MIN_LEN: usize = 3;

pub const TICKER_MAX_LEN: usize = 10;

/// Why a token identifier was refused.
#[derive(Clone, Copy, Debug, PartialEq, Eq, Structural)]
pub enum TokenIdError {
    InvalidTokenId,
}

/// The views of the payments of `s` whose amount is not zero, in order.
pub open spec fn spec_non_zero_payments(s: Seq<EsdtTokenPayment>) -> Seq<(Seq<u8>, u64, u128)>
    decreases s.len(),
{
    if s.len() == 0 {
        Seq::empty()
    } else {
        let rest = spec_non_zero_payments(s.drop_last());
        if s.last().amount > 0 {
            rest.push(s.last()@)
        } else {
            rest
        }
    }
}

pub open spec fn is_upper_alnum(c: u8) -> bool {
    (65 <= c <= 90) || (48 <= c <= 57)
}

pub open spec fn is_lower_alnum(c: u8) -> bool {
    (97 <= c <= 122) || (48 <= c <= 57)
}

/// A fungible token identifier: a ticker of 3 to 10 upper-case letters or digits, a dash,
/// and 6 lower-case letters or digits.
pub open spec fn spec_is_valid_esdt_identifier(id: Seq<u8>) -> bool {
    let len = id.len() as int;
    &&& TICKER_MIN_LEN + 1 + TOKEN_RANDOM_CHARS_LEN <= len <= TICKER_MAX_LEN + 1 + TOKEN_RANDOM_CHARS_LEN
    &&& forall|i: int| 0 <= i < len - 7 ==> is_upper_alnum(#[trigger] id[i])
    &&& id[len - 7] == 45u8
    &&& forall|i: int| len - 6 <= i < len ==> is_lower_alnum(#[trigger] id[i])
}

/// Sending tokens, leaving out what would be an empty transfer.
pub trait TokenSendModule {
    /// The transfer to `destination` of those `payments` whose amount is not zero, if there is one.
    fn send_multiple_tokens_if_not_zero(
        &self,
        destination: &Address,
        payments: &Vec<EsdtTokenPayment>,
    ) -> (r: Option<MultiTransfer>)
        ensures
            r is None <==> spec_non_zero_payments(payments@).len() == 0,
            r matches Some(t) ==> t.to@ == destination@ && t.payments@.map_values(
                |p: EsdtTokenPayment| p@,
            ) == spec_non_zero_payments(payments@),
    ;

    /// The transfer of `amount` of a token to `to`, unless `amount` is zero.
    fn send_tokens_non_zero(
        &self,
        to: &Address,
        token_id: &TokenIdentifier,
        token_nonce: u64,
        amount: u128,
    ) -> (r: Option<Transfer>)
        ensures
            r is None <==> amount == 0,
            r matches Some(t) ==> t.to@ == to@ && t.payment@ == (token_id@, token_nonce, amount),
    ;
}

/// Small helpers on destinations, payments and token identifiers.
pub trait UtilModule {
    /// The destination given, or else the caller.
    fn dest_from_optional(&self, opt_destination: Option<Address>, caller: Address) -> (r: Address)
        ensures
            r@ == match opt_destination {
                Some(d) => d@,
                None => caller@,
            },
    ;

    /// A payment in a fungible token, taken out of a payment known not to be in the native coin.
    fn to_esdt_payment(&self, egld_or_esdt_payment: EgldOrEsdtTokenPayment) -> (r: EsdtTokenPayment)
        requires
            egld_or_esdt_payment.token_identifier is Esdt,
        ensures
            r.token_identifier == egld_or_esdt_payment.token_identifier->Esdt_0,
            r.token_nonce == egld_or_esdt_payment.token_nonce,
            r.amount == egld_or_esdt_payment.amount,
    ;

    /// Accepts a well-formed fungible token identifier and refuses any other.
    fn require_valid_token_id(&self, token_id: &TokenIdentifier) -> (r: Result<(), TokenIdError>)
        ensures
            r is Ok <==> spec_is_valid_esdt_identifier(token_id@),
    ;
}

/// Whether `id` is a well-formed fungible token identifier.
pub fn is_valid_esdt_identifier(id: &Vec<u8>) -> (r: bool)
    ensures
        r == spec_is_valid_esdt_identifier(id@),
{
    let len = id.len();
    if len < TICKER_MIN_LEN + 1 + TOKEN_RANDOM_CHARS_LEN || len > TICKER_MAX_LEN + 1
        + TOKEN_RANDOM_CHARS_LEN {
        return false;
    }
    let ticker_len = len - TOKEN_RANDOM_CHARS_LEN - 1;
    let mut i: usize = 0;
    while i < ticker_len
        invariant
            ticker_len == id@.len() - 7,
            i <= ticker_len,
            forall|j: int| 0 <= j < i ==> is_upper_alnum(#[trigger] id@[j]),
        decreases ticker_len - i,
    {
        let c = id[i];
        if !((65 <= c && c <= 90) || (48 <= c && c <= 57)) {
            return false;
        }
        i = i + 1;
    }
    if id[ticker_len] != 45u8 {
        return false;
    }
    let mut k: usize = ticker_len + 1;
    while k < len
        invariant
            ticker_len == id@.len() - 7,
            len == id@.len(),
            ticker_len + 1 <= k <= len,
            forall|j: int| ticker_len + 1 <= j < k ==> is_lower_alnum(#[trigger] id@[j]),
        decreases len - k,
    {
        let c = id[k];
        if !((97 <= c && c <= 122) || (48 <= c && c <= 57)) {
            return false;
        }
        k = k + 1;
    }
    true
}

impl TokenSendModule for GovernanceV2 {
    fn send_multiple_tokens_if_not_zero(
        &self,
        destination: &Address,
        payments: &Vec<EsdtTokenPayment>,
    ) -> (r: Option<MultiTransfer>) {
        let mut non_zero_payments: Vec<EsdtTokenPayment> = Vec::new();
        let mut i: usize = 0;
        while i < payments.len()
            invariant
                i <= payments@.len(),
                non_zero_payments@.map_values(|p: EsdtTokenPayment| p@) == spec_non_zero_payments(
                    payments@.subrange(0, i as int),
                ),
            decreases payments@.len() - i,
        {
            proof {
                assert(payments@.subrange(0, i + 1).drop_last() =~= payments@.subrange(0, i as int));
            }
            if payments[i].amount > 0 {
                let p = payments[i].copy();
                non_zero_payments.push(p);
                proof {
                    assert(non_zero_payments@.map_values(|p: EsdtTokenPayment| p@) =~= spec_non_zero_payments(
                        payments@.subrange(0, i + 1),
                    ));
                }
            }
            i = i + 1;
        }
        assert(payments@.subrange(0, i as int) =~= payments@);
        if non_zero_payments.len() == 0 {
            None
        } else {
            Some(MultiTransfer { to: *destination, payments: non_zero_payments })
        }
    }

    fn send_tokens_non_zero(
        &self,
        to: &Address,
        token_id: &TokenIdentifier,
        token_nonce: u64,
        amount: u128,
    ) -> (r: Option<Transfer>) {
        if amount == 0 {
            return None;
        }
        Some(Transfer { to: *to, payment: EsdtTokenPayment::new(token_id.copy(), token_nonce, amount) })
    }
}

impl UtilModule for GovernanceV2 {
    fn dest_from_optional(&self, opt_destination: Option<Address>, caller: Address) -> (r: Address) {
        match opt_destination {
            Some(dest) => dest,
            None => caller,
        }
    }

    fn to_esdt_payment(&self, egld_or_esdt_payment: EgldOrEsdtTokenPayment) -> (r: EsdtTokenPayment) {
        let EgldOrEsdtTokenPayment { token_identifier, token_nonce, amount } = egld_or_esdt_payment;
        match token_identifier {
            EgldOrEsdtTokenIdentifier::Esdt(token) => EsdtTokenPayment { token_identifier: token, token_nonce, amount },
            EgldOrEsdtTokenIdentifier::Egld => {
                proof {
                    assert(false);
                }
                EsdtTokenPayment {
                    token_identifier: TokenIdentifier { bytes: Vec::new() },
                    token_nonce,
                    amount,
                }
            },
        }
    }

    fn require_valid_token_id(&self, token_id: &TokenIdentifier) -> (r: Result<(), TokenIdError>) {
        if is_valid_esdt_identifier(&token_id.bytes) {
            Ok(())
        } else {
            Err(TokenIdError::InvalidTokenId)
        }
    }
}

} // verus!

//! Transaction type enum.
use vstd::prelude::*;
use vstd::std_specs::cmp::PartialEqSpec;

verus! {

/// Transaction types of all Ethereum transactions.
#[derive(Clone, Copy, Debug, PartialEq, Eq, Structural, Hash)]
pub enum TransactionType {
    /// Legacy transaction type
    Legacy,
    /// EIP-2930 Access List transaction type
    Eip2930,
    /// EIP-1559 Fee market change transaction type
    Eip1559,
    /// EIP-4844 Blob transaction type
    Eip4844,
    /// EIP-7702 Set EOA account code transaction type
    Eip7702,
    /// Custom type means that the transaction trait was extended and has custom types
    Custom,
}

impl TransactionType {
    /// The byte that stands for this type at the head of a transaction envelope.
    pub open spec fn code(self) -> u8 {
        match self {
            TransactionType::Legacy => 0,
            TransactionType::Eip2930 => 1,
            TransactionType::Eip1559 => 2,
            TransactionType::Eip4844 => 3,
            TransactionType::Eip7702 => 4,
            TransactionType::Custom => 0xFF,
        }
    }

    /// The type that a byte at the head of a transaction envelope stands for:
    /// one of the five known types, or `Custom` for any other byte.
    pub open spec fn of_code(code: u8) -> TransactionType {
        if code == 0 {
            TransactionType::Legacy
        } else if code == 1 {
            TransactionType::Eip2930
        } else if code == 2 {
            TransactionType::Eip1559
        } else if code == 3 {
            TransactionType::Eip4844
        } else if code == 4 {
            TransactionType::Eip7702
        } else {
            TransactionType::Custom
        }
    }

    /// Returns true if the transaction type is legacy.
    pub fn is_legacy(&self) -> (r: bool)
        ensures
            r == (*self == TransactionType::Legacy),
    {
        matches!(self, Self::Legacy)
    }

    /// Returns true if the transaction type is custom.
    pub fn is_custom(&self) -> (r: bool)
        ensures
            r == (*self == TransactionType::Custom),
    {
        matches!(self, Self::Custom)
    }
}

impl PartialEq<u8> for TransactionType {
    fn eq(&self, other: &u8) -> (r: bool) {
        u8::from(*self) == *other
    }
}

impl vstd::std_specs::cmp::PartialEqSpecImpl<u8> for TransactionType {
    open spec fn obeys_eq_spec() -> bool {
        true
    }

    open spec fn eq_spec(&self, other: &u8) -> bool {
        self.code() == *other
    }
}

impl PartialEq<TransactionType> for u8 {
    fn eq(&self, other: &TransactionType) -> (r: bool) {
        *self == u8::from(*other)
    }
}

impl vstd::std_specs::cmp::PartialEqSpecImpl<TransactionType> for u8 {
    open spec fn obeys_eq_spec() -> bool {
        true
    }

    open spec fn eq_spec(&self, other: &TransactionType) -> bool {
        *self == other.code()
    }
}

impl From<TransactionType> for u8 {
    fn from(tx_type: TransactionType) -> (r: u8) {
        match tx_type {
            TransactionType::Legacy => 0,
            TransactionType::Eip2930 => 1,
            TransactionType::Eip1559 => 2,
            TransactionType::Eip4844 => 3,
            TransactionType::Eip7702 => 4,
            TransactionType::Custom => 0xFF,
        }
    }
}

impl vstd::std_specs::convert::FromSpecImpl<TransactionType> for u8 {
    open spec fn obeys_from_spec() -> bool {
        true
    }

    open spec fn from_spec(tx_type: TransactionType) -> u8 {
        tx_type.code()
    }
}

impl From<u8> for TransactionType {
    fn from(value: u8) -> (r: TransactionType) {
        match value {
            0 => Self::Legacy,
            1 => Self::Eip2930,
            2 => Self::Eip1559,
            3 => Self::Eip4844,
            4 => Self::Eip7702,
            _ => Self::Custom,
        }
    }
}

impl vstd::std_specs::convert::FromSpecImpl<u8> for TransactionType {
    open spec fn obeys_from_spec() -> bool {
        true
    }

    open spec fn from_spec(value: u8) -> TransactionType {
        TransactionType::of_code(value)
    }
}

/// Each of the five known codes (0 to 4) decodes to a type that encodes
/// back to that same code.
pub proof fn lemma_known_code_round_trip(code: u8)
    requires
        code <= 4,
    ensures
        TransactionType::of_code(code).code() == code,
        TransactionType::of_code(code) !is Custom,
{
}

/// Every code outside 0 to 4, 255 included, decodes to `Custom`.
pub proof fn lemma_unknown_code_is_custom(code: u8)
    requires
        code > 4,
    ensures
        TransactionType::of_code(code) == TransactionType::Custom,
{
}

/// `Custom` always encodes as 255, whatever code it was decoded from: for a
/// code outside 0 to 4 the round trip gives 255, not the code itself.
pub proof fn lemma_custom_encodes_as_max(code: u8)
    requires
        code > 4,
    ensures
        TransactionType::Custom.code() == 0xFF,
        TransactionType::of_code(code).code() == 0xFF,
{
}

/// Encoding loses nothing: every type decodes back from its own code.
pub proof fn lemma_code_decodes_to_itself(tx_type: TransactionType)
    ensures
        TransactionType::of_code(tx_type.code()) == tx_type,
{
}

/// Comparing a type with a byte gives the same answer in either operand
/// order, and that answer is whether the type's code is the byte.
pub proof fn lemma_eq_byte_symmetric(tx_type: TransactionType, byte: u8)
    ensures
        tx_type.eq_spec(&byte) == byte.eq_spec(&tx_type),
        tx_type.eq_spec(&byte) == (tx_type.code() == byte),
{
}

} // verus!

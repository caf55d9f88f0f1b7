//! Minimal transaction schema for synthesized internal transactions.
//!
//! A subcall executes as a transaction that the dispatcher synthesizes on
//! behalf of the caller: it is authorized internally by the enclosing,
//! already-authenticated transaction rather than by a signature.

use vstd::prelude::*;

verus! {

/// Transaction format version written into every synthesized transaction.
pub const LATEST_TRANSACTION_VERSION: u16 = 1;

/// Address-space-qualified identity of a subcall's caller.
#[derive(Clone, Debug)]
pub enum CallerAddress {
    /// A native address, as raw bytes.
    Address(Vec<u8>),
    /// An Ethereum-style 20-byte address.
    EthAddress([u8; 20]),
}

/// Format marker of a call body.  Synthesized internal transactions are
/// always plain: no further envelope decoding is needed.
#[derive(Clone, Copy, Debug, PartialEq, Eq, Structural)]
pub enum CallFormat {
    Plain,
}

/// Method invocation carried by a transaction.  The body is an opaque
/// encoded value, carried through unchanged.
#[derive(Debug)]
pub struct Call {
    pub format: CallFormat,
    pub method: String,
    pub body: oasis_cbor_value::Value,
}

/// How a signer of a transaction is authorized.
#[derive(Clone, Debug)]
pub enum AddressSpec {
    /// An internally-authorized address: the enclosing transaction already
    /// authenticated the caller, so no signature is carried.
    Internal(CallerAddress),
}

/// One signer entry of a transaction.
#[derive(Clone, Debug)]
pub struct SignerInfo {
    pub address_spec: AddressSpec,
    pub nonce: u64,
}

/// Denomination of token amounts.
#[derive(Clone, Copy, Debug, PartialEq, Eq, Structural)]
pub enum Denomination {
    Native,
}

/// Token amount in base units of a denomination.
#[derive(Clone, Copy, Debug, PartialEq, Eq, Structural)]
pub struct BaseUnits {
    pub amount: u128,
    pub denomination: Denomination,
}

/// Fee and resource ceilings of a transaction.
#[derive(Clone, Debug)]
pub struct Fee {
    /// Token cost; zero for internal transactions.
    pub amount: BaseUnits,
    /// Compute budget ceiling for the transaction and its descendants.
    pub gas: u64,
    /// Ceiling on outbound consensus messages the transaction may emit.
    pub consensus_messages: u32,
}

/// Authentication and fee information of a transaction.
#[derive(Debug)]
pub struct AuthInfo {
    pub signer_info: Vec<SignerInfo>,
    pub fee: Fee,
}

/// A runtime transaction.
#[derive(Debug)]
pub struct Transaction {
    pub version: u16,
    pub call: Call,
    pub auth_info: AuthInfo,
}

} // verus!

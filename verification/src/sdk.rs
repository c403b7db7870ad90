//! Client SDK: errors, the (placeholder) signature scheme, transactions and a
//! client that must be connected before it submits or queries anything.

use vstd::prelude::*;

verus! {

/// Errors reported by the SDK.
#[derive(Debug, PartialEq, Eq, Clone, Copy)]
pub enum SdkError {
    ConnectionFailed,
    TransactionSubmissionFailed,
    BalanceQueryFailed,
    SignatureVerificationFailed,
    EncodingError,
    DecodingError,
}

/// The message that describes each error.
pub open spec fn sdk_error_message(e: SdkError) -> Seq<char> {
    match e {
        SdkError::ConnectionFailed => "Connection to Nodara network failed"@,
        SdkError::TransactionSubmissionFailed => "Transaction submission failed"@,
        SdkError::BalanceQueryFailed => "Balance query failed"@,
        SdkError::SignatureVerificationFailed => "Signature verification failed"@,
        SdkError::EncodingError => "Data encoding error"@,
        SdkError::DecodingError => "Data decoding error"@,
    }
}

impl SdkError {
    /// Human-readable description of the error.
    pub fn message(&self) -> (r: &'static str)
        ensures
            r@ == sdk_error_message(*self),
    {
        match self {
            SdkError::ConnectionFailed => "Connection to Nodara network failed",
            SdkError::TransactionSubmissionFailed => "Transaction submission failed",
            SdkError::BalanceQueryFailed => "Balance query failed",
            SdkError::SignatureVerificationFailed => "Signature verification failed",
            SdkError::EncodingError => "Data encoding error",
            SdkError::DecodingError => "Data decoding error",
        }
    }
}

/// A 32-byte public key.
#[derive(Clone, Debug, PartialEq, Eq)]
pub struct PublicKey(pub [u8; 32]);

/// A 32-byte private key.
#[derive(Clone, Debug, PartialEq, Eq)]
pub struct PrivateKey(pub [u8; 32]);

/// A public/private key pair.
#[derive(Clone, Debug, PartialEq, Eq)]
pub struct KeyPair {
    pub public: PublicKey,
    pub private: PrivateKey,
}

/// The byte that the placeholder scheme appends to a message to sign it.
pub const SIGNATURE_MARKER: u8 = 0xAA;

/// The signature of `message`: the message followed by the marker byte.
pub open spec fn signature_of(message: Seq<u8>) -> Seq<u8> {
    message.push(SIGNATURE_MARKER)
}

/// A sequence of 32 copies of `b`.
pub open spec fn filled_key(b: u8) -> Seq<u8> {
    Seq::new(32, |i: int| b)
}

impl KeyPair {
    /// The fixed key pair: public key of 32 bytes `1`, private key of 32 bytes `2`.
    pub fn generate() -> (kp: Self)
        ensures
            kp.public.0@ == filled_key(1),
            kp.private.0@ == filled_key(2),
    {
        let kp = KeyPair { public: PublicKey([1u8; 32]), private: PrivateKey([2u8; 32]) };
        assert(kp.public.0@ =~= filled_key(1));
        assert(kp.private.0@ =~= filled_key(2));
        kp
    }

    /// Signs `message`: the signature is the message followed by `0xAA`.
    pub fn sign(&self, message: &[u8]) -> (sig: Vec<u8>)
        ensures
            sig@ == signature_of(message@),
    {
        let mut sig: Vec<u8> = Vec::new();
        let mut i: usize = 0;
        while i < message.len()
            invariant
                i <= message@.len(),
                sig@ == message@.subrange(0, i as int),
            decreases message@.len() - i,
        {
            sig.push(message[i]);
            i = i + 1;
            assert(sig@ =~= message@.subrange(0, i as int));
        }
        assert(message@.subrange(0, message@.len() as int) =~= message@);
        sig.push(SIGNATURE_MARKER);
        sig
    }
}

/// Whether `signature` is the signature of `message`.
pub fn verify(message: &[u8], signature: &[u8], _public: &PublicKey) -> (ok: bool)
    ensures
        ok == (signature@ == signature_of(message@)),
{
    if signature.len() == 0 || signature.len() - 1 != message.len() {
        return false;
    }
    let mut i: usize = 0;
    while i < message.len()
        invariant
            signature@.len() == message@.len() + 1,
            i <= message@.len(),
            forall|j: int| 0 <= j < i ==> signature@[j] == message@[j],
        decreases message@.len() - i,
    {
        if signature[i] != message[i] {
            assert(signature@[i as int] != signature_of(message@)[i as int]);
            return false;
        }
        i = i + 1;
    }
    let last = signature[message.len()];
    if last != SIGNATURE_MARKER {
        assert(signature@[message@.len() as int] != signature_of(message@)[message@.len() as int]);
        return false;
    }
    assert(signature@ =~= signature_of(message@));
    true
}

/// A signature is accepted for exactly one message, the one it was made
/// from: it is that message followed by the marker byte.
pub proof fn lemma_sign_verify(message: Seq<u8>, other: Seq<u8>)
    ensures
        signature_of(message) == signature_of(other) <==> message == other,
        signature_of(message).len() == message.len() + 1,
        signature_of(message).last() == SIGNATURE_MARKER,
        signature_of(message).drop_last() == message,
{
    assert(signature_of(message).drop_last() =~= message);
    assert(signature_of(other).drop_last() =~= other);
}

/// A transfer of `amount` from one account to another, with a payload.
#[derive(Clone, Debug, PartialEq, Eq)]
pub struct Transaction {
    pub from: u64,
    pub to: u64,
    pub amount: u128,
    pub payload: Vec<u8>,
}

impl Transaction {
    /// Builds a transaction from its parts.
    pub fn new(from: u64, to: u64, amount: u128, payload: Vec<u8>) -> (tx: Self)
        ensures
            tx.from == from,
            tx.to == to,
            tx.amount == amount,
            tx.payload@ == payload@,
    {
        Transaction { from, to, amount, payload }
    }
}

/// The balance that the network reports for every account.
pub const REPORTED_BALANCE: u128 = 1_000_000;

/// A client of the Nodara network.
pub struct NodaraSdk {
    connected: bool,
}

impl NodaraSdk {
    /// Whether the client has connected.
    pub closed spec fn is_connected(&self) -> bool {
        self.connected
    }

    /// A client that has not connected yet.
    pub fn new() -> (sdk: Self)
        ensures
            !sdk.is_connected(),
    {
        NodaraSdk { connected: false }
    }

    /// Connects the client; this always succeeds.
    pub fn connect(&mut self) -> (r: Result<(), SdkError>)
        ensures
            final(self).is_connected(),
            r == Ok::<(), SdkError>(()),
    {
        self.connected = true;
        Ok(())
    }

    /// Submits a transaction: refused with `ConnectionFailed` before `connect`.
    pub fn submit_transaction(&self, tx: Transaction) -> (r: Result<(), SdkError>)
        ensures
            self.is_connected() ==> r == Ok::<(), SdkError>(()),
            !self.is_connected() ==> r == Err::<(), SdkError>(SdkError::ConnectionFailed),
    {
        if !self.connected {
            return Err(SdkError::ConnectionFailed);
        }
        Ok(())
    }

    /// The balance of `account`: `REPORTED_BALANCE` once connected,
    /// `ConnectionFailed` before.
    pub fn query_balance(&self, _account: u64) -> (r: Result<u128, SdkError>)
        ensures
            self.is_connected() ==> r == Ok::<u128, SdkError>(REPORTED_BALANCE),
            !self.is_connected() ==> r == Err::<u128, SdkError>(SdkError::ConnectionFailed),
    {
        if !self.connected {
            return Err(SdkError::ConnectionFailed);
        }
        Ok(REPORTED_BALANCE)
    }
}

} // verus!

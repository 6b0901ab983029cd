use vstd::prelude::*;
use snarkvm_console::account::PrivateKey;
use snarkvm_console::network::Testnet3;
use snarkvm_console::program::Ciphertext;
use snarkvm_synthesizer::{ConsensusMemory, ConsensusStore, Transaction};

verus! {

// The types below hold values of snarkVM. Each of snarkVM's own types
// is generic over its `Network` trait, which cannot be named in a type
// here, so each is held in a box that is opaque to the verifier.

/// A plaintext private key of an account: snarkVM's `PrivateKey` on
/// Testnet3. The key is never looked into here: it is carried to where it
/// is used.
#[verifier::external_body]
pub struct AccountKey(pub PrivateKey<Testnet3>);

/// An encrypted private key: snarkVM's `Ciphertext` on Testnet3. It is
/// stored as it is; decryption happens where the key is needed.
#[verifier::external_body]
pub struct AccountCiphertext(pub Ciphertext<Testnet3>);

/// A transaction ready for broadcast: snarkVM's `Transaction` on Testnet3.
/// Whether it is well formed is for the ledger to judge.
#[verifier::external_body]
pub struct LedgerTransaction(pub Transaction<Testnet3>);

/// A consensus store that lives in memory only: snarkVM's `ConsensusStore`
/// over `ConsensusMemory` on Testnet3. It exists to have a virtual machine
/// started over it.
#[verifier::external_body]
pub struct MemoryStore(pub ConsensusStore<Testnet3, ConsensusMemory<Testnet3>>);

/// `ConsensusStore::open` with no development identifier, over in-memory
/// storage: a fresh, empty store that shares nothing with any other.
/// Nothing is claimed about whether it succeeds.
#[verifier::external_body]
pub(crate) fn open_memory_store() -> (r: Result<MemoryStore, anyhow::Error>)
{
    ConsensusStore::<Testnet3, ConsensusMemory<Testnet3>>::open(None).map(MemoryStore)
}

} // verus!

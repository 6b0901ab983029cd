use vstd::prelude::*;
use crate::ledger::{AccountCiphertext, AccountKey};
use crate::error::ManagerError;

verus! {

/// The identity under which a manager acts: a private key, either in the
/// clear or encrypted. A value of this type is always exactly one of the two.
pub enum Identity {
    /// A plaintext private key.
    PrivateKey(AccountKey),
    /// An encrypted private key, to be decrypted where it is used.
    Ciphertext(AccountCiphertext),
}

/// The identity that two optional forms stand for: the one that is present
/// when exactly one is, and otherwise the error for both or for neither.
pub open spec fn identity_of(
    private_key: Option<AccountKey>,
    private_key_ciphertext: Option<AccountCiphertext>,
) -> Result<Identity, ManagerError> {
    match (private_key, private_key_ciphertext) {
        (Some(_), Some(_)) => Err(ManagerError::BothIdentities),
        (None, None) => Err(ManagerError::NoIdentity),
        (Some(key), None) => Ok(Identity::PrivateKey(key)),
        (None, Some(ciphertext)) => Ok(Identity::Ciphertext(ciphertext)),
    }
}

impl Identity {
    /// Chooses the identity from two optional forms, of which exactly one
    /// must be present.
    pub fn from_options(
        private_key: Option<AccountKey>,
        private_key_ciphertext: Option<AccountCiphertext>,
    ) -> (r: Result<Self, ManagerError>)
        ensures
            r == identity_of(private_key, private_key_ciphertext),
    {
        match (private_key, private_key_ciphertext) {
            (Some(_), Some(_)) => Err(ManagerError::BothIdentities),
            (None, None) => Err(ManagerError::NoIdentity),
            (Some(key), None) => Ok(Identity::PrivateKey(key)),
            (None, Some(ciphertext)) => Ok(Identity::Ciphertext(ciphertext)),
        }
    }

    /// The plaintext private key, where that is the form held.
    pub open spec fn private_key_spec(&self) -> Option<AccountKey> {
        match *self {
            Identity::PrivateKey(key) => Some(key),
            Identity::Ciphertext(_) => None,
        }
    }

    /// The ciphertext, where that is the form held.
    pub open spec fn ciphertext_spec(&self) -> Option<AccountCiphertext> {
        match *self {
            Identity::PrivateKey(_) => None,
            Identity::Ciphertext(ciphertext) => Some(ciphertext),
        }
    }

    /// The plaintext private key, where that is the form held.
    pub fn private_key(&self) -> (r: Option<&AccountKey>)
        ensures
            r == (match self.private_key_spec() {
                Some(key) => Some(&key),
                None => None,
            }),
    {
        match self {
            Identity::PrivateKey(key) => Some(key),
            Identity::Ciphertext(_) => None,
        }
    }

    /// The ciphertext, where that is the form held.
    pub fn private_key_ciphertext(&self) -> (r: Option<&AccountCiphertext>)
        ensures
            r == (match self.ciphertext_spec() {
                Some(ciphertext) => Some(&ciphertext),
                None => None,
            }),
    {
        match self {
            Identity::PrivateKey(_) => None,
            Identity::Ciphertext(ciphertext) => Some(ciphertext),
        }
    }
}

/// A pair of optional forms yields an identity exactly when one of the two
/// is present and the other is absent, and the identity then holds that form
/// and no other. Both present and both absent give two different errors.
pub proof fn lemma_identity_exactly_one(
    private_key: Option<AccountKey>,
    private_key_ciphertext: Option<AccountCiphertext>,
)
    ensures
        identity_of(private_key, private_key_ciphertext) is Ok <==> (private_key is Some) != (
        private_key_ciphertext is Some),
        private_key is Some && private_key_ciphertext is Some ==> identity_of(
            private_key,
            private_key_ciphertext,
        ) == Err::<Identity, ManagerError>(ManagerError::BothIdentities),
        private_key is None && private_key_ciphertext is None ==> identity_of(
            private_key,
            private_key_ciphertext,
        ) == Err::<Identity, ManagerError>(ManagerError::NoIdentity),
        identity_of(private_key, private_key_ciphertext) matches Ok(identity) ==> {
            &&& identity.private_key_spec() == private_key
            &&& identity.ciphertext_spec() == private_key_ciphertext
        },
{
}

} // verus!

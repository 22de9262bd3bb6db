//! The signer authenticator: holds one administrator identity and one Ed25519
//! verification key, checks a single signature over a caller-supplied payload
//! hash, and exposes an owner-gated self-upgrade decision.

use vstd::prelude::*;

use crate::crypto::{ed25519_valid, ed25519_verify};
use crate::errors::AuthError;

verus! {

/// The closed set of keys under which this component persists state.
#[derive(Clone, Copy, Debug, PartialEq, Eq, Structural)]
pub enum DataKey {
    /// The administrator identity (with, on the same one-time path, the
    /// verification key).
    Admin,
}

/// The one-time configuration persisted at construction: the upgrade
/// authority and the Ed25519 verification key.
pub struct AccountConfig {
    /// Ledger address of the administrator, in its textual form.
    pub admin: String,
    /// The 32-byte Ed25519 public key all signatures are checked against.
    pub verification_key: Vec<u8>,
}

impl AccountConfig {
    /// The verification key is exactly 32 bytes.
    pub open spec fn wf(self) -> bool {
        self.verification_key@.len() == 32
    }
}

/// Instance storage of one deployed signer authenticator: empty at
/// deployment, filled exactly once by the constructor, and mutated by no
/// other operation.
pub struct Account {
    config: Option<AccountConfig>,
}

impl Account {
    /// Whether the one-time constructor has run.
    pub closed spec fn constructed(self) -> bool {
        self.config is Some
    }

    /// The stored administrator identity.
    pub closed spec fn spec_admin(self) -> Seq<char> {
        self.config->0.admin@
    }

    /// The stored verification key.
    pub closed spec fn spec_verification_key(self) -> Seq<u8> {
        self.config->0.verification_key@
    }

    /// A constructed instance holds a well-formed configuration.
    pub closed spec fn wf(self) -> bool {
        self.constructed() ==> self.config->0.wf()
    }

    /// A freshly deployed instance, before its constructor has run.
    pub fn new() -> (r: Account)
        ensures
            !r.constructed(),
            r.wf(),
    {
        Account { config: None }
    }

    /// One-time initializer: persists the administrator identity and, on the
    /// same one-time path, the verification key. The host guarantees it runs
    /// exactly once, before any other operation; a second call is outside the
    /// host's construction contract.
    pub fn __constructor(&mut self, admin: String, verification_key: Vec<u8>)
        requires
            !old(self).constructed(),
            verification_key@.len() == 32,
        ensures
            final(self).constructed(),
            final(self).spec_admin() == admin@,
            final(self).spec_verification_key() == verification_key@,
            final(self).wf(),
    {
        self.config = Some(AccountConfig { admin, verification_key });
    }

    /// The durable-storage read, keyed by the closed key enumeration. A read
    /// before construction never returns a default: it signals
    /// `Misconfiguration`.
    pub fn get(&self, key: &DataKey) -> (r: Result<&String, AuthError>)
        ensures
            self.constructed() ==> (r matches Ok(v) && v@ == self.spec_admin()),
            !self.constructed() ==> r == Err::<&String, AuthError>(AuthError::Misconfiguration),
    {
        match key {
            DataKey::Admin => match &self.config {
                Some(config) => Ok(&config.admin),
                None => Err(AuthError::Misconfiguration),
            },
        }
    }

    /// The stored administrator identity; `Misconfiguration` before
    /// construction.
    pub fn admin(&self) -> (r: Result<&String, AuthError>)
        ensures
            self.constructed() ==> (r matches Ok(v) && v@ == self.spec_admin()),
            !self.constructed() ==> r == Err::<&String, AuthError>(AuthError::Misconfiguration),
    {
        self.get(&DataKey::Admin)
    }

    /// The stored verification key; `Misconfiguration` before construction.
    pub fn verification_key(&self) -> (r: Result<&Vec<u8>, AuthError>)
        ensures
            self.constructed() ==> (r matches Ok(v) && v@ == self.spec_verification_key()),
            !self.constructed() ==> r == Err::<&Vec<u8>, AuthError>(AuthError::Misconfiguration),
    {
        match &self.config {
            Some(config) => Ok(&config.verification_key),
            None => Err(AuthError::Misconfiguration),
        }
    }

    /// The authorization verdict as a function of stored state and inputs:
    /// `Misconfiguration` before construction, success exactly when the
    /// signature is a valid Ed25519 signature over the payload under the
    /// stored key, and `AuthDenied` otherwise.
    pub open spec fn check_auth_verdict(self, payload: Seq<u8>, signature: Seq<u8>) -> Result<(), AuthError> {
        if !self.constructed() {
            Err(AuthError::Misconfiguration)
        } else if ed25519_valid(self.spec_verification_key(), payload, signature) {
            Ok(())
        } else {
            Err(AuthError::AuthDenied)
        }
    }

    /// Checks one signature over a caller-supplied payload hash against the
    /// stored verification key, and grants or denies authorization. The
    /// authorization context is accepted for forward compatibility and not
    /// inspected. No side effects: the verdict is a pure function of stored
    /// state and inputs, so the host may re-evaluate the call freely.
    pub fn __check_auth(
        &self,
        signature_payload: &Vec<u8>,
        signature: &Vec<u8>,
        _auth_context: &Vec<Vec<u8>>,
    ) -> (r: Result<(), AuthError>)
        requires
            self.wf(),
            signature_payload@.len() == 32,
            signature@.len() == 64,
        ensures
            r == self.check_auth_verdict(signature_payload@, signature@),
    {
        match &self.config {
            None => Err(AuthError::Misconfiguration),
            Some(config) => {
                if ed25519_verify(
                    config.verification_key.as_slice(),
                    signature_payload.as_slice(),
                    signature.as_slice(),
                ) {
                    Ok(())
                } else {
                    Err(AuthError::AuthDenied)
                }
            },
        }
    }

    /// The identity whose authorization gates `upgrade`: the host must
    /// escalate to its own authorization evaluation for this identity before
    /// the upgrade may proceed. `Misconfiguration` before construction.
    pub fn upgrade_authorizer(&self) -> (r: Result<&String, AuthError>)
        ensures
            self.constructed() ==> (r matches Ok(v) && v@ == self.spec_admin()),
            !self.constructed() ==> r == Err::<&String, AuthError>(AuthError::Misconfiguration),
    {
        self.get(&DataKey::Admin)
    }

    /// The upgrade decision. `admin_authorized` is the host's answer to
    /// "does the administrator authorize this exact call?"; on success the
    /// returned hash is the code the host must install, and on any other
    /// input the upgrade must not happen: `AuthDenied` when the
    /// administrator's authorization could not be established,
    /// `Misconfiguration` before construction.
    pub fn upgrade(&self, new_wasm_hash: Vec<u8>, admin_authorized: bool) -> (r: Result<Vec<u8>, AuthError>)
        ensures
            r is Ok <==> (self.constructed() && admin_authorized),
            r matches Ok(h) ==> h == new_wasm_hash,
            !self.constructed() ==> r == Err::<Vec<u8>, AuthError>(AuthError::Misconfiguration),
            self.constructed() && !admin_authorized ==> r == Err::<Vec<u8>, AuthError>(AuthError::AuthDenied),
    {
        match &self.config {
            None => Err(AuthError::Misconfiguration),
            Some(_) => {
                if admin_authorized {
                    Ok(new_wasm_hash)
                } else {
                    Err(AuthError::AuthDenied)
                }
            },
        }
    }
}

/// Two results that each meet `__check_auth`'s contract on the same stored
/// state and the same inputs are equal: the authorization verdict is a pure
/// function of state and input, so re-evaluating or simulating a call cannot
/// change it.
pub proof fn lemma_check_auth_deterministic(
    account: Account,
    payload: Seq<u8>,
    signature: Seq<u8>,
    r1: Result<(), AuthError>,
    r2: Result<(), AuthError>,
)
    requires
        r1 == account.check_auth_verdict(payload, signature),
        r2 == account.check_auth_verdict(payload, signature),
    ensures
        r1 == r2,
{
}

} // verus!

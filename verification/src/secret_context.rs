//! The in-flight key-exchange state of the setup-handling side.
//!
//! A context is created when the handshake setup arrives, carrying the
//! 8-byte initial key, the public parameters, a freshly drawn private
//! exponent, and (once parsed) the remote public value.  Everything the
//! challenge phase needs — the shared secret, both signatures, the
//! intermediary key and the final key — is derived from it.

use crate::exchange::{
    calculate_key, calculate_signature, g_pow_x_mod_p, spec_intermediary, spec_modexp,
    spec_signature, spec_transform, transform_value, Signature,
};
use vstd::arithmetic::div_mod::lemma_mod_bound;
use vstd::arithmetic::power::pow;
use vstd::prelude::*;

verus! {

/// A key that initialises the byte-swapped Blowfish cipher.
pub type BlowfishKey = [u8; 8];

/// The error of asking for a derived value before the remote public value
/// is known.
#[derive(Clone, Copy, Debug, PartialEq, Eq, Structural)]
pub struct RemotePublicNotSet;

/// The in-flight key-exchange state: initial key, parameters, the local
/// private exponent, and optionally the remote public value.
#[derive(Clone, Copy, Debug)]
pub struct SecretContext {
    /// The 8-byte initial key the final key is derived from.
    pub initial_key: BlowfishKey,
    /// The generator `g`.
    pub generator: u32,
    /// The modulus `p`.
    pub prime: u32,
    /// The local private exponent.
    pub private: u32,
    /// The remote public value, once known.
    pub remote_public: Option<u32>,
}

impl SecretContext {
    /// The exponentiations this context makes are defined: a zero modulus
    /// is only tolerated beside a zero private exponent.
    pub open spec fn wf(&self) -> bool {
        self.private == 0 || self.prime > 0
    }

    /// The local public value `g^private mod p`.
    pub open spec fn spec_local(&self) -> u32 {
        spec_modexp(self.generator, self.private, self.prime) as u32
    }

    /// The shared secret `remote^private mod p`.
    pub open spec fn spec_shared(&self) -> u32
        recommends
            self.remote_public is Some,
    {
        spec_modexp(self.remote_public->0, self.private, self.prime) as u32
    }

    /// A context from its parts.
    pub fn new(
        initial_key: BlowfishKey,
        generator: u32,
        prime: u32,
        private: u32,
        remote_public: Option<u32>,
    ) -> (r: Self)
        ensures
            r == (SecretContext { initial_key, generator, prime, private, remote_public }),
    {
        Self { initial_key, generator, prime, private, remote_public }
    }

    /// The local public value `g^private mod p`.
    pub fn local_public(&self) -> (r: u32)
        requires
            self.wf(),
        ensures
            r == self.spec_local(),
    {
        proof {
            if self.private != 0 {
                lemma_mod_bound(
                    pow(self.generator as int, self.private as nat),
                    self.prime as int,
                );
            }
        }
        g_pow_x_mod_p(self.generator, self.private, self.prime as i64)
    }

    /// Record the remote public value.
    pub fn set_remote_public(&mut self, remote_public: u32)
        ensures
            *final(self) == (SecretContext { remote_public: Some(remote_public), ..*old(self) }),
    {
        self.remote_public = Some(remote_public)
    }

    /// The remote public value, if it is known.
    pub fn remote_public(&self) -> (r: Result<u32, RemotePublicNotSet>)
        ensures
            r is Ok <==> self.remote_public is Some,
            r is Ok ==> r->Ok_0 == self.remote_public->0,
    {
        match self.remote_public {
            Some(remote) => Ok(remote),
            None => Err(RemotePublicNotSet),
        }
    }

    /// The shared secret `remote^private mod p`, once the remote public
    /// value is known.
    pub fn shared_secret(&self) -> (r: Result<u32, RemotePublicNotSet>)
        requires
            self.wf(),
        ensures
            r is Ok <==> self.remote_public is Some,
            r is Ok ==> r->Ok_0 == self.spec_shared(),
    {
        match self.remote_public {
            Some(remote) => {
                proof {
                    if self.private != 0 {
                        lemma_mod_bound(pow(remote as int, self.private as nat), self.prime as int);
                    }
                }
                Ok(g_pow_x_mod_p(remote, self.private, self.prime as i64))
            },
            None => Err(RemotePublicNotSet),
        }
    }

    /// The signature this side sends: `(local, remote)` signed under the
    /// shared secret.
    pub fn local_signature(&self) -> (r: Result<Signature, RemotePublicNotSet>)
        requires
            self.wf(),
        ensures
            r is Ok <==> self.remote_public is Some,
            r is Ok ==> r->Ok_0@ == spec_signature(
                self.spec_shared(),
                self.spec_local(),
                self.remote_public->0,
            ),
    {
        match self.remote_public {
            Some(remote) => {
                let shared = self.shared_secret().unwrap();
                Ok(calculate_signature(shared, self.local_public(), remote))
            },
            None => Err(RemotePublicNotSet),
        }
    }

    /// The signature this side expects back: `(remote, local)` signed under
    /// the shared secret.
    pub fn remote_signature(&self) -> (r: Result<Signature, RemotePublicNotSet>)
        requires
            self.wf(),
        ensures
            r is Ok <==> self.remote_public is Some,
            r is Ok ==> r->Ok_0@ == spec_signature(
                self.spec_shared(),
                self.remote_public->0,
                self.spec_local(),
            ),
    {
        match self.remote_public {
            Some(remote) => {
                let shared = self.shared_secret().unwrap();
                Ok(calculate_signature(shared, remote, self.local_public()))
            },
            None => Err(RemotePublicNotSet),
        }
    }

    /// The intermediary Blowfish key of the challenge phase: `(remote,
    /// local)` keyed under the shared secret.
    pub fn intermediary_key(&self) -> (r: Result<BlowfishKey, RemotePublicNotSet>)
        requires
            self.wf(),
        ensures
            r is Ok <==> self.remote_public is Some,
            r is Ok ==> r->Ok_0@ == spec_intermediary(
                self.spec_shared(),
                self.remote_public->0,
                self.spec_local(),
            ),
    {
        match self.remote_public {
            Some(remote) => {
                let shared = self.shared_secret().unwrap();
                Ok(calculate_key(shared, remote, self.local_public()))
            },
            None => Err(RemotePublicNotSet),
        }
    }

    /// The final key: the initial key transformed under the shared secret
    /// with tweak 3.
    pub fn final_key(&self) -> (r: Result<BlowfishKey, RemotePublicNotSet>)
        requires
            self.wf(),
        ensures
            r is Ok <==> self.remote_public is Some,
            r is Ok ==> r->Ok_0@ == spec_transform(self.initial_key@, self.spec_shared(), 3),
    {
        match self.shared_secret() {
            Ok(secret) => {
                let mut key = self.initial_key;
                transform_value(&mut key, secret, 3);
                Ok(key)
            },
            Err(e) => Err(e),
        }
    }
}

} // verus!

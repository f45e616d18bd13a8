//! The key record: a key with its use, operations, id and algorithm.

use vstd::prelude::*;
use crate::error::JwkError;
use crate::json::spec_opt_text;
use crate::key::{Algorithm, Key, KeyUse, KeyView};
use crate::key_ops::KeyOps;

verus! {

/// A key together with what is said about it.
#[derive(PartialEq, Eq)]
pub struct JsonWebKey {
    pub key: Box<Key>,
    pub key_use: Option<KeyUse>,
    pub key_ops: KeyOps,
    pub key_id: Option<String>,
    pub algorithm: Option<Algorithm>,
}

/// What a record is in contracts.
pub struct JsonWebKeyView {
    pub key: KeyView,
    pub key_use: Option<KeyUse>,
    pub key_ops: Set<Seq<char>>,
    pub key_id: Option<Seq<char>>,
    pub algorithm: Option<Algorithm>,
}

impl View for JsonWebKey {
    type V = JsonWebKeyView;

    open spec fn view(&self) -> JsonWebKeyView {
        JsonWebKeyView {
            key: (*self.key)@,
            key_use: self.key_use,
            key_ops: self.key_ops@,
            key_id: spec_opt_text(self.key_id),
            algorithm: self.algorithm,
        }
    }
}

impl JsonWebKeyView {
    /// An algorithm, where one is set, fits the key.
    pub open spec fn algorithm_fits(self) -> bool {
        self.algorithm matches Some(alg) ==> self.key.fits(alg)
    }
}

impl JsonWebKey {
    /// A record of the key alone: no use, no operations, no id, no
    /// algorithm.
    pub fn new(key: Key) -> (r: Self)
        ensures
            r@ == (JsonWebKeyView {
                key: key@,
                key_use: None,
                key_ops: Set::empty(),
                key_id: None,
                algorithm: None,
            }),
    {
        JsonWebKey {
            key: Box::new(key),
            key_use: None,
            key_ops: KeyOps::empty(),
            key_id: None,
            algorithm: None,
        }
    }

    /// Checks that the algorithm fits the key.
    pub fn validate_algorithm(alg: Algorithm, key: &Key) -> (r: Result<(), JwkError>)
        ensures
            r is Ok <==> key@.fits(alg),
            r is Err ==> r matches Err(JwkError::MismatchedAlgorithm),
    {
        if key.algorithm_compatible(alg) {
            Ok(())
        } else {
            Err(JwkError::MismatchedAlgorithm)
        }
    }

    /// Sets the algorithm if it fits the key, and changes nothing if not.
    pub fn set_algorithm(&mut self, alg: Algorithm) -> (r: Result<(), JwkError>)
        ensures
            r is Ok <==> old(self)@.key.fits(alg),
            r is Ok ==> final(self)@ == (JsonWebKeyView { algorithm: Some(alg), ..old(self)@ }),
            final(self).key_ops == old(self).key_ops,
            r is Err ==> (r matches Err(JwkError::MismatchedAlgorithm)) && *final(self) == *old(self),
    {
        match Self::validate_algorithm(alg, &*self.key) {
            Ok(_) => {
                self.algorithm = Some(alg);
                Ok(())
            },
            Err(e) => Err(e),
        }
    }
}

} // verus!

//! The identity store: a persistent signing keypair, a password-gated
//! secret record, and the fingerprint that identifies this instance.
//!
//! The store models the in-memory state of the identity slot. Reading and
//! writing the persisted record, and its encryption at rest, belong to the
//! key-value storage collaborator around the library: `load` is handed the
//! raw key material (and the password the record is held under, standing
//! for the storage layer's trial decryption), and hands parsed state back.

use vstd::prelude::*;

use crate::errors::{AuthError, IdentityError};
use crate::tls::{
    digest_of, generate_secret_key, get_p256_pubkey, fingerprint_hex, hex_of, pubkey_of,
    valid_secret,
};

verus! {

/// A signing keypair: the secret scalar and the public key derived from it.
/// Never constructed except from material the curve accepts, so the public
/// half always matches the secret half.
pub struct Keypair {
    secret: Vec<u8>,
    public: Vec<u8>,
}

impl Keypair {
    /// The secret scalar bytes.
    pub closed spec fn secret_bytes(&self) -> Seq<u8> {
        self.secret@
    }

    /// The SEC1-encoded public key bytes.
    pub closed spec fn public_bytes(&self) -> Seq<u8> {
        self.public@
    }

    /// The public half is derived from the secret half.
    pub closed spec fn wf(&self) -> bool {
        valid_secret(self.secret@) && self.public@ == pubkey_of(self.secret@)
    }

    /// The hex fingerprint of this keypair: a pure function of its public key.
    pub open spec fn fingerprint_spec(&self) -> Seq<char> {
        hex_of(digest_of(self.public_bytes()))
    }

    /// Parses persisted secret material; rejects anything the curve rejects.
    pub fn from_secret(secret: Vec<u8>) -> (r: Result<Keypair, IdentityError>)
        ensures
            (r is Ok) == valid_secret(secret@),
            r matches Ok(k) ==> k.wf() && k.secret_bytes() == secret@
                && k.public_bytes() == pubkey_of(secret@),
            r matches Err(e) ==> e == IdentityError::Corrupt,
    {
        match get_p256_pubkey(&secret) {
            Some(public) => Ok(Keypair { secret, public }),
            None => Err(IdentityError::Corrupt),
        }
    }

    /// Generates a fresh keypair.
    pub fn generate() -> (r: Keypair)
        ensures
            r.wf(),
    {
        let secret = generate_secret_key();
        let public = match get_p256_pubkey(&secret) {
            Some(p) => p,
            // A freshly generated secret always parses back.
            None => Vec::new(),
        };
        Keypair { secret, public }
    }

    /// An independent copy with the same key material.
    pub fn duplicate(&self) -> (r: Keypair)
        ensures
            r.secret_bytes() == self.secret_bytes(),
            r.public_bytes() == self.public_bytes(),
            r.wf() == self.wf(),
    {
        Keypair { secret: dup_bytes(&self.secret), public: dup_bytes(&self.public) }
    }

    /// The raw secret material, for the storage collaborator to persist
    /// (encrypted) after a fresh keypair was generated. Loading these bytes
    /// back restores the same identity.
    pub fn to_secret_bytes(&self) -> (r: Vec<u8>)
        ensures
            r@ == self.secret_bytes(),
    {
        dup_bytes(&self.secret)
    }

    /// The hex-encoded fingerprint: requires nothing but the public half.
    pub fn fingerprint(&self) -> (r: String)
        ensures
            r@ == self.fingerprint_spec(),
            r@.len() == 64,
    {
        fingerprint_hex(&self.public)
    }
}

/// A byte-for-byte copy.
fn dup_bytes(v: &Vec<u8>) -> (r: Vec<u8>)
    ensures
        r@ == v@,
{
    let mut r: Vec<u8> = Vec::new();
    let mut i: usize = 0;
    while i < v.len()
        invariant
            i <= v.len(),
            r@ == v@.subrange(0, i as int),
        decreases v.len() - i,
    {
        r.push(v[i]);
        proof {
            assert(r@ =~= v@.subrange(0, i + 1 as int));
        }
        i = i + 1;
    }
    proof {
        assert(r@ =~= v@);
    }
    r
}

/// The identity slot of one running instance: the loaded keypair, the
/// password the secret record is held under (if any), and the password
/// most recently supplied in this session.
pub struct IdentityStore {
    keypair: Option<Keypair>,
    password: Option<String>,
    supplied: Option<String>,
}

impl IdentityStore {
    /// The loaded keypair, if an identity exists.
    pub closed spec fn keypair_model(&self) -> Option<Keypair> {
        self.keypair
    }

    /// The password the secret record is currently held under.
    pub closed spec fn password_model(&self) -> Option<Seq<char>> {
        match self.password {
            Some(p) => Some(p@),
            None => None,
        }
    }

    /// The password most recently supplied in this session.
    pub closed spec fn supplied_model(&self) -> Option<Seq<char>> {
        match self.supplied {
            Some(p) => Some(p@),
            None => None,
        }
    }

    /// Every loaded keypair came from material the curve accepts.
    pub open spec fn wf(&self) -> bool {
        self.keypair_model() matches Some(k) ==> k.wf()
    }

    /// Whether a keypair is loaded.
    pub open spec fn has_identity(&self) -> bool {
        self.keypair_model() is Some
    }

    /// Whether the secret record is password-protected.
    pub open spec fn requires_password(&self) -> bool {
        self.password_model() is Some
    }

    /// Whether the most recently supplied password opens the record: true
    /// outright when the record is not protected.
    pub open spec fn can_unlock(&self) -> bool {
        match self.password_model() {
            None => true,
            Some(p) => self.supplied_model() == Some(p),
        }
    }

    /// The error unlocking fails with: no password supplied at all is
    /// reported distinctly from a mismatching one.
    pub open spec fn unlock_error(&self) -> AuthError {
        if self.supplied_model() is None {
            AuthError::Locked
        } else {
            AuthError::WrongPassword
        }
    }

    /// The fingerprint of the loaded identity.
    pub open spec fn fingerprint_model(&self) -> Seq<char>
        recommends
            self.has_identity(),
    {
        self.keypair_model().unwrap().fingerprint_spec()
    }

    /// A fresh store with no identity and no password: the state before
    /// first use.
    pub fn new() -> (r: IdentityStore)
        ensures
            r.keypair_model() is None,
            r.password_model() is None,
            r.supplied_model() is None,
            r.wf(),
    {
        IdentityStore { keypair: None, password: None, supplied: None }
    }

    /// Builds the store from what the storage collaborator persisted: the
    /// raw secret material, if any, and the password the record is held
    /// under. Fails with `Corrupt` exactly when material is present but
    /// does not parse. The session starts locked.
    pub fn load(persisted: Option<Vec<u8>>, protection: Option<String>) -> (r: Result<
        IdentityStore,
        IdentityError,
    >)
        ensures
            persisted is None ==> (r matches Ok(s) && s.keypair_model() is None),
            persisted matches Some(b) ==> ((r is Ok) == valid_secret(b@)),
            r matches Ok(s) ==> (match persisted {
                Some(b) => s.keypair_model() matches Some(k) && k.secret_bytes() == b@
                    && k.public_bytes() == pubkey_of(b@),
                None => true,
            }),
            r matches Ok(s) ==> s.wf() && s.supplied_model() is None && s.password_model() == (
            match protection {
                Some(p) => Some(p@),
                None => None::<Seq<char>>,
            }),
            r matches Err(e) ==> e == IdentityError::Corrupt,
    {
        let keypair = match persisted {
            None => None,
            Some(bytes) => match Keypair::from_secret(bytes) {
                Ok(k) => Some(k),
                Err(e) => {
                    return Err(e);
                },
            },
        };
        Ok(IdentityStore { keypair, password: protection, supplied: None })
    }

    /// Returns the loaded keypair, generating and installing a fresh one
    /// first if none exists yet. Within one run, a second call returns a
    /// keypair identical to the first. Persisting the newly created
    /// material is the storage collaborator's step, through `unlock`.
    pub fn ensure_identity(&mut self) -> (r: Keypair)
        requires
            old(self).wf(),
        ensures
            final(self).wf(),
            final(self).has_identity(),
            final(self).password_model() == old(self).password_model(),
            final(self).supplied_model() == old(self).supplied_model(),
            old(self).keypair_model() matches Some(k) ==> (final(self).keypair_model() == old(
                self,
            ).keypair_model() && r.secret_bytes() == k.secret_bytes() && r.public_bytes()
                == k.public_bytes()),
            final(self).keypair_model() matches Some(k) && r.secret_bytes() == k.secret_bytes()
                && r.public_bytes() == k.public_bytes(),
            r.wf(),
    {
        match &self.keypair {
            Some(k) => k.duplicate(),
            None => {
                let fresh = Keypair::generate();
                let out = fresh.duplicate();
                self.keypair = Some(fresh);
                out
            },
        }
    }

    /// Whether a keypair is loaded.
    pub fn identity_loaded(&self) -> (r: bool)
        ensures
            r == self.has_identity(),
    {
        self.keypair.is_some()
    }

    /// Whether the secret record is password-protected.
    pub fn has_password(&self) -> (r: bool)
        ensures
            r == self.requires_password(),
    {
        self.password.is_some()
    }

    /// Records the password the user supplied for this session; later
    /// `unlock` calls are judged against it. Nothing else changes.
    pub fn input_password(&mut self, candidate: String)
        ensures
            final(self).supplied_model() == Some(candidate@),
            final(self).password_model() == old(self).password_model(),
            final(self).keypair_model() == old(self).keypair_model(),
            final(self).wf() == old(self).wf(),
    {
        self.supplied = Some(candidate);
    }

    /// Trial decryption: reports whether `candidate` opens the record,
    /// without touching any state. A record with no password at all is
    /// reported by a distinct error, not as a mismatch.
    pub fn try_password(&self, candidate: &String) -> (r: Result<bool, AuthError>)
        ensures
            self.password_model() matches Some(p) ==> (r matches Ok(b) && b == (candidate@ == p)),
            self.password_model() is None ==> (r matches Err(e) && e == AuthError::NoPasswordSet),
    {
        match &self.password {
            Some(p) => Ok(*candidate == *p),
            None => Err(AuthError::NoPasswordSet),
        }
    }

    /// Re-encrypts the secret record under `new`: succeeds exactly when the
    /// record is unprotected or `old_password` is the password it is held
    /// under. On success the record is held under `new` and the session
    /// holds `new` as the supplied password; on failure nothing changes.
    pub fn set_password(&mut self, old_password: Option<String>, new: String) -> (r: Result<
        (),
        AuthError,
    >)
        ensures
            (r is Ok) == (match old(self).password_model() {
                None => true,
                Some(p) => old_password matches Some(o) && o@ == p,
            }),
            r is Ok ==> final(self).password_model() == Some(new@) && final(self).supplied_model()
                == Some(new@),
            r matches Err(e) ==> e == AuthError::WrongPassword && final(self).password_model()
                == old(self).password_model() && final(self).supplied_model() == old(
                self,
            ).supplied_model(),
            final(self).keypair_model() == old(self).keypair_model(),
            final(self).wf() == old(self).wf(),
    {
        let accepted: bool = match &self.password {
            None => true,
            Some(p) => match &old_password {
                Some(o) => *o == *p,
                None => false,
            },
        };
        if accepted {
            self.supplied = Some(new.clone());
            self.password = Some(new);
            Ok(())
        } else {
            Err(AuthError::WrongPassword)
        }
    }

    /// Hands out the decrypted key material for the duration of one signing
    /// call: succeeds exactly when the record is unprotected or the most
    /// recently supplied password matches the one it is held under.
    pub fn unlock(&self) -> (r: Result<Keypair, AuthError>)
        requires
            self.has_identity(),
        ensures
            (r is Ok) == self.can_unlock(),
            r matches Ok(k) ==> (self.keypair_model() matches Some(kp) && k.secret_bytes()
                == kp.secret_bytes() && k.public_bytes() == kp.public_bytes()),
            r matches Err(e) ==> e == self.unlock_error(),
    {
        let kp = match &self.keypair {
            Some(k) => k,
            None => {
                return Err(AuthError::Locked);
            },
        };
        match &self.password {
            None => Ok(kp.duplicate()),
            Some(p) => match &self.supplied {
                None => Err(AuthError::Locked),
                Some(s) => {
                    if *s == *p {
                        Ok(kp.duplicate())
                    } else {
                        Err(AuthError::WrongPassword)
                    }
                },
            },
        }
    }

    /// The hex fingerprint of the loaded identity: derived from the public
    /// half alone, available without any password having been supplied.
    pub fn fingerprint(&self) -> (r: String)
        requires
            self.has_identity(),
        ensures
            r@ == self.fingerprint_model(),
            r@.len() == 64,
    {
        match &self.keypair {
            Some(k) => k.fingerprint(),
            None => String::new(),
        }
    }
}

/// The fingerprint is deterministic: identical key material always yields
/// the identical fingerprint, on any two stores.
pub proof fn lemma_fingerprint_deterministic(a: IdentityStore, b: IdentityStore)
    requires
        a.has_identity(),
        b.has_identity(),
        a.wf(),
        b.wf(),
        a.keypair_model().unwrap().secret_bytes() == b.keypair_model().unwrap().secret_bytes(),
    ensures
        a.fingerprint_model() == b.fingerprint_model(),
{
}

/// After a password rotation the record is held under the new password:
/// a session that supplies the new password can unlock, and one that
/// supplies the stale old password cannot and is told the password is
/// wrong. `set_password` ensures exactly the state this law speaks of.
pub proof fn lemma_password_rotation(s: IdentityStore, old_pw: Seq<char>, new_pw: Seq<char>)
    requires
        s.password_model() == Some(new_pw),
        old_pw != new_pw,
    ensures
        s.supplied_model() == Some(new_pw) ==> s.can_unlock(),
        s.supplied_model() == Some(old_pw) ==> !s.can_unlock() && s.unlock_error()
            == AuthError::WrongPassword,
{
}

/// Unlocking succeeds exactly when the most recently supplied password is
/// the one the record is held under (or the record is unprotected); a
/// session that never supplied one is `Locked`, a mismatching one is
/// `WrongPassword`.
pub proof fn lemma_unlock_iff(s: IdentityStore)
    ensures
        s.can_unlock() <==> (s.password_model() is None || s.supplied_model()
            == s.password_model()),
        !s.can_unlock() && s.supplied_model() is None ==> s.unlock_error() == AuthError::Locked,
        !s.can_unlock() && s.supplied_model() is Some ==> s.unlock_error()
            == AuthError::WrongPassword,
{
}

} // verus!

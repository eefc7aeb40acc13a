//! Users and the credential engine.
//!
//! A credential is derived from a password by a salted, computationally
//! expensive key-derivation function (PBKDF2 with HMAC-SHA-256). The salt
//! combines a fixed application-wide component with the username bytes; the
//! derivation is deterministic, so two derivations for the same username and
//! password agree. The raw password is never stored.

use crate::error::UserError;
use crate::resource::DocId;
use vstd::prelude::*;
use vstd::slice::slice_to_vec;
use vstd::utf8::encode_utf8;

verus! {

/// Fixed application-wide component of every derivation salt.
pub const SALT_COMPONENT: [u8; 16] = [
    0xd6,
    0x26,
    0x98,
    0xda,
    0xf4,
    0xdc,
    0x50,
    0x52,
    0x24,
    0xf2,
    0x27,
    0xd1,
    0xfe,
    0x39,
    0x01,
    0x8a,
];

/// Iteration count of the key-derivation function.
pub const PBKDF2_ITER: u32 = 100000;

/// Length in bytes of a derived credential (the SHA-256 output length).
pub const CREDENTIAL_LEN: usize = 32;

/// The derived key that PBKDF2 with HMAC-SHA-256, [`PBKDF2_ITER`] iterations
/// and a derived-key length of [`CREDENTIAL_LEN`] bytes produces for the
/// given salt and password bytes. The result is a function of the arguments
/// alone.
pub uninterp spec fn pbkdf2_hmac_sha256(salt: Seq<u8>, password: Seq<u8>) -> Seq<u8>;

/// The salt used to derive a credential for `username`: the fixed component
/// followed by the UTF-8 bytes of the username.
pub open spec fn spec_salt(username: Seq<char>) -> Seq<u8> {
    SALT_COMPONENT@ + encode_utf8(username)
}

/// The credential stored for a user who registered with the given username
/// and password.
pub open spec fn spec_credential(username: Seq<char>, password: Seq<char>) -> Seq<u8> {
    pbkdf2_hmac_sha256(spec_salt(username), encode_utf8(password))
}

/// Relies on `ring::pbkdf2::derive` with `PBKDF2_HMAC_SHA256`: it fills the
/// output buffer with the RFC 2898 PBKDF2 derived key for the given salt,
/// secret and iteration count; the derived key is a function of those
/// arguments and the buffer length alone.
#[verifier::external_body]
fn derive_credential(salt: &Vec<u8>, password: &str) -> (r: Vec<u8>)
    ensures
        r@ == pbkdf2_hmac_sha256(salt@, encode_utf8(password@)),
        r@.len() == CREDENTIAL_LEN,
{
    let mut out = [0u8; CREDENTIAL_LEN];
    let iterations = core::num::NonZeroU32::new(PBKDF2_ITER).unwrap();
    ring::pbkdf2::derive(
        ring::pbkdf2::PBKDF2_HMAC_SHA256,
        iterations,
        salt.as_slice(),
        password.as_bytes(),
        &mut out,
    );
    out.to_vec()
}

/// Relies on `ring::pbkdf2::verify` with `PBKDF2_HMAC_SHA256`: it recomputes
/// the PBKDF2 derived key of `stored.len()` bytes from the given salt, secret
/// and iteration count and compares it against `stored` in constant time,
/// returning `Ok` exactly when they match.
#[verifier::external_body]
fn verify_credential(salt: &Vec<u8>, password: &str, stored: &Vec<u8>) -> (r: bool)
    requires
        stored@.len() == CREDENTIAL_LEN,
    ensures
        r == (pbkdf2_hmac_sha256(salt@, encode_utf8(password@)) == stored@),
{
    let iterations = core::num::NonZeroU32::new(PBKDF2_ITER).unwrap();
    ring::pbkdf2::verify(
        ring::pbkdf2::PBKDF2_HMAC_SHA256,
        iterations,
        salt.as_slice(),
        password.as_bytes(),
        stored.as_slice(),
    ).is_ok()
}

/// An inbound authentication request: a username and a raw password.
pub struct UserReq {
    username: String,
    password: String,
}

/// Mathematical model of a [`UserReq`].
#[verifier::ext_equal]
pub struct UserReqView {
    pub username: Seq<char>,
    pub password: Seq<char>,
}

impl View for UserReq {
    type V = UserReqView;

    closed spec fn view(&self) -> UserReqView {
        UserReqView { username: self.username@, password: self.password@ }
    }
}

impl UserReq {
    /// Builds a request from its two parts.
    pub fn new(username: String, password: String) -> (r: UserReq)
        ensures
            r@.username == username@,
            r@.password == password@,
    {
        UserReq { username, password }
    }

    /// The requested username.
    pub fn get_username(&self) -> (r: String)
        ensures
            r@ == self@.username,
    {
        self.username.clone()
    }
}

/// A registered user: the unique username, the derived credential, and the
/// identifier the metadata store assigned on persistence. Immutable after
/// registration; no password change is modeled.
pub struct User {
    id: Option<DocId>,
    username: String,
    credential: Vec<u8>,
}

/// Mathematical model of a [`User`].
#[verifier::ext_equal]
pub struct UserView {
    pub id: Option<DocId>,
    pub username: Seq<char>,
    pub credential: Seq<u8>,
}

impl View for User {
    type V = UserView;

    closed spec fn view(&self) -> UserView {
        UserView { id: self.id, username: self.username@, credential: self.credential@ }
    }
}

impl Clone for User {
    /// Clones the record, keeping identifier, username and credential.
    fn clone(&self) -> (r: Self)
        ensures
            r@ == self@,
    {
        let credential = self.credential.clone();
        proof {
            assert(credential@ =~= self.credential@);
        }
        User { id: self.id, username: self.username.clone(), credential }
    }
}

impl User {
    /// A well-formed user carries a credential of the fixed derived length.
    pub open spec fn wf(&self) -> bool {
        self@.credential.len() == CREDENTIAL_LEN
    }

    /// Registers a user: derives the credential for the requested username
    /// and password. The store assigns the identifier later.
    pub fn new(req: &UserReq) -> (u: User)
        ensures
            u@.id is None,
            u@.username == req@.username,
            u@.credential == spec_credential(req@.username, req@.password),
            u.wf(),
    {
        let salt = Self::salt(&req.username);
        let credential = derive_credential(&salt, &req.password);
        User { id: None, username: req.username.clone(), credential }
    }

    /// The salt for deriving `username`'s credential: the fixed component
    /// followed by the username bytes.
    pub fn salt(username: &str) -> (r: Vec<u8>)
        ensures
            r@ == spec_salt(username@),
    {
        let mut r = slice_to_vec(SALT_COMPONENT.as_slice());
        let mut user_bytes = slice_to_vec(username.as_bytes());
        r.append(&mut user_bytes);
        r
    }

    /// Verifies a login request against this user's stored credential: the
    /// salt is recomputed from the requested username and the derivation is
    /// re-run; the result is `Ok` exactly when it reproduces the stored
    /// credential.
    pub fn login(&self, user: &UserReq) -> (r: Result<(), UserError>)
        requires
            self.wf(),
        ensures
            r is Ok <==> self@.credential == spec_credential(user@.username, user@.password),
            r is Err ==> r == Err::<(), UserError>(UserError::MismatchingCredential),
    {
        let salt = Self::salt(&user.username);
        if verify_credential(&salt, &user.password, &self.credential) {
            Ok(())
        } else {
            Err(UserError::MismatchingCredential)
        }
    }

    /// The username.
    pub fn get_username(&self) -> (r: String)
        ensures
            r@ == self@.username,
    {
        self.username.clone()
    }

    /// The identifier assigned by the metadata store, if the user has been
    /// persisted.
    pub fn get_id(&self) -> (r: Option<DocId>)
        ensures
            r == self@.id,
    {
        self.id
    }

    /// Rebuilds a user record from its stored parts, as the metadata store
    /// hands them back.
    pub fn from_parts(id: Option<DocId>, username: String, credential: Vec<u8>) -> (u: User)
        ensures
            u@.id == id,
            u@.username == username@,
            u@.credential == credential@,
    {
        User { id, username, credential }
    }

    /// The stored credential bytes.
    pub fn get_credential(&self) -> (r: &Vec<u8>)
        ensures
            r@ == self@.credential,
    {
        &self.credential
    }

    /// The same user under the identifier the store assigned.
    pub fn with_id(self, id: DocId) -> (u: User)
        ensures
            u@.id == Some(id),
            u@.username == self@.username,
            u@.credential == self@.credential,
    {
        User { id: Some(id), username: self.username, credential: self.credential }
    }
}

} // verus!

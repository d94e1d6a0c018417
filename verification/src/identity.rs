use vstd::prelude::*;
use crate::error::Error;
use crate::paths::{get_root_dir, is_node_root_dir, is_path_join, may_be_verbatim, needs_separator, secret_key_path};
use crate::peer_id::{PeerId, is_peer_id_bytes};
use crate::text::concat;

verus! {

#[verifier::external_type_specification]
#[verifier::external_body]
pub struct ExKeypair(libp2p_identity::Keypair);

/// The peer id, as bytes, of the keypair that `Keypair::ed25519_from_bytes` makes
/// from this 32-byte secret.
pub uninterp spec fn ed25519_peer_id(secret: Seq<u8>) -> Seq<u8>;

/// What `keypair.public().to_peer_id().to_bytes()` gives for a keypair: the bytes
/// of the peer id of its public key.
pub uninterp spec fn keypair_peer_id(keypair: libp2p_identity::Keypair) -> Seq<u8>;

/// The text of the error `Keypair::ed25519_from_bytes` gives for bytes that are
/// not a 32-byte secret.
pub open spec fn key_decoding_error_text() -> Seq<char> {
    "Key decoding error: failed to parse Ed25519 secret key"@
}

/// Calls `libp2p_identity::Keypair::ed25519_from_bytes` on a copy of the bytes.
/// Claimed, from the source: it succeeds exactly when there are 32 bytes, and
/// otherwise fails with a `DecodingError` that displays as
/// [`key_decoding_error_text`]; the keypair it makes is determined by the
/// secret, so its peer id is the named `ed25519_peer_id` of the secret.
#[verifier::external_body]
fn ed25519_keypair_from_bytes(secret: &Vec<u8>) -> (r: Result<libp2p_identity::Keypair, String>)
    ensures
        r is Ok <==> secret@.len() == 32,
        r matches Err(m) ==> m@ == key_decoding_error_text(),
        r matches Ok(kp) ==> keypair_peer_id(kp) == ed25519_peer_id(secret@),
{
    libp2p_identity::Keypair::ed25519_from_bytes(secret.clone()).map_err(|e| e.to_string())
}

/// Calls `keypair.public().to_peer_id()` and hands back the id's bytes. Claimed:
/// the result is the named `keypair_peer_id` of the keypair, and a well-formed
/// peer id (an identity or SHA-256 multihash of the encoded public key, which
/// `PeerId::from_bytes` reads back as itself).
#[verifier::external_body]
fn keypair_peer_id_bytes(keypair: &libp2p_identity::Keypair) -> (r: Vec<u8>)
    ensures
        r@ == keypair_peer_id(*keypair),
        is_peer_id_bytes(r@),
{
    keypair.public().to_peer_id().to_bytes()
}

/// Calls `libp2p_identity::ed25519::SecretKey::generate` and hands back its 32
/// bytes. The bytes are random; only their number is stated.
#[verifier::external_body]
fn generate_ed25519_secret() -> (r: Vec<u8>)
    ensures
        r@.len() == 32,
{
    libp2p_identity::ed25519::SecretKey::generate().as_ref().to_vec()
}

/// A node's identity: its 32-byte ed25519 secret, and the peer id of the keypair
/// made from it. The keypair itself is made from the secret when asked for.
pub struct NodeIdentity {
    secret: Vec<u8>,
    peer_id: PeerId,
}

impl View for NodeIdentity {
    type V = Seq<u8>;

    /// The identity's secret.
    closed spec fn view(&self) -> Seq<u8> {
        self.secret@
    }
}

impl NodeIdentity {
    #[verifier::type_invariant]
    spec fn well_formed(self) -> bool {
        &&& self.secret@.len() == 32
        &&& self.peer_id@ == ed25519_peer_id(self.secret@)
    }

    /// The identity's secret, 32 bytes.
    pub fn secret(&self) -> (r: &Vec<u8>)
        ensures
            r@ == self@,
            r@.len() == 32,
    {
        proof {
            use_type_invariant(self);
        }
        &self.secret
    }

    /// The identity's peer id: that of the keypair made from its secret.
    pub fn peer_id(&self) -> (r: &PeerId)
        ensures
            r@ == ed25519_peer_id(self@),
            self@.len() == 32,
    {
        proof {
            use_type_invariant(self);
        }
        &self.peer_id
    }

    /// The ed25519 keypair made from the identity's secret
    /// (`Keypair::ed25519_from_bytes`, which cannot fail on its 32 bytes); its
    /// peer id is the identity's.
    pub fn keypair(&self) -> (r: libp2p_identity::Keypair)
        ensures
            keypair_peer_id(r) == ed25519_peer_id(self@),
    {
        proof {
            use_type_invariant(self);
        }
        match ed25519_keypair_from_bytes(&self.secret) {
            Ok(keypair) => keypair,
            Err(_) => vstd::pervasive::unreached(),
        }
    }
}

/// The identity made from a secret: there is one exactly when the secret has 32
/// bytes (`Keypair::ed25519_from_bytes` decides), and its peer id is that of the
/// secret's keypair.
pub fn identity_from_secret(secret: Vec<u8>) -> (r: Result<NodeIdentity, Error>)
    ensures
        match r {
            Ok(id) => secret@.len() == 32 && id@ == secret@,
            Err(e) => secret@.len() != 32 && (e matches Error::SecretKey(m) && m@ == key_decoding_error_text()),
        },
{
    match ed25519_keypair_from_bytes(&secret) {
        Ok(keypair) => {
            let peer_bytes = keypair_peer_id_bytes(&keypair);
            let peer_id = PeerId::from_well_formed_bytes(peer_bytes);
            Ok(NodeIdentity { secret, peer_id })
        },
        Err(m) => Err(Error::SecretKey(m)),
    }
}

/// A new identity made from a random secret.
pub fn generate_identity() -> (r: NodeIdentity)
    ensures
        r@.len() == 32,
{
    let secret = generate_ed25519_secret();
    match identity_from_secret(secret) {
        Ok(id) => id,
        Err(_) => vstd::pervasive::unreached(),
    }
}

/// What reading the secret-key file came to.
pub enum KeyFileRead {
    /// The file was read; these are its bytes.
    Contents(Vec<u8>),
    /// There is no such file.
    NotFound,
    /// The file could not be read, with this error.
    Failed(String),
}

/// The text of the error when the file does not hold a key.
pub open spec fn unreadable_key_text() -> Seq<char> {
    "could not read ed25519 key from file: "@ + key_decoding_error_text()
}

/// The text of the error when the file could not be read.
pub open spec fn key_file_failure_text(err: Seq<char>) -> Seq<char> {
    "failed to read secret key file: "@ + err
}

/// The node's identity from the key file's contents: the file's secret when it
/// was read, a new random one (to be written to the file, `true`) when there is
/// no file, and an error when the file holds no 32-byte secret or cannot be read.
pub fn keypair_from_path(read: KeyFileRead) -> (r: Result<(NodeIdentity, bool), Error>)
    ensures
        match read {
            KeyFileRead::Contents(bytes) => if bytes@.len() == 32 {
                r matches Ok((id, write)) && !write && id@ == bytes@
            } else {
                r matches Err(Error::SecretKey(m)) && m@ == unreadable_key_text()
            },
            KeyFileRead::NotFound => r matches Ok((id, write)) && write && id@.len() == 32,
            KeyFileRead::Failed(e) => r matches Err(Error::SecretKey(m)) && m@ == key_file_failure_text(
                e@,
            ),
        },
{
    match read {
        KeyFileRead::Contents(bytes) => match identity_from_secret(bytes) {
            Ok(id) => Ok((id, false)),
            Err(e) => {
                let m = e.message();
                Err(Error::SecretKey(concat("could not read ed25519 key from file: ", m.as_str())))
            },
        },
        KeyFileRead::NotFound => Ok((generate_identity(), true)),
        KeyFileRead::Failed(e) => Err(
            Error::SecretKey(concat("failed to read secret key file: ", e.as_str())),
        ),
    }
}

/// The error when the secret-key file could not be created.
pub fn secret_key_file_error(err: &str) -> (r: Error)
    ensures
        r matches Error::SecretKey(m) && m@ == "could not create secret key file: "@ + err@,
{
    Error::SecretKey(concat("could not create secret key file: ", err))
}

/// Where the node keeps its data and key.
pub enum RootDirPlan {
    /// The directory given: its key file is read (or created) next.
    Given { dir: String, secret_key_path: String },
    /// No directory given: a new identity, whose directory is named after its
    /// peer id; its secret is written to the key file there.
    Fresh { dir: String, secret_key_path: String, identity: NodeIdentity },
}

/// Decides the node's root directory. The key is kept inside it; when no directory
/// is given, a new key is made and the directory is named after its peer id
/// under the data directory, which must then be known.
pub fn get_root_dir_and_keypair(root_dir: &Option<String>, data_dir: Option<&str>) -> (r: Result<
    RootDirPlan,
    Error,
>)
    ensures
        match root_dir {
            Some(dir) => r matches Ok(RootDirPlan::Given { dir: d, secret_key_path: k }) && d@ == dir@
                && (!may_be_verbatim(dir@) ==> is_path_join(k@, dir@, "secret-key"@)),
            None => match data_dir {
                None => r matches Err(Error::RootDirectoryNotObtainable),
                Some(data) => r matches Ok(RootDirPlan::Fresh { dir: d, secret_key_path: k, identity: id })
                    && id@.len() == 32 && (!may_be_verbatim(data@) ==> is_node_root_dir(
                    d@,
                    data@,
                    ed25519_peer_id(id@),
                ) && needs_separator(d@) && !may_be_verbatim(d@) && is_path_join(
                    k@,
                    d@,
                    "secret-key"@,
                )),
            },
        },
{
    match root_dir {
        Some(dir) => Ok(
            RootDirPlan::Given { dir: dir.clone(), secret_key_path: secret_key_path(dir.as_str()) },
        ),
        None => {
            let identity = generate_identity();
            let dir = match get_root_dir(data_dir, identity.peer_id()) {
                Ok(d) => d,
                Err(e) => return Err(e),
            };
            let key_path = secret_key_path(dir.as_str());
            Ok(RootDirPlan::Fresh { dir, secret_key_path: key_path, identity })
        },
    }
}

} // verus!

use vstd::prelude::*;

verus! {

/// What `libp2p_identity::PeerId::from_bytes` gives for these bytes: the bytes of
/// the parsed id (`PeerId::to_bytes`), or the text of the parse error.
pub uninterp spec fn peer_id_from_bytes_result(bytes: Seq<u8>) -> Result<Seq<u8>, Seq<char>>;

/// What `libp2p_identity::PeerId::to_base58` gives for the id with these bytes.
pub uninterp spec fn peer_id_base58(bytes: Seq<u8>) -> Seq<char>;

/// What `<libp2p_identity::PeerId as FromStr>::from_str` gives for this text: the
/// bytes of the parsed id, or the text of the parse error.
pub uninterp spec fn peer_id_from_str_result(text: Seq<char>) -> Result<Seq<u8>, Seq<char>>;

/// A character of the base-58 (Bitcoin) alphabet: digits and letters other than
/// `0`, `O`, `I` and `l`.
pub open spec fn is_base58_char(c: char) -> bool {
    ||| ('1' <= c && c <= '9')
    ||| ('A' <= c && c <= 'H')
    ||| ('J' <= c && c <= 'N')
    ||| ('P' <= c && c <= 'Z')
    ||| ('a' <= c && c <= 'k')
    ||| ('m' <= c && c <= 'z')
}

/// A non-empty text of base-58 characters.
pub open spec fn is_base58_text(s: Seq<char>) -> bool {
    s.len() > 0 && forall|i: int| 0 <= i < s.len() ==> is_base58_char(#[trigger] s[i])
}

/// The bytes of a well-formed peer id: `from_bytes` accepts them and gives them back.
pub open spec fn is_peer_id_bytes(bytes: Seq<u8>) -> bool {
    peer_id_from_bytes_result(bytes) == Ok::<Seq<u8>, Seq<char>>(bytes)
}

/// Identifier of a peer of the network, held as the bytes of its multihash.
pub struct PeerId {
    bytes: Vec<u8>,
}

impl View for PeerId {
    type V = Seq<u8>;

    closed spec fn view(&self) -> Seq<u8> {
        self.bytes@
    }
}

impl PeerId {
    #[verifier::type_invariant]
    spec fn well_formed(self) -> bool {
        is_peer_id_bytes(self.bytes@)
    }

    /// Parses a peer id from its byte form (`PeerId::from_bytes`).
    pub fn from_bytes(bytes: &[u8]) -> (r: Result<PeerId, crate::error::Error>)
        ensures
            match peer_id_from_bytes_result(bytes@) {
                Ok(b) => r matches Ok(p) && p@ == b,
                Err(msg) => r matches Err(crate::error::Error::PeerIdParse(m)) && m@ == msg,
            },
    {
        match libp2p_peer_id_from_bytes(bytes) {
            Ok(b) => {
                Ok(PeerId { bytes: b })
            },
            Err(m) => Err(crate::error::Error::PeerIdParse(m)),
        }
    }

    /// The id with these bytes, which are known to be those of a well-formed id.
    pub(crate) fn from_well_formed_bytes(bytes: Vec<u8>) -> (r: PeerId)
        requires
            is_peer_id_bytes(bytes@),
        ensures
            r@ == bytes@,
    {
        PeerId { bytes }
    }

    /// The byte form of the id (`PeerId::to_bytes`).
    pub fn to_bytes(&self) -> (r: Vec<u8>)
        ensures
            r@ == self@,
    {
        let r = self.bytes.clone();
        assert(r@ =~= self.bytes@);
        r
    }

    /// The base-58 text of the id, as `Display` shows it.
    pub fn to_base58(&self) -> (r: String)
        ensures
            r@ == peer_id_base58(self@),
            is_base58_text(r@),
            is_peer_id_bytes(self@),
    {
        proof {
            use_type_invariant(self);
        }
        libp2p_peer_id_to_base58(&self.bytes)
    }

    /// Parses a peer id from its base-58 text (`PeerId::from_str`).
    pub fn from_base58(text: &str) -> (r: Result<PeerId, crate::error::Error>)
        ensures
            match peer_id_from_str_result(text@) {
                Ok(b) => r matches Ok(p) && p@ == b,
                Err(msg) => r matches Err(crate::error::Error::PeerIdParse(m)) && m@ == msg,
            },
            forall|b: Seq<u8>| #![auto]
                is_peer_id_bytes(b) && text@ == peer_id_base58(b) ==> (r matches Ok(p) && p@ == b),
    {
        match libp2p_peer_id_from_str(text) {
            Ok(b) => {
                Ok(PeerId { bytes: b })
            },
            Err(m) => Err(crate::error::Error::PeerIdParse(m)),
        }
    }

    /// Whether two ids are the same id.
    pub fn same_as(&self, other: &PeerId) -> (r: bool)
        ensures
            r == (self@ == other@),
    {
        let n = self.bytes.len();
        if n != other.bytes.len() {
            return false;
        }
        let mut i: usize = 0;
        while i < n
            invariant
                n == self.bytes.len(),
                n == other.bytes.len(),
                i <= n,
                forall|j: int| 0 <= j < i ==> self.bytes@[j] == other.bytes@[j],
            decreases n - i,
        {
            if self.bytes[i] != other.bytes[i] {
                return false;
            }
            i = i + 1;
        }
        assert(self.bytes@ =~= other.bytes@);
        true
    }

    /// A second value of the same id.
    pub fn duplicate(&self) -> (r: PeerId)
        ensures
            r@ == self@,
    {
        proof {
            use_type_invariant(self);
        }
        let b = self.bytes.clone();
        assert(b@ =~= self.bytes@);
        PeerId { bytes: b }
    }
}

/// Calls `libp2p_identity::PeerId::from_bytes` and hands back the parsed id's
/// `to_bytes`, or the parse error's text. Claimed: the result is the named
/// `peer_id_from_bytes_result` of the input, and bytes that came out of a parse
/// parse again to themselves (a multihash is written back as it was read;
/// `peer_id_into_bytes_then_from_bytes` in the crate's tests).
#[verifier::external_body]
fn libp2p_peer_id_from_bytes(bytes: &[u8]) -> (r: Result<Vec<u8>, String>)
    ensures
        match r {
            Ok(b) => peer_id_from_bytes_result(bytes@) == Ok::<Seq<u8>, Seq<char>>(b@),
            Err(m) => peer_id_from_bytes_result(bytes@) == Err::<Seq<u8>, Seq<char>>(m@),
        },
        r matches Ok(b) ==> is_peer_id_bytes(b@),
{
    match libp2p_identity::PeerId::from_bytes(bytes) {
        Ok(p) => Ok(p.to_bytes()),
        Err(e) => Err(e.to_string()),
    }
}

/// Calls `libp2p_identity::PeerId::to_base58` on the id with these bytes.
/// Claimed: the result is the named `peer_id_base58` of the bytes, and it is a
/// non-empty text of the Bitcoin base-58 alphabet (`bs58::encode` with its
/// default alphabet, of the id's bytes, which are never empty). The bytes
/// must be those of a well-formed id, on which `from_bytes` cannot fail.
#[verifier::external_body]
fn libp2p_peer_id_to_base58(bytes: &Vec<u8>) -> (r: String)
    requires
        is_peer_id_bytes(bytes@),
    ensures
        r@ == peer_id_base58(bytes@),
        is_base58_text(r@),
{
    libp2p_identity::PeerId::from_bytes(bytes).expect("well-formed peer id").to_base58()
}

/// Calls `<libp2p_identity::PeerId as FromStr>::from_str` and hands back the
/// parsed id's `to_bytes`, or the parse error's text. Claimed: the result is the
/// named `peer_id_from_str_result` of the text; what comes out is a well-formed
/// id; and the base-58 text of a well-formed id parses back to that id (base-58
/// decoding undoes encoding, and `from_bytes` undoes `to_bytes`:
/// `peer_id_to_base58_then_back` in the crate's tests).
#[verifier::external_body]
fn libp2p_peer_id_from_str(text: &str) -> (r: Result<Vec<u8>, String>)
    ensures
        match r {
            Ok(b) => peer_id_from_str_result(text@) == Ok::<Seq<u8>, Seq<char>>(b@),
            Err(m) => peer_id_from_str_result(text@) == Err::<Seq<u8>, Seq<char>>(m@),
        },
        r matches Ok(b) ==> is_peer_id_bytes(b@),
        match r {
            Ok(v) => forall|b: Seq<u8>| #![auto]
                is_peer_id_bytes(b) && text@ == peer_id_base58(b) ==> v@ == b,
            Err(_) => forall|b: Seq<u8>| #![auto]
                is_peer_id_bytes(b) ==> text@ != peer_id_base58(b),
        },
{
    match <libp2p_identity::PeerId as std::str::FromStr>::from_str(text) {
        Ok(p) => Ok(p.to_bytes()),
        Err(e) => Err(e.to_string()),
    }
}

} // verus!

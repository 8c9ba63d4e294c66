//! The name a player goes by on the network, framed for the handshake.

use vstd::prelude::*;
use vstd::bytes::{
    lemma_auto_spec_u64_to_from_le_bytes, spec_u64_from_le_bytes, spec_u64_to_le_bytes,
    u64_from_le_bytes, u64_to_le_bytes,
};
use vstd::string::StringSliceAdditionalSpecFns;
use vstd::utf8::{
    decode_utf8, encode_utf8, encode_utf8_decode_utf8, encode_utf8_valid_utf8, valid_utf8,
};

verus! {

/// The protocol the game speaks.
pub const PROTOCOL_ID: u64 = 1000;

/// The port the server listens on.
pub const PORT: u16 = 42096;

/// The size of the user data of a handshake.
pub const NETCODE_USER_DATA_BYTES: usize = 256;

/// The room for the name in the user data: what the length leaves.
pub const NAME_BYTES: usize = 248;

/// A player's name on the network.
pub struct Username(pub String);

/// The user data that frames a name: eight bytes with the length of the
/// name, least significant byte first, then the bytes of the name, then
/// zeros up to the full size.
pub open spec fn framed(name: Seq<u8>) -> Seq<u8> {
    spec_u64_to_le_bytes(name.len() as u64) + name + Seq::new(
        (NAME_BYTES - name.len()) as nat,
        |i: int| 0u8,
    )
}

/// The bytes of the name that user data frames: as many as the first eight
/// bytes say, and no more than there is room for.
pub open spec fn framed_name(user_data: Seq<u8>) -> Seq<u8> {
    let said = spec_u64_from_le_bytes(user_data.subrange(0, 8));
    let len = if said <= NAME_BYTES {
        said as int
    } else {
        NAME_BYTES as int
    };
    user_data.subrange(8, 8 + len)
}

/// `String::from_utf8` on bytes that are UTF-8: the string they spell.
#[verifier::external_body]
fn string_from_utf8(bytes: Vec<u8>) -> (s: String)
    requires
        valid_utf8(bytes@),
    ensures
        s@ == decode_utf8(bytes@),
{
    String::from_utf8(bytes).unwrap()
}

impl Username {
    /// The bytes of the name.
    pub open spec fn bytes(&self) -> Seq<u8> {
        encode_utf8(self.0@)
    }

    /// Frames the name as user data. The name must fit in the room there
    /// is for it.
    pub fn to_netcode_user_data(&self) -> (user_data: [u8; 256])
        requires
            self.bytes().len() <= NAME_BYTES,
        ensures
            user_data@ == framed(self.bytes()),
    {
        let mut user_data = [0u8; 256];
        let name = self.0.as_str().as_bytes();
        let len = u64_to_le_bytes(name.len() as u64);
        let mut i: usize = 0;
        while i < 8
            invariant
                i <= 8,
                len@ == spec_u64_to_le_bytes(name@.len() as u64),
                len@.len() == 8,
                forall|k: int| 0 <= k < i ==> user_data[k] == len[k],
                forall|k: int| i <= k < 256 ==> user_data[k] == 0,
            decreases 8 - i,
        {
            user_data[i] = len[i];
            i += 1;
        }
        let mut j: usize = 0;
        while j < name.len()
            invariant
                j <= name@.len() <= NAME_BYTES,
                len@.len() == 8,
                forall|k: int| 0 <= k < 8 ==> user_data[k] == len[k],
                forall|k: int| 0 <= k < j ==> user_data[8 + k] == name[k],
                forall|k: int| 8 + j <= k < 256 ==> user_data[k] == 0,
            decreases name.len() - j,
        {
            user_data[8 + j] = name[j];
            j += 1;
        }
        assert(user_data@ =~= framed(self.bytes()));
        user_data
    }
}

/// The bytes of the name that user data frames.
pub fn name_bytes(user_data: &[u8; 256]) -> (name: Vec<u8>)
    ensures
        name@ == framed_name(user_data@),
{
    let mut buffer: Vec<u8> = Vec::new();
    let mut i: usize = 0;
    while i < 8
        invariant
            i <= 8,
            buffer@ == user_data@.subrange(0, i as int),
        decreases 8 - i,
    {
        buffer.push(user_data[i]);
        i += 1;
        assert(buffer@ =~= user_data@.subrange(0, i as int));
    }
    let said = u64_from_le_bytes(buffer.as_slice());
    let len: usize = if said <= NAME_BYTES as u64 {
        said as usize
    } else {
        NAME_BYTES
    };
    let mut data: Vec<u8> = Vec::new();
    let mut j: usize = 0;
    while j < len
        invariant
            j <= len <= NAME_BYTES,
            data@ == user_data@.subrange(8, 8 + j),
        decreases len - j,
    {
        data.push(user_data[8 + j]);
        j += 1;
        assert(data@ =~= user_data@.subrange(8, 8 + j));
    }
    data
}

impl Username {
    /// Reads the name that user data frames. The bytes of the name must
    /// be UTF-8.
    pub fn from_user_data(user_data: &[u8; 256]) -> (name: Self)
        requires
            valid_utf8(framed_name(user_data@)),
        ensures
            name.0@ == decode_utf8(framed_name(user_data@)),
    {
        Self(string_from_utf8(name_bytes(user_data)))
    }
}

/// User data that frames a name has the full size and frames that name: a
/// name that was framed is read back as it was.
pub proof fn lemma_frame_round_trip(name: Seq<char>)
    requires
        encode_utf8(name).len() <= NAME_BYTES,
    ensures
        framed(encode_utf8(name)).len() == NETCODE_USER_DATA_BYTES,
        framed_name(framed(encode_utf8(name))) == encode_utf8(name),
        valid_utf8(framed_name(framed(encode_utf8(name)))),
        decode_utf8(framed_name(framed(encode_utf8(name)))) == name,
{
    lemma_auto_spec_u64_to_from_le_bytes();
    encode_utf8_valid_utf8(name);
    encode_utf8_decode_utf8(name);
    let bytes = encode_utf8(name);
    let len = spec_u64_to_le_bytes(bytes.len() as u64);
    assert(framed(bytes).subrange(0, 8) =~= len);
    assert(framed(bytes).subrange(8, 8 + bytes.len() as int) =~= bytes);
}

} // verus!

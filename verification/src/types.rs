use vstd::prelude::*;
use crate::hex::{
    decode, decode_encode, decode_hex, encode, encode_hex, is_hex, is_hex_of, HexError,
};

verus! {

/// Delivery guarantee requested for an uplink.
#[derive(Debug, Clone, Copy, PartialEq, Eq, Structural)]
pub enum QoS {
    Unconfirmed,
    Confirmed,
}

/// How a module reset is carried out.
#[derive(Debug, Clone, Copy, PartialEq, Eq, Structural)]
pub enum ResetMode {
    Restart,
    Reload,
}

/// Strategy by which the device gets a session with the network.
#[derive(Debug, Clone, Copy, PartialEq, Eq, Structural)]
pub enum ConnectMode {
    OTAA,
    ABP,
}

/// Operating mode: joined to a network, or point to point.
#[derive(Debug, Clone, Copy, PartialEq, Eq, Structural)]
pub enum LoraMode {
    WAN,
    P2P,
}

impl LoraMode {
    /// The number that stands for the mode on the wire: 0 for WAN, 1 for P2P.
    pub fn code(self) -> (r: u8)
        ensures
            r == (if self == LoraMode::WAN { 0u8 } else { 1u8 }),
    {
        match self {
            LoraMode::WAN => 0,
            LoraMode::P2P => 1,
        }
    }
}

/// Regional band plan.
#[derive(Debug, Clone, Copy, PartialEq, Eq, Structural)]
pub enum LoraRegion {
    EU868,
    US915,
    AU915,
    KR920,
    AS923,
    IN865,
    UNKNOWN,
}

/// Application port of a data frame.
pub type Port = u8;

/// Short address of the device in its network: four bytes.
#[derive(Debug, Clone, Copy, PartialEq, Eq)]
pub struct DevAddr([u8; 4]);

impl View for DevAddr {
    type V = Seq<u8>;

    closed spec fn view(&self) -> Seq<u8> {
        self.0@
    }
}

impl DevAddr {
    /// Reads the value from its hex text: exactly 8 hex digits, in either
    /// case. Any other text is refused, with the reason.
    pub fn from(input: &str) -> (r: Result<DevAddr, HexError>)
        ensures
            r is Ok <==> is_hex_of(input@, 4),
            r is Ok ==> r->Ok_0@ == decode(input@),
            r == Err::<DevAddr, HexError>(HexError::Length) <==> input@.len() != 8,
            r == Err::<DevAddr, HexError>(HexError::Digit) <==> input@.len() == 8 && !is_hex(input@),
    {
        match decode_hex::<4>(input) {
            Ok(b) => Ok(DevAddr(b)),
            Err(e) => Err(e),
        }
    }

    /// Lower-case hex text of the value, two digits to the byte, in the order
    /// of the bytes.
    pub fn to_string(&self) -> (r: String)
        ensures
            r@ == encode(self@),
            is_hex_of(r@, self@.len()),
            decode(r@) == self@,
    {
        proof {
            decode_encode(self@);
        }
        encode_hex(self.0.as_slice())
    }

    /// The bytes of the value.
    pub fn bytes(&self) -> (r: [u8; 4])
        ensures
            r@ == self@,
            self@.len() == 4,
    {
        self.0
    }
}

/// Extended unique identifier of a device or an application: eight bytes.
#[derive(Debug, Clone, Copy, PartialEq, Eq)]
pub struct EUI([u8; 8]);

impl View for EUI {
    type V = Seq<u8>;

    closed spec fn view(&self) -> Seq<u8> {
        self.0@
    }
}

impl EUI {
    /// Reads the value from its hex text: exactly 16 hex digits, in either
    /// case. Any other text is refused, with the reason.
    pub fn from(input: &str) -> (r: Result<EUI, HexError>)
        ensures
            r is Ok <==> is_hex_of(input@, 8),
            r is Ok ==> r->Ok_0@ == decode(input@),
            r == Err::<EUI, HexError>(HexError::Length) <==> input@.len() != 16,
            r == Err::<EUI, HexError>(HexError::Digit) <==> input@.len() == 16 && !is_hex(input@),
    {
        match decode_hex::<8>(input) {
            Ok(b) => Ok(EUI(b)),
            Err(e) => Err(e),
        }
    }

    /// Lower-case hex text of the value, two digits to the byte, in the order
    /// of the bytes.
    pub fn to_string(&self) -> (r: String)
        ensures
            r@ == encode(self@),
            is_hex_of(r@, self@.len()),
            decode(r@) == self@,
    {
        proof {
            decode_encode(self@);
        }
        encode_hex(self.0.as_slice())
    }

    /// The bytes of the value.
    pub fn bytes(&self) -> (r: [u8; 8])
        ensures
            r@ == self@,
            self@.len() == 8,
    {
        self.0
    }

    /// The value with its bytes in the opposite order, as they go on the air.
    pub fn reverse(&self) -> (r: EUI)
        ensures
            r@ == self@.reverse(),
    {
        let mut b: [u8; 8] = [0u8; 8];
        let mut i: usize = 0;
        while i < 8
            invariant
                i <= 8,
                forall|j: int| 0 <= j < i ==> b@[j] == self.0@[7 - j],
            decreases 8 - i,
        {
            b[i] = self.0[7 - i];
            i = i + 1;
        }
        assert(b@ =~= self.0@.reverse());
        EUI(b)
    }
}

/// Root key of the application, which authenticates a join: sixteen bytes.
#[derive(Debug, Clone, Copy, PartialEq, Eq)]
pub struct AppKey([u8; 16]);

impl View for AppKey {
    type V = Seq<u8>;

    closed spec fn view(&self) -> Seq<u8> {
        self.0@
    }
}

impl AppKey {
    /// Reads the value from its hex text: exactly 32 hex digits, in either
    /// case. Any other text is refused, with the reason.
    pub fn from(input: &str) -> (r: Result<AppKey, HexError>)
        ensures
            r is Ok <==> is_hex_of(input@, 16),
            r is Ok ==> r->Ok_0@ == decode(input@),
            r == Err::<AppKey, HexError>(HexError::Length) <==> input@.len() != 32,
            r == Err::<AppKey, HexError>(HexError::Digit) <==> input@.len() == 32 && !is_hex(input@),
    {
        match decode_hex::<16>(input) {
            Ok(b) => Ok(AppKey(b)),
            Err(e) => Err(e),
        }
    }

    /// Lower-case hex text of the value, two digits to the byte, in the order
    /// of the bytes.
    pub fn to_string(&self) -> (r: String)
        ensures
            r@ == encode(self@),
            is_hex_of(r@, self@.len()),
            decode(r@) == self@,
    {
        proof {
            decode_encode(self@);
        }
        encode_hex(self.0.as_slice())
    }

    /// The bytes of the value.
    pub fn bytes(&self) -> (r: [u8; 16])
        ensures
            r@ == self@,
            self@.len() == 16,
    {
        self.0
    }
}

/// Network session key: sixteen bytes.
#[derive(Debug, Clone, Copy, PartialEq, Eq)]
pub struct NwksKey([u8; 16]);

impl View for NwksKey {
    type V = Seq<u8>;

    closed spec fn view(&self) -> Seq<u8> {
        self.0@
    }
}

impl NwksKey {
    /// Reads the value from its hex text: exactly 32 hex digits, in either
    /// case. Any other text is refused, with the reason.
    pub fn from(input: &str) -> (r: Result<NwksKey, HexError>)
        ensures
            r is Ok <==> is_hex_of(input@, 16),
            r is Ok ==> r->Ok_0@ == decode(input@),
            r == Err::<NwksKey, HexError>(HexError::Length) <==> input@.len() != 32,
            r == Err::<NwksKey, HexError>(HexError::Digit) <==> input@.len() == 32 && !is_hex(input@),
    {
        match decode_hex::<16>(input) {
            Ok(b) => Ok(NwksKey(b)),
            Err(e) => Err(e),
        }
    }

    /// Lower-case hex text of the value, two digits to the byte, in the order
    /// of the bytes.
    pub fn to_string(&self) -> (r: String)
        ensures
            r@ == encode(self@),
            is_hex_of(r@, self@.len()),
            decode(r@) == self@,
    {
        proof {
            decode_encode(self@);
        }
        encode_hex(self.0.as_slice())
    }

    /// The bytes of the value.
    pub fn bytes(&self) -> (r: [u8; 16])
        ensures
            r@ == self@,
            self@.len() == 16,
    {
        self.0
    }
}

/// Application session key: sixteen bytes.
#[derive(Debug, Clone, Copy, PartialEq, Eq)]
pub struct AppsKey([u8; 16]);

impl View for AppsKey {
    type V = Seq<u8>;

    closed spec fn view(&self) -> Seq<u8> {
        self.0@
    }
}

impl AppsKey {
    /// Reads the value from its hex text: exactly 32 hex digits, in either
    /// case. Any other text is refused, with the reason.
    pub fn from(input: &str) -> (r: Result<AppsKey, HexError>)
        ensures
            r is Ok <==> is_hex_of(input@, 16),
            r is Ok ==> r->Ok_0@ == decode(input@),
            r == Err::<AppsKey, HexError>(HexError::Length) <==> input@.len() != 32,
            r == Err::<AppsKey, HexError>(HexError::Digit) <==> input@.len() == 32 && !is_hex(input@),
    {
        match decode_hex::<16>(input) {
            Ok(b) => Ok(AppsKey(b)),
            Err(e) => Err(e),
        }
    }

    /// Lower-case hex text of the value, two digits to the byte, in the order
    /// of the bytes.
    pub fn to_string(&self) -> (r: String)
        ensures
            r@ == encode(self@),
            is_hex_of(r@, self@.len()),
            decode(r@) == self@,
    {
        proof {
            decode_encode(self@);
        }
        encode_hex(self.0.as_slice())
    }

    /// The bytes of the value.
    pub fn bytes(&self) -> (r: [u8; 16])
        ensures
            r@ == self@,
            self@.len() == 16,
    {
        self.0
    }
}

} // verus!

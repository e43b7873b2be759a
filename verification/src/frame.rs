use vstd::prelude::*;
use vstd::slice::slice_subrange;

verus! {

/// Length of the frame options, from the low four bits of the frame control byte.
pub open spec fn fopts_len(bytes: Seq<u8>) -> int {
    (bytes[5] & 0x0f) as int
}

/// Length of the frame header: device address, frame control, frame counter
/// and frame options.
pub open spec fn fhdr_len(bytes: Seq<u8>) -> int {
    7 + fopts_len(bytes)
}

/// Message type, from the top three bits of the first byte.
pub open spec fn mtype(bytes: Seq<u8>) -> int {
    (bytes[0] >> 5) as int
}

/// Whether `bytes` has the layout of a data frame: a message type of the data
/// kind, then the frame header, and room for the four bytes of the integrity code.
pub open spec fn is_data_frame(bytes: Seq<u8>) -> bool {
    &&& bytes.len() >= 12
    &&& 5 + fhdr_len(bytes) <= bytes.len()
    &&& 2 <= mtype(bytes) <= 5
}

/// Whether a data frame travels from the device to the network.
pub open spec fn is_uplink(bytes: Seq<u8>) -> bool {
    mtype(bytes) == 2 || mtype(bytes) == 4
}

/// The frame options: the MAC commands that ride in the frame header.
pub open spec fn fopts(bytes: Seq<u8>) -> Seq<u8> {
    bytes.subrange(8, 8 + fopts_len(bytes))
}

/// The application payload of a data frame: what stands between the port byte
/// and the integrity code, unless the frame ends with its header or a port of
/// zero marks what follows as MAC commands.
pub open spec fn application_payload(bytes: Seq<u8>) -> Option<Seq<u8>> {
    let h = fhdr_len(bytes);
    if bytes.len() < h + 6 {
        None
    } else if bytes.len() > h + 6 && bytes[1 + h] == 0 {
        None
    } else {
        Some(bytes.subrange(h + 2, bytes.len() - 4))
    }
}

/// Number of MAC commands that the parser of `lorawan_encoding` reads from
/// `fopts`, in the direction given by `uplink`.
pub uninterp spec fn mac_commands_in(fopts: Seq<u8>, uplink: bool) -> nat;

/// Calls `lorawan_encoding::maccommands::parse_mac_commands` and counts what
/// the iterator yields. The count is a function of the bytes and the direction
/// alone; the contract gives it its name and claims nothing more of it.
#[verifier::external_body]
fn count_mac_commands(fopts: &[u8], uplink: bool) -> (n: usize)
    ensures
        n == mac_commands_in(fopts@, uplink),
{
    lorawan_encoding::maccommands::parse_mac_commands(fopts, uplink).count()
}

/// The low four bits of a byte.
fn low_nibble(b: u8) -> (r: u8)
    ensures
        r == b & 0x0f,
        r <= 15,
{
    assert(b & 0x0f <= 15) by (bit_vector);
    b & 0x0f
}

/// What the driver reads from a downlink.
#[derive(Debug, PartialEq, Eq)]
pub struct FrameSummary {
    pub payload: Option<Vec<u8>>,
    pub mac_commands: usize,
}

/// Mathematical value of a `FrameSummary`.
pub struct FrameSummaryView {
    pub payload: Option<Seq<u8>>,
    pub mac_commands: nat,
}

impl View for FrameSummary {
    type V = FrameSummaryView;

    open spec fn view(&self) -> FrameSummaryView {
        FrameSummaryView {
            payload: match self.payload {
                Some(p) => Some(p@),
                None => None,
            },
            mac_commands: self.mac_commands as nat,
        }
    }
}

/// What a data frame with the bytes `bytes` holds for the driver.
pub open spec fn summary_of(bytes: Seq<u8>) -> FrameSummaryView {
    FrameSummaryView {
        payload: application_payload(bytes),
        mac_commands: mac_commands_in(fopts(bytes), is_uplink(bytes)),
    }
}

/// A decrypted data frame as the protocol engine hands it out.
#[derive(Debug, PartialEq, Eq)]
pub struct Downlink {
    bytes: Vec<u8>,
}

impl View for Downlink {
    type V = Seq<u8>;

    closed spec fn view(&self) -> Seq<u8> {
        self.bytes@
    }
}

impl Downlink {
    #[verifier::type_invariant]
    spec fn well_formed(&self) -> bool {
        is_data_frame(self.bytes@)
    }

    /// Accepts `bytes` if and only if they have the layout of a data frame.
    pub fn new(bytes: Vec<u8>) -> (r: Option<Downlink>)
        ensures
            r is Some <==> is_data_frame(bytes@),
            r is Some ==> r->0@ == bytes@,
    {
        if bytes.len() < 12 {
            return None;
        }
        let kind: u8 = bytes[0] >> 5;
        let options: u8 = low_nibble(bytes[5]);
        if kind < 2 || kind > 5 || options as usize + 12 > bytes.len() {
            return None;
        }
        Some(Downlink { bytes })
    }

    /// The bytes of the frame.
    pub fn as_bytes(&self) -> (r: &[u8])
        ensures
            r@ == self@,
            is_data_frame(self@),
    {
        proof {
            use_type_invariant(self);
        }
        self.bytes.as_slice()
    }

    /// The application payload, if the frame carries one.
    pub fn payload(&self) -> (r: Option<Vec<u8>>)
        ensures
            r is Some <==> application_payload(self@) is Some,
            r is Some ==> r->0@ == application_payload(self@)->0,
    {
        proof {
            use_type_invariant(self);
        }
        let options: u8 = low_nibble(self.bytes[5]);
        let header: usize = 7 + options as usize;
        let len: usize = self.bytes.len();
        if len < header + 6 {
            return None;
        }
        if len > header + 6 && self.bytes[1 + header] == 0 {
            return None;
        }
        let mut data: Vec<u8> = Vec::new();
        let mut i: usize = header + 2;
        while i < len - 4
            invariant
                header + 2 <= i <= len - 4,
                len == self.bytes.len(),
                data@ == self.bytes@.subrange(header + 2, i as int),
            decreases len - i,
        {
            data.push(self.bytes[i]);
            i = i + 1;
        }
        Some(data)
    }

    /// Payload and MAC command count of the frame.
    pub fn summary(&self) -> (r: FrameSummary)
        ensures
            r@ == summary_of(self@),
    {
        proof {
            use_type_invariant(self);
        }
        let options: u8 = low_nibble(self.bytes[5]);
        let kind: u8 = self.bytes[0] >> 5;
        let uplink: bool = kind == 2 || kind == 4;
        let end: usize = 8 + options as usize;
        let mac_commands = count_mac_commands(slice_subrange(self.bytes.as_slice(), 8, end), uplink);
        let payload = self.payload();
        FrameSummary { payload, mac_commands }
    }
}

} // verus!

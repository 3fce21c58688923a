//! Node addressing and the beacon wire codec.
//!
//! Every beacon travels in a fixed 16-byte frame. Byte 0 carries the message
//! id; multi-byte fields are big-endian; unused bytes are zero.
//!
//! | id | kind               | bytes 1..15                                          |
//! |----|--------------------|------------------------------------------------------|
//! | 1  | `GateBeacon`       | addr, gate state, activation time u32 (or all-ones)  |
//! | 2  | `CoordinatorBeacon`| coordinator time u32                                 |
use vstd::prelude::*;

use crate::app::gates::Gates;
use crate::hal::gate::GateState;
use crate::svc::clock::CoordinatedInstant;

verus! {

broadcast use vstd::array::group_array_axioms;

#[derive(Debug, Copy, Clone, PartialEq, Eq, Structural)]
pub enum Error {
    Unknown,
}

/// What a node's transport exposes to the role state machine.
pub trait RaceNode {
    fn coordinator_time(&self) -> Option<CoordinatedInstant>;

    fn set_coordinator_time(&self, t: CoordinatedInstant);

    fn publish(&self, msg: RaceNodeMessage) -> Result<(), Error>;

    fn gates(&self) -> Gates;

    /// Milliseconds of wall clock since the last coordinator beacon arrived;
    /// `u64::MAX` when none arrived yet.
    fn time_since_coordinator_beacon_ms(&self) -> u64;
}

/// A node's place on the wire: 0 is the coordinator, 1 the start gate, 4 the
/// finish gate; other values are reserved.
#[derive(Debug, Copy, Clone, PartialEq, Eq, Structural)]
pub struct NodeAddress(pub u8);

impl View for NodeAddress {
    type V = u8;

    open spec fn view(&self) -> u8 {
        self.0
    }
}

impl NodeAddress {
    pub fn coordinator() -> (r: Self)
        ensures
            r@ == 0,
    {
        NodeAddress(0)
    }

    pub fn start() -> (r: Self)
        ensures
            r@ == 1,
    {
        NodeAddress(1)
    }

    pub fn finish() -> (r: Self)
        ensures
            r@ == 4,
    {
        NodeAddress(4)
    }

    pub fn is_coordinator(&self) -> (r: bool)
        ensures
            r == (self@ == 0),
    {
        self.0 == 0
    }

    pub fn is_gate(&self) -> (r: bool)
        ensures
            r == (self@ != 0),
    {
        self.0 != 0
    }

    pub fn is_start(&self) -> (r: bool)
        ensures
            r == (self@ == 1),
    {
        self.0 == 1
    }

    pub fn is_finish(&self) -> (r: bool)
        ensures
            r == (self@ == 4),
    {
        self.0 == 4
    }

    /// The slot this address reports into; the coordinator has none.
    pub fn as_gate_index(&self) -> (r: Option<usize>)
        ensures
            self@ == 0 ==> r is None,
            self@ >= 1 ==> r == Some((self@ - 1) as usize),
    {
        if self.0 < 1 {
            None
        } else {
            Some((self.0 as usize) - 1)
        }
    }

    /// The slot this address reports into, for an address known to
    /// be a gate.
    pub fn unwrap_as_gate_index(&self) -> (r: usize)
        requires
            self@ >= 1,
        ensures
            r == self@ - 1,
    {
        (self.0 as usize) - 1
    }
}

impl From<u8> for NodeAddress {
    fn from(x: u8) -> (r: Self) {
        NodeAddress(x)
    }
}

impl vstd::std_specs::convert::FromSpecImpl<u8> for NodeAddress {
    open spec fn obeys_from_spec() -> bool {
        true
    }

    open spec fn from_spec(x: u8) -> Self {
        NodeAddress(x)
    }
}

/// Length of every frame on the wire.
pub const FRAME_SIZE: usize = 16;

/// One 16-byte frame as it travels on the wire.
#[derive(Copy, Clone)]
pub struct FrameData(pub [u8; 16]);

impl View for FrameData {
    type V = Seq<u8>;

    open spec fn view(&self) -> Seq<u8> {
        self.0@
    }
}

impl FrameData {
    pub fn as_bytes(&self) -> (r: &[u8])
        ensures
            r@ == self@,
    {
        self.0.as_slice()
    }
}

impl From<[u8; 16]> for FrameData {
    fn from(value: [u8; 16]) -> (r: Self) {
        FrameData(value)
    }
}

impl vstd::std_specs::convert::FromSpecImpl<[u8; 16]> for FrameData {
    open spec fn obeys_from_spec() -> bool {
        true
    }

    open spec fn from_spec(value: [u8; 16]) -> Self {
        FrameData(value)
    }
}

/// A gate's periodic broadcast: its address, whether its beam is interrupted
/// right now, and when it last saw an activation (in coordinated time).
#[derive(Debug, Copy, Clone, PartialEq, Eq, Structural)]
pub struct GateBeacon {
    pub addr: NodeAddress,
    pub state: GateState,
    pub last_activation_time: Option<CoordinatedInstant>,
}

/// The coordinator's periodic broadcast of its clock.
#[derive(Debug, Copy, Clone, PartialEq, Eq, Structural)]
pub struct CoordinatorBeacon {
    pub time: CoordinatedInstant,
}

#[derive(Debug, Copy, Clone, PartialEq, Eq, Structural)]
pub enum RaceNodeMessage {
    GateBeacon(GateBeacon),
    CoordinatorBeacon(CoordinatorBeacon),
}

impl From<GateBeacon> for RaceNodeMessage {
    fn from(x: GateBeacon) -> (r: Self) {
        RaceNodeMessage::GateBeacon(x)
    }
}

impl vstd::std_specs::convert::FromSpecImpl<GateBeacon> for RaceNodeMessage {
    open spec fn obeys_from_spec() -> bool {
        true
    }

    open spec fn from_spec(x: GateBeacon) -> Self {
        RaceNodeMessage::GateBeacon(x)
    }
}

impl From<CoordinatorBeacon> for RaceNodeMessage {
    fn from(x: CoordinatorBeacon) -> (r: Self) {
        RaceNodeMessage::CoordinatorBeacon(x)
    }
}

impl vstd::std_specs::convert::FromSpecImpl<CoordinatorBeacon> for RaceNodeMessage {
    open spec fn obeys_from_spec() -> bool {
        true
    }

    open spec fn from_spec(x: CoordinatorBeacon) -> Self {
        RaceNodeMessage::CoordinatorBeacon(x)
    }
}

/// The u32 with the four given bytes, highest first.
pub open spec fn spec_u32_be(b0: u8, b1: u8, b2: u8, b3: u8) -> u32 {
    ((b0 as u32) << 24) | ((b1 as u32) << 16) | ((b2 as u32) << 8) | (b3 as u32)
}

/// The four bytes of a u32, highest first.
pub open spec fn spec_u32_be_bytes(x: u32) -> Seq<u8> {
    seq![
        (((x >> 24) & 0xff) as u8),
        (((x >> 16) & 0xff) as u8),
        (((x >> 8) & 0xff) as u8),
        ((x & 0xff) as u8),
    ]
}

/// The two's-complement image of a millisecond count on the wire.
pub open spec fn spec_wire_of_millis(x: i32) -> u32 {
    if x >= 0 {
        x as u32
    } else {
        (x + 0x1_0000_0000) as u32
    }
}

/// The millisecond count read back from its two's-complement wire image.
pub open spec fn spec_millis_of_wire(w: u32) -> i32 {
    if w <= i32::MAX as u32 {
        w as i32
    } else {
        (w - 0x1_0000_0000) as i32
    }
}

/// How an optional activation time is carried: its millisecond count, or the
/// all-ones word for "never activated".
pub open spec fn spec_wire_of_time(t: Option<CoordinatedInstant>) -> u32 {
    match t {
        None => 0xFFFF_FFFFu32,
        Some(c) => spec_wire_of_millis(c@),
    }
}

/// The optional activation time read back from the wire.
pub open spec fn spec_time_of_wire(w: u32) -> Option<CoordinatedInstant> {
    if w == 0xFFFF_FFFFu32 {
        None
    } else {
        Some(CoordinatedInstant(spec_millis_of_wire(w)))
    }
}

/// The byte that carries a gate state.
pub open spec fn spec_gate_state_byte(s: GateState) -> u8 {
    match s {
        GateState::Inactive => 0u8,
        GateState::Active => 1u8,
    }
}

/// The 16-byte frame of a message.
pub open spec fn spec_frame_of(m: RaceNodeMessage) -> Seq<u8> {
    match m {
        RaceNodeMessage::GateBeacon(b) => {
            let w = spec_u32_be_bytes(spec_wire_of_time(b.last_activation_time));
            seq![
                1u8,
                b.addr@,
                spec_gate_state_byte(b.state),
                w[0],
                w[1],
                w[2],
                w[3],
                0u8,
                0u8,
                0u8,
                0u8,
                0u8,
                0u8,
                0u8,
                0u8,
                0u8,
            ]
        },
        RaceNodeMessage::CoordinatorBeacon(b) => {
            let w = spec_u32_be_bytes(spec_wire_of_millis(b.time@));
            seq![
                2u8,
                w[0],
                w[1],
                w[2],
                w[3],
                0u8,
                0u8,
                0u8,
                0u8,
                0u8,
                0u8,
                0u8,
                0u8,
                0u8,
                0u8,
                0u8,
            ]
        },
    }
}

/// What decoding a datagram yields: a message for a well-formed 16-byte
/// frame, an error for any other byte string.
pub open spec fn spec_decode(bytes: Seq<u8>) -> Result<RaceNodeMessage, Error> {
    if bytes.len() != 16 {
        Err(Error::Unknown)
    } else if bytes[0] == 1u8 {
        Ok(
            RaceNodeMessage::GateBeacon(
                GateBeacon {
                    addr: NodeAddress(bytes[1]),
                    state: if bytes[2] == 1u8 {
                        GateState::Active
                    } else {
                        GateState::Inactive
                    },
                    last_activation_time: spec_time_of_wire(
                        spec_u32_be(bytes[3], bytes[4], bytes[5], bytes[6]),
                    ),
                },
            ),
        )
    } else if bytes[0] == 2u8 {
        Ok(
            RaceNodeMessage::CoordinatorBeacon(
                CoordinatorBeacon {
                    time: CoordinatedInstant(
                        spec_millis_of_wire(spec_u32_be(bytes[1], bytes[2], bytes[3], bytes[4])),
                    ),
                },
            ),
        )
    } else {
        Err(Error::Unknown)
    }
}

/// A message survives the wire unchanged unless it abuses the reserved
/// all-ones activation word: `Some(-1 ms)` encodes as "never activated".
pub open spec fn spec_wire_faithful(m: RaceNodeMessage) -> bool {
    m matches RaceNodeMessage::GateBeacon(b) ==> b.last_activation_time != Some(
        CoordinatedInstant(-1i32),
    )
}

proof fn lemma_u32_be_round_trip(x: u32)
    ensures
        spec_u32_be(
            spec_u32_be_bytes(x)[0],
            spec_u32_be_bytes(x)[1],
            spec_u32_be_bytes(x)[2],
            spec_u32_be_bytes(x)[3],
        ) == x,
{
    assert(((((x >> 24) & 0xff) as u8) as u32) << 24 | ((((x >> 16) & 0xff) as u8) as u32) << 16
        | ((((x >> 8) & 0xff) as u8) as u32) << 8 | (((x & 0xff) as u8) as u32) == x)
        by (bit_vector);
}

proof fn lemma_millis_wire_round_trip(x: i32)
    ensures
        spec_millis_of_wire(spec_wire_of_millis(x)) == x,
        spec_wire_of_millis(x) == 0xFFFF_FFFFu32 <==> x == -1i32,
{
}

/// Decoding inverts encoding: every message that does not abuse the reserved
/// all-ones activation word comes back unchanged from its own frame.
pub proof fn lemma_decode_encode(m: RaceNodeMessage)
    requires
        spec_wire_faithful(m),
    ensures
        spec_decode(spec_frame_of(m)) == Ok::<RaceNodeMessage, Error>(m),
{
    let f = spec_frame_of(m);
    match m {
        RaceNodeMessage::GateBeacon(b) => {
            let w = spec_wire_of_time(b.last_activation_time);
            lemma_u32_be_round_trip(w);
            match b.last_activation_time {
                None => {
                    assert(spec_time_of_wire(w) == b.last_activation_time);
                },
                Some(c) => {
                    lemma_millis_wire_round_trip(c@);
                    assert(spec_time_of_wire(w) == b.last_activation_time);
                },
            }
            assert(spec_decode(f) == Ok::<RaceNodeMessage, Error>(m));
        },
        RaceNodeMessage::CoordinatorBeacon(b) => {
            lemma_u32_be_round_trip(spec_wire_of_millis(b.time@));
            lemma_millis_wire_round_trip(b.time@);
            assert(spec_decode(f) == Ok::<RaceNodeMessage, Error>(m));
        },
    }
}

/// Every frame is exactly 16 bytes long.
pub proof fn lemma_frame_len(m: RaceNodeMessage)
    ensures
        spec_frame_of(m).len() == 16,
{
}

/// Decoding any byte string that is not exactly 16 bytes long fails.
pub proof fn lemma_decode_wrong_len(bytes: Seq<u8>)
    requires
        bytes.len() != 16,
    ensures
        spec_decode(bytes) is Err,
{
}

/// Whatever decoding yields never abuses the reserved activation word: the
/// all-ones word becomes "never activated", so every decoded message
/// survives a further encode and decode unchanged.
pub proof fn lemma_decode_yields_wire_faithful(bytes: Seq<u8>)
    ensures
        spec_decode(bytes) matches Ok(m) ==> spec_wire_faithful(m),
{
}

/// The millisecond count of an activation time as carried on the wire.
fn wire_of_millis(x: i32) -> (r: u32)
    ensures
        r == spec_wire_of_millis(x),
{
    if x >= 0 {
        x as u32
    } else {
        let big: i64 = x as i64 + 0x1_0000_0000i64;
        big as u32
    }
}

/// The millisecond count read back from the wire.
fn millis_of_wire(w: u32) -> (r: i32)
    ensures
        r == spec_millis_of_wire(w),
{
    if w <= i32::MAX as u32 {
        w as i32
    } else {
        let big: i64 = w as i64 - 0x1_0000_0000i64;
        big as i32
    }
}

/// The four big-endian bytes of a u32.
fn u32_be_bytes(x: u32) -> (r: [u8; 4])
    ensures
        r@ == spec_u32_be_bytes(x),
{
    proof {
        assert((x >> 24) & 0xff < 256 && (x >> 16) & 0xff < 256 && (x >> 8) & 0xff < 256 && x
            & 0xff < 256) by (bit_vector);
    }
    let r = [
        ((x >> 24) & 0xff) as u8,
        ((x >> 16) & 0xff) as u8,
        ((x >> 8) & 0xff) as u8,
        (x & 0xff) as u8,
    ];
    proof {
        assert(r@ =~= spec_u32_be_bytes(x));
    }
    r
}

/// The big-endian u32 at `offset` of a frame; None when fewer than four
/// bytes remain.
pub fn deserialize_u32(data: &FrameData, offset: usize) -> (r: Option<u32>)
    ensures
        offset + 3 < 16 ==> r == Some(
            spec_u32_be(
                data@[offset as int],
                data@[offset as int + 1],
                data@[offset as int + 2],
                data@[offset as int + 3],
            ),
        ),
        offset + 3 >= 16 ==> r is None,
{
    if offset < 13 {
        let d0 = data.0[offset];
        let d1 = data.0[offset + 1];
        let d2 = data.0[offset + 2];
        let d3 = data.0[offset + 3];
        Some(((d0 as u32) << 24) | ((d1 as u32) << 16) | ((d2 as u32) << 8) | (d3 as u32))
    } else {
        None
    }
}

impl RaceNodeMessage {
    /// The 16-byte frame that carries this message.
    pub fn data(&self) -> (r: FrameData)
        ensures
            r@ == spec_frame_of(*self),
            r@.len() == 16,
    {
        match self {
            RaceNodeMessage::GateBeacon(b) => {
                let s: u8 = match b.state {
                    GateState::Inactive => 0u8,
                    GateState::Active => 1u8,
                };
                let wire: u32 = match b.last_activation_time {
                    None => 0xFFFF_FFFFu32,
                    Some(c) => wire_of_millis(c.0),
                };
                let w = u32_be_bytes(wire);
                let fd = FrameData(
                    [1u8, b.addr.0, s, w[0], w[1], w[2], w[3], 0, 0, 0, 0, 0, 0, 0, 0, 0],
                );
                proof {
                    assert(fd@ =~= spec_frame_of(*self));
                }
                fd
            },
            RaceNodeMessage::CoordinatorBeacon(b) => {
                let w = u32_be_bytes(wire_of_millis(b.time.0));
                let fd = FrameData(
                    [2u8, w[0], w[1], w[2], w[3], 0, 0, 0, 0, 0, 0, 0, 0, 0, 0, 0],
                );
                proof {
                    assert(fd@ =~= spec_frame_of(*self));
                }
                fd
            },
        }
    }

    /// Decode a frame. Fails on an unknown message id.
    pub fn try_from_frame(data: &FrameData) -> (r: Result<RaceNodeMessage, Error>)
        ensures
            r == spec_decode(data@),
    {
        let msg_id = data.0[0];
        if msg_id == 1 {
            match GateBeacon::try_from_frame(data) {
                Ok(b) => Ok(RaceNodeMessage::GateBeacon(b)),
                Err(e) => Err(e),
            }
        } else if msg_id == 2 {
            match CoordinatorBeacon::try_from_frame(data) {
                Ok(b) => Ok(RaceNodeMessage::CoordinatorBeacon(b)),
                Err(e) => Err(e),
            }
        } else {
            Err(Error::Unknown)
        }
    }
}

impl GateBeacon {
    /// Read a frame's gate-beacon fields. Any byte other than 1 in the
    /// state slot is taken as inactive; the all-ones activation word is
    /// taken as "never activated".
    pub fn try_from_frame(data: &FrameData) -> (r: Result<GateBeacon, Error>)
        ensures
            r == Ok::<GateBeacon, Error>(
                GateBeacon {
                    addr: NodeAddress(data@[1]),
                    state: if data@[2] == 1u8 {
                        GateState::Active
                    } else {
                        GateState::Inactive
                    },
                    last_activation_time: spec_time_of_wire(
                        spec_u32_be(data@[3], data@[4], data@[5], data@[6]),
                    ),
                },
            ),
    {
        let addr = NodeAddress(data.0[1]);
        let gate_state = match data.0[2] {
            0 => GateState::Inactive,
            1 => GateState::Active,
            _ => GateState::Inactive,
        };
        let wire = match deserialize_u32(data, 3) {
            Some(w) => w,
            None => {
                return Err(Error::Unknown);
            },
        };
        let last_activation_time = if wire == 0xFFFF_FFFFu32 {
            None
        } else {
            Some(CoordinatedInstant::from_millis(millis_of_wire(wire)))
        };
        Ok(GateBeacon { addr, state: gate_state, last_activation_time })
    }
}

impl CoordinatorBeacon {
    /// Read the coordinator-beacon time of a frame.
    pub fn try_from_frame(data: &FrameData) -> (r: Result<CoordinatorBeacon, Error>)
        ensures
            r == Ok::<CoordinatorBeacon, Error>(
                CoordinatorBeacon {
                    time: CoordinatedInstant(
                        spec_millis_of_wire(spec_u32_be(data@[1], data@[2], data@[3], data@[4])),
                    ),
                },
            ),
    {
        let wire = match deserialize_u32(data, 1) {
            Some(w) => w,
            None => {
                return Err(Error::Unknown);
            },
        };
        Ok(CoordinatorBeacon { time: CoordinatedInstant::from_millis(millis_of_wire(wire)) })
    }
}

/// Decode one received datagram: exactly 16 bytes of a known message kind,
/// anything else is dropped as an error.
pub fn parse_datagram(buf: &[u8]) -> (r: Result<RaceNodeMessage, Error>)
    ensures
        r == spec_decode(buf@),
{
    if buf.len() != 16 {
        return Err(Error::Unknown);
    }
    let data = FrameData(
        [
            buf[0],
            buf[1],
            buf[2],
            buf[3],
            buf[4],
            buf[5],
            buf[6],
            buf[7],
            buf[8],
            buf[9],
            buf[10],
            buf[11],
            buf[12],
            buf[13],
            buf[14],
            buf[15],
        ],
    );
    proof {
        assert(data@ =~= buf@);
    }
    RaceNodeMessage::try_from_frame(&data)
}

} // verus!

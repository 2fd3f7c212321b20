//! The 64-byte wire format spoken by the cooler: framing and payload layouts.

use vstd::prelude::*;

use crate::checksum::spec_crc8;
use crate::{DutyCycle, H100iError, Rpm, StatusMsg};

pub use crate::checksum::crc8;

verus! {

/// Length in bytes of every message, in both directions.
pub const MSG_SIZE: usize = 64;

/// Length in bytes of a message's payload.
pub const PAYLOAD_SIZE: usize = 60;

/// A message as it travels over the wire: 64 bytes, the last of which is a checksum.
#[derive(Copy, Clone, Debug)]
pub struct Msg {
    /// Magic byte: 0x3f on requests, 0xff on replies.
    pub magic: u8,
    /// Sequence number; it advances by 8 from one request to the next.
    pub sequence: u8,
    /// Command byte.
    pub command: u8,
    /// Command-specific contents.
    pub payload: [u8; 60],
    /// Checksum over every byte but the magic byte and the checksum itself.
    pub crc: u8,
}

impl Msg {
    /// The 64 bytes of the message, in wire order.
    pub open spec fn spec_bytes(&self) -> Seq<u8> {
        seq![self.magic, self.sequence, self.command] + self.payload@ + seq![self.crc]
    }

    /// The bytes the checksum covers: all but the magic byte and the checksum.
    pub open spec fn checked_bytes(&self) -> Seq<u8> {
        seq![self.sequence, self.command] + self.payload@
    }

    /// The checksum byte matches the bytes it covers.
    pub open spec fn crc_ok(&self) -> bool {
        spec_crc8(self.checked_bytes()) == self.crc
    }

    /// A request with the magic byte set and every other byte zero.
    pub fn new() -> (msg: Self)
        ensures
            msg.magic == 0x3f,
            msg.sequence == 0,
            msg.command == 0,
            msg.payload@ == Seq::new(60, |i: int| 0u8),
            msg.crc == 0,
    {
        let msg = Msg { magic: 0x3f, sequence: 0, command: 0, payload: [0u8; 60], crc: 0 };
        assert(msg.payload@ =~= Seq::new(60, |i: int| 0u8));
        msg
    }

    /// Reads a message from exactly 64 bytes.
    pub fn from_slice(bytes: &[u8]) -> (res: Result<Self, H100iError>)
        ensures
            res is Ok <==> bytes@.len() == MSG_SIZE,
            res matches Ok(msg) ==> msg.spec_bytes() == bytes@,
            res matches Ok(msg) ==> msg.magic == bytes@[0] && msg.sequence == bytes@[1]
                && msg.command == bytes@[2] && msg.payload@ == bytes@.subrange(3, 63) && msg.crc
                == bytes@[63],
            res matches Err(e) ==> e == H100iError::ParseLengthError,
    {
        if bytes.len() != MSG_SIZE {
            return Err(H100iError::ParseLengthError);
        }
        let mut payload = [0u8; 60];
        let mut i: usize = 0;
        while i < PAYLOAD_SIZE
            invariant
                bytes@.len() == MSG_SIZE,
                i <= PAYLOAD_SIZE,
                forall|j: int| 0 <= j < i ==> payload@[j] == bytes@[j + 3],
            decreases PAYLOAD_SIZE - i,
        {
            payload[i] = bytes[i + 3];
            i = i + 1;
        }
        let msg = Msg {
            magic: bytes[0],
            sequence: bytes[1],
            command: bytes[2],
            payload,
            crc: bytes[63],
        };
        assert(msg.spec_bytes() =~= bytes@);
        assert(msg.payload@ =~= bytes@.subrange(3, 63));
        Ok(msg)
    }

    /// The message's 64 bytes, in wire order.
    pub fn as_array(&self) -> (bytes: [u8; 64])
        ensures
            bytes@ == self.spec_bytes(),
            bytes@.len() == MSG_SIZE,
            bytes@[0] == self.magic && bytes@[1] == self.sequence && bytes@[2] == self.command,
            bytes@.subrange(3, 63) == self.payload@,
            bytes@[63] == self.crc,
    {
        let mut bytes = [0u8; 64];
        bytes[0] = self.magic;
        bytes[1] = self.sequence;
        bytes[2] = self.command;
        let mut i: usize = 0;
        while i < PAYLOAD_SIZE
            invariant
                i <= PAYLOAD_SIZE,
                bytes@.len() == MSG_SIZE,
                bytes@[0] == self.magic,
                bytes@[1] == self.sequence,
                bytes@[2] == self.command,
                forall|j: int| 0 <= j < i ==> bytes@[j + 3] == self.payload@[j],
            decreases PAYLOAD_SIZE - i,
        {
            bytes[i + 3] = self.payload[i];
            i = i + 1;
        }
        bytes[63] = self.crc;
        assert(bytes@ =~= self.spec_bytes());
        assert(bytes@.subrange(3, 63) =~= self.payload@);
        bytes
    }

    /// The checksum of the bytes the checksum byte covers.
    fn compute_crc(&self) -> (crc: u8)
        ensures
            crc == spec_crc8(self.checked_bytes()),
    {
        let bytes = self.as_array();
        let covered = vstd::slice::slice_subrange(bytes.as_slice(), 1, MSG_SIZE - 1);
        assert(covered@ =~= self.checked_bytes());
        crc8(covered)
    }

    /// Sets the checksum byte to the checksum of the bytes it covers.
    pub fn update_crc(&mut self)
        ensures
            *final(self) == (Msg { crc: spec_crc8(old(self).checked_bytes()), ..*old(self) }),
            final(self).crc_ok(),
    {
        let value = self.compute_crc();
        self.crc = value;
    }

    /// Whether the checksum byte matches the bytes it covers.
    pub fn is_valid(&self) -> (valid: bool)
        ensures
            valid == self.crc_ok(),
    {
        self.compute_crc() == self.crc
    }
}


// Little-endian integers and fixed-size byte groups inside a byte sequence.

/// The little-endian `u16` stored at `b[at..at + 2]`.
pub open spec fn spec_u16_le(b: Seq<u8>, at: int) -> u16 {
    (b[at] + 256 * b[at + 1]) as u16
}

/// The little-endian `u32` stored at `b[at..at + 4]`.
pub open spec fn spec_u32_le(b: Seq<u8>, at: int) -> u32 {
    (b[at] + 256 * b[at + 1] + 65536 * b[at + 2] + 16777216 * b[at + 3]) as u32
}

/// The bytes `b[at..at + 2]` as an array.
pub open spec fn spec_array2(b: Seq<u8>, at: int) -> [u8; 2] {
    [b[at], b[at + 1]]
}

/// The bytes `b[at..at + 5]` as an array.
pub open spec fn spec_array5(b: Seq<u8>, at: int) -> [u8; 5] {
    [b[at], b[at + 1], b[at + 2], b[at + 3], b[at + 4]]
}

/// The bytes `b[at..at + 7]` as an array.
pub open spec fn spec_array7(b: Seq<u8>, at: int) -> [u8; 7] {
    [b[at], b[at + 1], b[at + 2], b[at + 3], b[at + 4], b[at + 5], b[at + 6]]
}

/// The bytes `b[at..at + 12]` as an array.
pub open spec fn spec_array12(b: Seq<u8>, at: int) -> [u8; 12] {
    [
        b[at],
        b[at + 1],
        b[at + 2],
        b[at + 3],
        b[at + 4],
        b[at + 5],
        b[at + 6],
        b[at + 7],
        b[at + 8],
        b[at + 9],
        b[at + 10],
        b[at + 11],
    ]
}

/// The two bytes of `v`, little-endian.
pub open spec fn spec_u16_le_bytes(v: u16) -> Seq<u8> {
    seq![(v % 256) as u8, (v / 256) as u8]
}

/// The four bytes of `v`, little-endian.
pub open spec fn spec_u32_le_bytes(v: u32) -> Seq<u8> {
    seq![(v % 256) as u8, ((v / 256) % 256) as u8, ((v / 65536) % 256) as u8, (v / 16777216) as u8]
}

fn read_u16_le(bytes: &[u8], at: usize) -> (v: u16)
    requires
        at + 2 <= bytes@.len(),
    ensures
        v == spec_u16_le(bytes@, at as int),
{
    bytes[at] as u16 + 256 * (bytes[at + 1] as u16)
}

fn read_u32_le(bytes: &[u8], at: usize) -> (v: u32)
    requires
        at + 4 <= bytes@.len(),
    ensures
        v == spec_u32_le(bytes@, at as int),
{
    bytes[at] as u32 + 256 * (bytes[at + 1] as u32) + 65536 * (bytes[at + 2] as u32) + 16777216 * (
    bytes[at + 3] as u32)
}

fn read_array5(bytes: &[u8], at: usize) -> (a: [u8; 5])
    requires
        at + 5 <= bytes@.len(),
    ensures
        a == spec_array5(bytes@, at as int),
{
    let a = [bytes[at], bytes[at + 1], bytes[at + 2], bytes[at + 3], bytes[at + 4]];
    assert(a =~= spec_array5(bytes@, at as int));
    a
}

fn read_array7(bytes: &[u8], at: usize) -> (a: [u8; 7])
    requires
        at + 7 <= bytes@.len(),
    ensures
        a == spec_array7(bytes@, at as int),
{
    let a = [
        bytes[at],
        bytes[at + 1],
        bytes[at + 2],
        bytes[at + 3],
        bytes[at + 4],
        bytes[at + 5],
        bytes[at + 6],
    ];
    assert(a =~= spec_array7(bytes@, at as int));
    a
}

/// A temperature reading: whole degrees Celsius plus a fraction in 255ths of a degree.
#[derive(Copy, Clone, Debug)]
pub struct TempStatus {
    /// Fraction of a degree, in 255ths.
    pub frac: u8,
    /// Whole degrees Celsius.
    pub deg: u8,
}

impl TempStatus {
    /// The reading stored at `b[at..at + 2]`.
    pub open spec fn spec_from_bytes(b: Seq<u8>, at: int) -> TempStatus {
        TempStatus { frac: b[at], deg: b[at + 1] }
    }

    /// The reading's two bytes: fraction, then whole degrees.
    pub open spec fn spec_bytes(&self) -> Seq<u8> {
        seq![self.frac, self.deg]
    }

    /// Reads the reading stored at `bytes[at..at + 2]`.
    pub fn read_at(bytes: &[u8], at: usize) -> (t: TempStatus)
        requires
            at + 2 <= bytes@.len(),
        ensures
            t == TempStatus::spec_from_bytes(bytes@, at as int),
    {
        TempStatus { frac: bytes[at], deg: bytes[at + 1] }
    }
}

/// The 7-byte status record of one fan (or of the pump).
#[derive(Copy, Clone, Debug)]
pub struct FanStatus {
    /// Duty cycle; always seen equal to `duty_2`.
    pub duty_1: u8,
    /// Seen as 0xe8 for fans.
    pub _e8: u8,
    /// Seen as 0x03 for fans.
    pub _is03: u8,
    /// Duty cycle, repeated.
    pub duty_2: u8,
    /// Rotation speed in revolutions per minute.
    pub value: u16,
    /// Trailing byte.
    pub _pad: u8,
}

impl FanStatus {
    /// The record stored at `b[at..at + 7]`.
    pub open spec fn spec_from_bytes(b: Seq<u8>, at: int) -> FanStatus {
        FanStatus {
            duty_1: b[at],
            _e8: b[at + 1],
            _is03: b[at + 2],
            duty_2: b[at + 3],
            value: spec_u16_le(b, at + 4),
            _pad: b[at + 6],
        }
    }

    /// The record's seven bytes, field by field, the speed little-endian.
    pub open spec fn spec_bytes(&self) -> Seq<u8> {
        seq![self.duty_1, self._e8, self._is03, self.duty_2] + spec_u16_le_bytes(self.value)
            + seq![self._pad]
    }

    /// Reads the record stored at `bytes[at..at + 7]`.
    pub fn read_at(bytes: &[u8], at: usize) -> (f: FanStatus)
        requires
            at + 7 <= bytes@.len(),
        ensures
            f == FanStatus::spec_from_bytes(bytes@, at as int),
    {
        FanStatus {
            duty_1: bytes[at],
            _e8: bytes[at + 1],
            _is03: bytes[at + 2],
            duty_2: bytes[at + 3],
            value: read_u16_le(bytes, at + 4),
            _pad: bytes[at + 6],
        }
    }
}

/// Length in bytes of a status report.
pub const STATUS_SIZE: usize = 60;

/// The payload of a status reply (command 0x12): 60 bytes.
#[derive(Copy, Clone, Debug)]
pub struct Status {
    /// Seen as 0x08.
    pub _always_08: u8,
    pub _pad: u8,
    /// Counts the replies sent.
    pub msg_counter: u16,
    /// Coolant temperature (inflow).
    pub value_start_t1: TempStatus,
    /// Seen as zero.
    pub _pad2: u16,
    /// Two fans, then the pump, then a fourth record.
    pub fans: [FanStatus; 4],
    pub _something_le: u16,
    pub _something_be: u16,
    pub _pad3: u16,
    /// Milliseconds since the device started.
    pub uptime_ms: u32,
    pub _some_id: [u8; 5],
    /// Coolant temperature (outflow).
    pub value_end_t1: TempStatus,
    pub _pad_5_zero: [u8; 7],
}

impl Status {
    /// The status report stored in the 60 bytes `b`, field by field in declaration order,
    /// integers little-endian.
    pub open spec fn spec_from_bytes(b: Seq<u8>) -> Status {
        Status {
            _always_08: b[0],
            _pad: b[1],
            msg_counter: spec_u16_le(b, 2),
            value_start_t1: TempStatus::spec_from_bytes(b, 4),
            _pad2: spec_u16_le(b, 6),
            fans: [
                FanStatus::spec_from_bytes(b, 8),
                FanStatus::spec_from_bytes(b, 15),
                FanStatus::spec_from_bytes(b, 22),
                FanStatus::spec_from_bytes(b, 29),
            ],
            _something_le: spec_u16_le(b, 36),
            _something_be: spec_u16_le(b, 38),
            _pad3: spec_u16_le(b, 40),
            uptime_ms: spec_u32_le(b, 42),
            _some_id: spec_array5(b, 46),
            value_end_t1: TempStatus::spec_from_bytes(b, 51),
            _pad_5_zero: spec_array7(b, 53),
        }
    }

    /// The 60 bytes of the report, field by field in declaration order, integers
    /// little-endian.
    pub open spec fn spec_bytes(&self) -> Seq<u8> {
        self.spec_head_bytes() + self.spec_fans_bytes() + self.spec_tail_bytes()
    }

    /// Bytes 0 to 7: the fields before the fan records.
    pub open spec fn spec_head_bytes(&self) -> Seq<u8> {
        seq![self._always_08, self._pad] + spec_u16_le_bytes(self.msg_counter)
            + self.value_start_t1.spec_bytes() + spec_u16_le_bytes(self._pad2)
    }

    /// Bytes 8 to 35: the four fan records.
    pub open spec fn spec_fans_bytes(&self) -> Seq<u8> {
        self.fans[0].spec_bytes() + self.fans[1].spec_bytes() + self.fans[2].spec_bytes()
            + self.fans[3].spec_bytes()
    }

    /// Bytes 36 to 59: the fields after the fan records.
    pub open spec fn spec_tail_bytes(&self) -> Seq<u8> {
        spec_u16_le_bytes(self._something_le) + spec_u16_le_bytes(self._something_be)
            + spec_u16_le_bytes(self._pad3) + spec_u32_le_bytes(self.uptime_ms) + self._some_id@
            + self.value_end_t1.spec_bytes() + self._pad_5_zero@
    }

    /// The report's 60 bytes, in wire order.
    pub fn as_bytes(&self) -> (bytes: [u8; 60])
        ensures
            bytes@ == self.spec_bytes(),
    {
        let mut v: Vec<u8> = Vec::new();
        v.push(self._always_08);
        v.push(self._pad);
        push_u16_le(&mut v, self.msg_counter);
        v.push(self.value_start_t1.frac);
        v.push(self.value_start_t1.deg);
        push_u16_le(&mut v, self._pad2);
        push_fan(&mut v, &self.fans[0]);
        push_fan(&mut v, &self.fans[1]);
        push_fan(&mut v, &self.fans[2]);
        push_fan(&mut v, &self.fans[3]);
        push_u16_le(&mut v, self._something_le);
        push_u16_le(&mut v, self._something_be);
        push_u16_le(&mut v, self._pad3);
        push_u32_le(&mut v, self.uptime_ms);
        push_all(&mut v, self._some_id.as_slice());
        v.push(self.value_end_t1.frac);
        v.push(self.value_end_t1.deg);
        push_all(&mut v, self._pad_5_zero.as_slice());
        assert(v@ =~= self.spec_bytes());
        array60(&v)
    }

    /// Reads a status report from exactly 60 bytes.
    pub fn read_from(bytes: &[u8]) -> (res: Option<Status>)
        ensures
            res == (if bytes@.len() == STATUS_SIZE {
                Some(Status::spec_from_bytes(bytes@))
            } else {
                None::<Status>
            }),
    {
        if bytes.len() != STATUS_SIZE {
            return None;
        }
        let fans = [
            FanStatus::read_at(bytes, 8),
            FanStatus::read_at(bytes, 15),
            FanStatus::read_at(bytes, 22),
            FanStatus::read_at(bytes, 29),
        ];
        let status = Status {
            _always_08: bytes[0],
            _pad: bytes[1],
            msg_counter: read_u16_le(bytes, 2),
            value_start_t1: TempStatus::read_at(bytes, 4),
            _pad2: read_u16_le(bytes, 6),
            fans,
            _something_le: read_u16_le(bytes, 36),
            _something_be: read_u16_le(bytes, 38),
            _pad3: read_u16_le(bytes, 40),
            uptime_ms: read_u32_le(bytes, 42),
            _some_id: read_array5(bytes, 46),
            value_end_t1: TempStatus::read_at(bytes, 51),
            _pad_5_zero: read_array7(bytes, 53),
        };
        assert(status.fans =~= Status::spec_from_bytes(bytes@).fans);
        Some(status)
    }
}

impl Msg {
    /// Decodes a reply. A message whose checksum fails is refused with `CrcError`; a
    /// status reply (command 0x12) must carry the reply magic 0xff, else it is refused
    /// with `ParseError`. No other command is understood yet.
    pub fn parse(&self) -> (res: Result<crate::Msg, H100iError>)
        requires
            !self.crc_ok() || self.command == 0x12,
        ensures
            !self.crc_ok() ==> (res matches Err(H100iError::CrcError(raw)) && raw@
                == self.spec_bytes()),
            self.crc_ok() && self.magic != 0xff ==> (res matches Err(
                H100iError::ParseError((why, raw)),
            ) && why@ == "magic was not 0xff"@ && raw@ == self.spec_bytes()),
            self.crc_ok() && self.magic == 0xff ==> res == Ok::<crate::Msg, H100iError>(
                crate::Msg::Status(
                    StatusMsg::spec_from_status(Status::spec_from_bytes(self.payload@)),
                ),
            ),
            self.crc_ok() && self.magic == 0xff ==> (res matches Ok(crate::Msg::Status(sm)) && {
                let p = self.payload@;
                &&& sm.temperature_1 == (TempStatus { frac: p[4], deg: p[5] })
                &&& sm.temperature_2 == (TempStatus { frac: p[51], deg: p[52] })
                &&& sm.msg_counter == p[2] + 256 * p[3]
                &&& sm.uptime_ms == p[42] + 256 * p[43] + 65536 * p[44] + 16777216 * p[45]
                &&& forall|k: int|
                    0 <= k < 4 ==> {
                        &&& (#[trigger] sm.fans[k]).duty_cycle.0 == p[8 + 7 * k]
                        &&& sm.fans[k].speed.0 == p[12 + 7 * k] + 256 * p[13 + 7 * k]
                    }
            }),
    {
        if !self.is_valid() {
            let res = self.as_array();
            return Err(H100iError::CrcError(res));
        }
        if self.command == 0x12 {
            if self.magic != 0xff {
                return Err(H100iError::ParseError(("magic was not 0xff".to_owned(), self.as_array())));
            }
            let wire_status = match Status::read_from(self.payload.as_slice()) {
                Some(status) => status,
                None => {
                    return Err(
                        H100iError::ParseError(("couldn't parse payload".to_owned(), self.as_array())),
                    );
                },
            };
            let mut fans = [crate::FanStatus { speed: Rpm(0), duty_cycle: DutyCycle(0) }; 4];
            let mut i: usize = 0;
            while i < 4
                invariant
                    i <= 4,
                    fans@.len() == 4,
                    forall|j: int|
                        0 <= j < i ==> fans@[j] == crate::FanStatus::spec_from_wire(
                            wire_status.fans@[j],
                        ),
                decreases 4 - i,
            {
                let fan = wire_status.fans[i];
                fans[i] = crate::FanStatus { duty_cycle: DutyCycle(fan.duty_1), speed: Rpm(fan.value) };
                i = i + 1;
            }
            let status = StatusMsg {
                msg_counter: wire_status.msg_counter,
                uptime_ms: wire_status.uptime_ms,
                temperature_1: wire_status.value_start_t1,
                temperature_2: wire_status.value_end_t1,
                fans,
            };
            assert(status.fans =~= StatusMsg::spec_from_status(wire_status).fans);
            proof {
                lemma_status_msg_reads_payload(self.payload@);
            }
            return Ok(crate::Msg::Status(status));
        }
        // Only status replies are understood; the precondition rules out every other
        // command on a message whose checksum holds.
        proof {
            assert(false);
        }
        Err(H100iError::ParseLengthError)
    }
}

/// One point of a cooling curve: at `temperature` degrees Celsius, run at `duty`.
#[derive(Copy, Clone, Debug, Eq, PartialEq)]
pub struct CurvePoint {
    pub temperature: u8,
    pub duty: u8,
}

impl CurvePoint {
    /// The point stored at `b[at..at + 2]`.
    pub open spec fn spec_from_bytes(b: Seq<u8>, at: int) -> CurvePoint {
        CurvePoint { temperature: b[at], duty: b[at + 1] }
    }

    /// The point's two bytes: temperature, then duty.
    pub open spec fn spec_bytes(&self) -> Seq<u8> {
        seq![self.temperature, self.duty]
    }

    /// Reads the point stored at `bytes[at..at + 2]`.
    pub fn read_at(bytes: &[u8], at: usize) -> (p: CurvePoint)
        requires
            at + 2 <= bytes@.len(),
        ensures
            p == CurvePoint::spec_from_bytes(bytes@, at as int),
    {
        CurvePoint { temperature: bytes[at], duty: bytes[at + 1] }
    }
}

/// A cooling curve: seven points, by rising temperature.
#[derive(Copy, Clone, Debug, Eq, PartialEq)]
pub struct CoolingCurve {
    pub curve: [CurvePoint; 7],
}

impl CoolingCurve {
    /// The curve stored at `b[at..at + 14]`.
    pub open spec fn spec_from_bytes(b: Seq<u8>, at: int) -> CoolingCurve {
        CoolingCurve {
            curve: [
                CurvePoint::spec_from_bytes(b, at),
                CurvePoint::spec_from_bytes(b, at + 2),
                CurvePoint::spec_from_bytes(b, at + 4),
                CurvePoint::spec_from_bytes(b, at + 6),
                CurvePoint::spec_from_bytes(b, at + 8),
                CurvePoint::spec_from_bytes(b, at + 10),
                CurvePoint::spec_from_bytes(b, at + 12),
            ],
        }
    }

    /// The curve's 14 bytes: its points in order.
    pub open spec fn spec_bytes(&self) -> Seq<u8> {
        Seq::new(14, |i: int| self.curve@[i / 2].spec_bytes()[i % 2])
    }

    /// The curve the vendor software stores for its balanced profile.
    pub open spec fn spec_balanced() -> CoolingCurve {
        CoolingCurve {
            curve: [
                CurvePoint { temperature: 30, duty: 51 },
                    CurvePoint { temperature: 32, duty: 79 },
                    CurvePoint { temperature: 33, duty: 105 },
                    CurvePoint { temperature: 35, duty: 135 },
                    CurvePoint { temperature: 37, duty: 173 },
                    CurvePoint { temperature: 41, duty: 212 },
                    CurvePoint { temperature: 42, duty: 255 },
            ],
        }
    }

    /// The curve the vendor software stores for its balanced profile.
    pub fn balanced() -> (c: Self)
        ensures
            c == CoolingCurve::spec_balanced(),
    {
        let c = CoolingCurve {
            curve: [
                CurvePoint { temperature: 30, duty: 51 },
                    CurvePoint { temperature: 32, duty: 79 },
                    CurvePoint { temperature: 33, duty: 105 },
                    CurvePoint { temperature: 35, duty: 135 },
                    CurvePoint { temperature: 37, duty: 173 },
                    CurvePoint { temperature: 41, duty: 212 },
                    CurvePoint { temperature: 42, duty: 255 },
            ],
        };
        assert(c.curve =~= CoolingCurve::spec_balanced().curve);
        c
    }

    /// The curve of the extreme profile.
    pub open spec fn spec_extreme() -> CoolingCurve {
        CoolingCurve {
            curve: [
                CurvePoint { temperature: 26, duty: 89 },
                    CurvePoint { temperature: 27, duty: 110 },
                    CurvePoint { temperature: 28, duty: 135 },
                    CurvePoint { temperature: 29, duty: 163 },
                    CurvePoint { temperature: 30, duty: 189 },
                    CurvePoint { temperature: 31, duty: 219 },
                    CurvePoint { temperature: 32, duty: 255 },
            ],
        }
    }

    /// The curve of the extreme profile.
    pub fn extreme() -> (c: Self)
        ensures
            c == CoolingCurve::spec_extreme(),
    {
        let c = CoolingCurve {
            curve: [
                CurvePoint { temperature: 26, duty: 89 },
                    CurvePoint { temperature: 27, duty: 110 },
                    CurvePoint { temperature: 28, duty: 135 },
                    CurvePoint { temperature: 29, duty: 163 },
                    CurvePoint { temperature: 30, duty: 189 },
                    CurvePoint { temperature: 31, duty: 219 },
                    CurvePoint { temperature: 32, duty: 255 },
            ],
        };
        assert(c.curve =~= CoolingCurve::spec_extreme().curve);
        c
    }

    /// The curve of the quiet profile (the same points as the balanced one).
    pub open spec fn spec_quiet() -> CoolingCurve {
        CoolingCurve {
            curve: [
                CurvePoint { temperature: 30, duty: 51 },
                    CurvePoint { temperature: 32, duty: 79 },
                    CurvePoint { temperature: 33, duty: 105 },
                    CurvePoint { temperature: 35, duty: 135 },
                    CurvePoint { temperature: 37, duty: 173 },
                    CurvePoint { temperature: 41, duty: 212 },
                    CurvePoint { temperature: 42, duty: 255 },
            ],
        }
    }

    /// The curve of the quiet profile (the same points as the balanced one).
    pub fn quiet() -> (c: Self)
        ensures
            c == CoolingCurve::spec_quiet(),
    {
        let c = CoolingCurve {
            curve: [
                CurvePoint { temperature: 30, duty: 51 },
                    CurvePoint { temperature: 32, duty: 79 },
                    CurvePoint { temperature: 33, duty: 105 },
                    CurvePoint { temperature: 35, duty: 135 },
                    CurvePoint { temperature: 37, duty: 173 },
                    CurvePoint { temperature: 41, duty: 212 },
                    CurvePoint { temperature: 42, duty: 255 },
            ],
        };
        assert(c.curve =~= CoolingCurve::spec_quiet().curve);
        c
    }

    /// The curve's 14 bytes, in wire order.
    pub fn as_bytes(&self) -> (bytes: [u8; 14])
        ensures
            bytes@ == self.spec_bytes(),
    {
        let mut bytes = [0u8; 14];
        let mut k: usize = 0;
        while k < 7
            invariant
                k <= 7,
                bytes@.len() == 14,
                forall|j: int| 0 <= j < 2 * k ==> bytes@[j] == self.spec_bytes()[j],
            decreases 7 - k,
        {
            let point = self.curve[k];
            bytes[2 * k] = point.temperature;
            bytes[2 * k + 1] = point.duty;
            k = k + 1;
        }
        assert(bytes@ =~= self.spec_bytes());
        bytes
    }

    /// Reads the curve stored at `bytes[at..at + 14]`.
    pub fn read_at(bytes: &[u8], at: usize) -> (c: CoolingCurve)
        requires
            at + 14 <= bytes@.len(),
        ensures
            c == CoolingCurve::spec_from_bytes(bytes@, at as int),
    {
        let c = CoolingCurve {
            curve: [
                CurvePoint { temperature: bytes[at], duty: bytes[at + 1] },
                CurvePoint { temperature: bytes[at + 2], duty: bytes[at + 3] },
                CurvePoint { temperature: bytes[at + 4], duty: bytes[at + 5] },
                CurvePoint { temperature: bytes[at + 6], duty: bytes[at + 7] },
                CurvePoint { temperature: bytes[at + 8], duty: bytes[at + 9] },
                CurvePoint { temperature: bytes[at + 10], duty: bytes[at + 11] },
                CurvePoint { temperature: bytes[at + 12], duty: bytes[at + 13] },
            ],
        };
        assert(c.curve =~= CoolingCurve::spec_from_bytes(bytes@, at as int).curve);
        c
    }
}

/// The pump's speed setting.
#[derive(Debug, Copy, Clone)]
pub enum PumpMode {
    Quiet,
    Balanced,
    Extreme,
}

impl PumpMode {
    /// The byte that encodes the mode: 0, 1 and 2, in declaration order.
    pub open spec fn spec_byte(self) -> u8 {
        match self {
            PumpMode::Quiet => 0,
            PumpMode::Balanced => 1,
            PumpMode::Extreme => 2,
        }
    }

    /// The byte that encodes the mode.
    pub fn as_byte(self) -> (b: u8)
        ensures
            b == self.spec_byte(),
    {
        match self {
            PumpMode::Quiet => 0,
            PumpMode::Balanced => 1,
            PumpMode::Extreme => 2,
        }
    }
}

impl Default for PumpMode {
    fn default() -> (mode: Self)
        ensures
            mode == PumpMode::Balanced,
    {
        PumpMode::Balanced
    }
}

/// Length in bytes of a cooling configuration.
pub const SET_COOLING_SIZE: usize = 60;

/// The payload of a cooling configuration request (command 0x14): the pump mode and the
/// curves of both fans, with constant filler around them.
#[derive(Copy, Clone, Debug)]
pub struct SetCooling {
    pub always_00_1: u8,
    pub always_ff_1: u8,
    pub always_05: u8,
    pub always_ff_2: [u8; 5],
    pub always_00_2: [u8; 12],
    /// The pump mode's byte.
    pub pump: u8,
    pub always_ff_3: [u8; 2],
    /// Varies in a second kind of request; zero here.
    pub type_2_varies: u8,
    /// 0x22 in a second kind of request; zero here.
    pub type_2_22: u8,
    pub always_ff_4: u8,
    /// 0x07 here; 0xff in a second kind of request.
    pub type_1_07: u8,
    /// The curves of the two fans.
    pub curves: [CoolingCurve; 2],
    pub always_ff_5: [u8; 5],
}

impl SetCooling {
    /// The 60 bytes of the configuration, field by field in declaration order.
    pub open spec fn spec_bytes(&self) -> Seq<u8> {
        seq![self.always_00_1, self.always_ff_1, self.always_05] + self.always_ff_2@
            + self.always_00_2@ + seq![self.pump] + self.always_ff_3@ + seq![
            self.type_2_varies,
            self.type_2_22,
            self.always_ff_4,
            self.type_1_07,
        ] + self.curves[0].spec_bytes() + self.curves[1].spec_bytes() + self.always_ff_5@
    }

    /// The configuration stored in the 60 bytes `b`.
    pub open spec fn spec_from_bytes(b: Seq<u8>) -> SetCooling {
        SetCooling {
            always_00_1: b[0],
            always_ff_1: b[1],
            always_05: b[2],
            always_ff_2: spec_array5(b, 3),
            always_00_2: spec_array12(b, 8),
            pump: b[20],
            always_ff_3: spec_array2(b, 21),
            type_2_varies: b[23],
            type_2_22: b[24],
            always_ff_4: b[25],
            type_1_07: b[26],
            curves: [CoolingCurve::spec_from_bytes(b, 27), CoolingCurve::spec_from_bytes(b, 41)],
            always_ff_5: spec_array5(b, 55),
        }
    }

    /// The request that sets the pump mode and fan curves of `config`.
    pub open spec fn spec_from_config(config: crate::Config) -> SetCooling {
        SetCooling {
            always_00_1: 0,
            always_ff_1: 0xff,
            always_05: 5,
            always_ff_2: [0xff, 0xff, 0xff, 0xff, 0xff],
            always_00_2: [0, 0, 0, 0, 0, 0, 0, 0, 0, 0, 0, 0],
            pump: config.pump.spec_byte(),
            always_ff_3: [0xff, 0xff],
            type_2_varies: 0,
            type_2_22: 0,
            always_ff_4: 0xff,
            type_1_07: 7,
            curves: config.fans,
            always_ff_5: [0xff, 0xff, 0xff, 0xff, 0xff],
        }
    }

    /// The request that sets the pump mode and fan curves of `config`.
    pub fn from_config(config: &crate::Config) -> (set_cooling: Self)
        ensures
            set_cooling == SetCooling::spec_from_config(*config),
            set_cooling.curves == config.fans,
            set_cooling.pump == config.pump.spec_byte(),
    {
        let set_cooling = SetCooling {
            always_00_1: 0,
            always_ff_1: 0xff,
            always_05: 5,
            always_ff_2: [0xff; 5],
            always_00_2: [0x0; 12],
            pump: config.pump.as_byte(),
            always_ff_3: [0xff; 2],
            type_2_varies: 0,
            type_2_22: 0,
            always_ff_4: 0xff,
            type_1_07: 7,
            curves: config.fans,
            always_ff_5: [0xff; 5],
        };
        let ghost expected = SetCooling::spec_from_config(*config);
        assert(set_cooling.always_ff_2 =~= expected.always_ff_2);
        assert(set_cooling.always_00_2 =~= expected.always_00_2);
        assert(set_cooling.always_ff_3 =~= expected.always_ff_3);
        assert(set_cooling.always_ff_5 =~= expected.always_ff_5);
        proof {
            lemma_set_config_keeps_curves(*config);
        }
        set_cooling
    }

    /// Reads a configuration from exactly 60 bytes.
    pub fn read_from(bytes: &[u8]) -> (res: Option<SetCooling>)
        ensures
            res == (if bytes@.len() == SET_COOLING_SIZE {
                Some(SetCooling::spec_from_bytes(bytes@))
            } else {
                None::<SetCooling>
            }),
            res matches Some(sc) ==> sc.pump == bytes@[20] && forall|j: int, k: int|
                0 <= j < 2 && 0 <= k < 7 ==> {
                    &&& (#[trigger] sc.curves[j].curve[k]).temperature == bytes@[27 + 14 * j + 2 * k]
                    &&& sc.curves[j].curve[k].duty == bytes@[28 + 14 * j + 2 * k]
                },
    {
        if bytes.len() != SET_COOLING_SIZE {
            return None;
        }
        let always_00_2 = [
            bytes[8],
            bytes[9],
            bytes[10],
            bytes[11],
            bytes[12],
            bytes[13],
            bytes[14],
            bytes[15],
            bytes[16],
            bytes[17],
            bytes[18],
            bytes[19],
        ];
        let always_ff_3 = [bytes[21], bytes[22]];
        let curves = [CoolingCurve::read_at(bytes, 27), CoolingCurve::read_at(bytes, 41)];
        let set_cooling = SetCooling {
            always_00_1: bytes[0],
            always_ff_1: bytes[1],
            always_05: bytes[2],
            always_ff_2: read_array5(bytes, 3),
            always_00_2,
            pump: bytes[20],
            always_ff_3,
            type_2_varies: bytes[23],
            type_2_22: bytes[24],
            always_ff_4: bytes[25],
            type_1_07: bytes[26],
            curves,
            always_ff_5: read_array5(bytes, 55),
        };
        let ghost expected = SetCooling::spec_from_bytes(bytes@);
        assert(set_cooling.always_00_2 =~= expected.always_00_2);
        assert(set_cooling.always_ff_3 =~= expected.always_ff_3);
        assert(set_cooling.curves =~= expected.curves);
        proof {
            lemma_set_cooling_read_layout(bytes@);
        }
        Some(set_cooling)
    }

    /// The configuration's 60 bytes, in wire order.
    pub fn as_bytes(&self) -> (bytes: [u8; 60])
        ensures
            bytes@ == self.spec_bytes(),
            bytes@[20] == self.pump,
            forall|j: int, k: int|
                0 <= j < 2 && 0 <= k < 7 ==> {
                    &&& bytes@[27 + 14 * j + 2 * k] == (#[trigger] self.curves[j].curve[k]).temperature
                    &&& bytes@[28 + 14 * j + 2 * k] == self.curves[j].curve[k].duty
                },
    {
        proof {
            lemma_set_cooling_layout(*self);
        }
        let mut v: Vec<u8> = Vec::new();
        v.push(self.always_00_1);
        v.push(self.always_ff_1);
        v.push(self.always_05);
        push_all(&mut v, self.always_ff_2.as_slice());
        push_all(&mut v, self.always_00_2.as_slice());
        v.push(self.pump);
        push_all(&mut v, self.always_ff_3.as_slice());
        v.push(self.type_2_varies);
        v.push(self.type_2_22);
        v.push(self.always_ff_4);
        v.push(self.type_1_07);
        push_curve(&mut v, &self.curves[0]);
        push_curve(&mut v, &self.curves[1]);
        push_all(&mut v, self.always_ff_5.as_slice());
        assert(v@ =~= self.spec_bytes());
        array60(&v)
    }
}

/// Appends the bytes of `src` to `v`.
fn push_all(v: &mut Vec<u8>, src: &[u8])
    ensures
        final(v)@ == old(v)@ + src@,
{
    let mut i: usize = 0;
    while i < src.len()
        invariant
            i <= src@.len(),
            v@ == old(v)@ + src@.take(i as int),
        decreases src@.len() - i,
    {
        v.push(src[i]);
        i = i + 1;
        assert(v@ =~= old(v)@ + src@.take(i as int));
    }
    assert(src@.take(src@.len() as int) =~= src@);
}

/// Appends the two little-endian bytes of `x` to `v`.
fn push_u16_le(v: &mut Vec<u8>, x: u16)
    ensures
        final(v)@ == old(v)@ + spec_u16_le_bytes(x),
{
    v.push((x % 256) as u8);
    v.push((x / 256) as u8);
    assert(v@ =~= old(v)@ + spec_u16_le_bytes(x));
}

/// Appends the four little-endian bytes of `x` to `v`.
fn push_u32_le(v: &mut Vec<u8>, x: u32)
    ensures
        final(v)@ == old(v)@ + spec_u32_le_bytes(x),
{
    v.push((x % 256) as u8);
    v.push(((x / 256) % 256) as u8);
    v.push(((x / 65536) % 256) as u8);
    v.push((x / 16777216) as u8);
    assert(v@ =~= old(v)@ + spec_u32_le_bytes(x));
}

/// Appends the seven bytes of `fan` to `v`.
fn push_fan(v: &mut Vec<u8>, fan: &FanStatus)
    ensures
        final(v)@ == old(v)@ + fan.spec_bytes(),
{
    v.push(fan.duty_1);
    v.push(fan._e8);
    v.push(fan._is03);
    v.push(fan.duty_2);
    push_u16_le(v, fan.value);
    v.push(fan._pad);
    assert(v@ =~= old(v)@ + fan.spec_bytes());
}

/// Appends the 14 bytes of `curve` to `v`.
fn push_curve(v: &mut Vec<u8>, curve: &CoolingCurve)
    ensures
        final(v)@ == old(v)@ + curve.spec_bytes(),
{
    let mut k: usize = 0;
    while k < 7
        invariant
            k <= 7,
            v@ == old(v)@ + curve.spec_bytes().take(2 * k as int),
        decreases 7 - k,
    {
        let point = curve.curve[k];
        v.push(point.temperature);
        v.push(point.duty);
        k = k + 1;
        assert(v@ =~= old(v)@ + curve.spec_bytes().take(2 * k as int));
    }
    assert(curve.spec_bytes().take(14) =~= curve.spec_bytes());
}

/// The 60 bytes of `v` as an array.
fn array60(v: &Vec<u8>) -> (a: [u8; 60])
    requires
        v@.len() == 60,
    ensures
        a@ == v@,
{
    let mut a = [0u8; 60];
    let mut i: usize = 0;
    while i < 60
        invariant
            i <= 60,
            v@.len() == 60,
            a@.len() == 60,
            forall|j: int| 0 <= j < i ==> a@[j] == v@[j],
        decreases 60 - i,
    {
        a[i] = v[i];
        i = i + 1;
    }
    assert(a@ =~= v@);
    a
}

// Laws of the wire format.

/// A message is determined by its bytes: reading back the bytes of a message gives the
/// same message.
pub proof fn lemma_msg_bytes_determine_msg(m1: Msg, m2: Msg)
    ensures
        m1.spec_bytes().len() == MSG_SIZE,
        m1.spec_bytes() == m2.spec_bytes() ==> m1 == m2,
{
    if m1.spec_bytes() == m2.spec_bytes() {
        let b1 = m1.spec_bytes();
        let b2 = m2.spec_bytes();
        assert(b1[0] == b2[0] && b1[1] == b2[1] && b1[2] == b2[2] && b1[63] == b2[63]);
        assert forall|i: int| 0 <= i < 60 implies m1.payload[i] == m2.payload[i] by {
            assert(b1[i + 3] == b2[i + 3]);
        }
        assert(m1.payload =~= m2.payload);
    }
}

/// A message's checksum byte is right exactly when the checksum over everything after
/// the magic byte, checksum byte included, is zero.
pub proof fn lemma_msg_crc_ok_iff_residue_zero(m: Msg)
    ensures
        m.crc_ok() <==> spec_crc8(m.spec_bytes().drop_first()) == 0,
{
    assert(m.spec_bytes().drop_first() =~= m.checked_bytes().push(m.crc));
    crate::checksum::lemma_crc8_check(m.checked_bytes(), m.crc);
}

/// Reading a cooling configuration back from its bytes gives the same configuration.
pub proof fn lemma_set_cooling_read_of_bytes(sc: SetCooling)
    ensures
        sc.spec_bytes().len() == SET_COOLING_SIZE,
        SetCooling::spec_from_bytes(sc.spec_bytes()) == sc,
{
    let b = sc.spec_bytes();
    let r = SetCooling::spec_from_bytes(b);
    assert(b.len() == 60);
    assert(r.always_ff_2 =~= sc.always_ff_2);
    assert(r.always_00_2 =~= sc.always_00_2);
    assert(r.always_ff_3 =~= sc.always_ff_3);
    assert(r.always_ff_5 =~= sc.always_ff_5);
    assert(r.curves[0].curve =~= sc.curves[0].curve);
    assert(r.curves[1].curve =~= sc.curves[1].curve);
    assert(r.curves =~= sc.curves);
}

/// The bytes of a configuration read from 60 bytes are those 60 bytes.
pub proof fn lemma_set_cooling_bytes_of_read(b: Seq<u8>)
    requires
        b.len() == SET_COOLING_SIZE,
    ensures
        SetCooling::spec_from_bytes(b).spec_bytes() == b,
{
    assert(SetCooling::spec_from_bytes(b).spec_bytes() =~= b);
}

proof fn lemma_u16_le_round_trip(v: u16)
    ensures
        spec_u16_le(spec_u16_le_bytes(v), 0) == v,
{
}

proof fn lemma_u32_le_round_trip(v: u32)
    ensures
        spec_u32_le(spec_u32_le_bytes(v), 0) == v,
{
    let b = spec_u32_le_bytes(v);
    assert(b[0] + 256 * b[1] + 65536 * b[2] + 16777216 * b[3] == v) by (nonlinear_arith)
        requires
            b[0] == v % 256,
            b[1] == (v / 256) % 256,
            b[2] == (v / 65536) % 256,
            b[3] == v / 16777216,
            0 <= v < 0x1_0000_0000,
    ;
}

proof fn lemma_fan_read_of_bytes(f: FanStatus, b: Seq<u8>, at: int)
    requires
        0 <= at,
        at + 7 <= b.len(),
        b.subrange(at, at + 7) == f.spec_bytes(),
    ensures
        FanStatus::spec_from_bytes(b, at) == f,
{
    lemma_u16_le_round_trip(f.value);
    let fb = f.spec_bytes();
    assert forall|i: int| 0 <= i < 7 implies fb[i] == b[at + i] by {
        assert(b.subrange(at, at + 7)[i] == b[at + i]);
    }
    let le = spec_u16_le_bytes(f.value);
    assert(fb[0] == f.duty_1 && fb[1] == f._e8 && fb[2] == f._is03 && fb[3] == f.duty_2);
    assert(fb[4] == le[0] && fb[5] == le[1] && fb[6] == f._pad);
    assert(spec_u16_le(fb, 4) == spec_u16_le(spec_u16_le_bytes(f.value), 0));
}

proof fn lemma_status_head(st: Status, b: Seq<u8>)
    requires
        b.len() == 60,
        b.subrange(0, 8) == st.spec_head_bytes(),
    ensures
        b[0] == st._always_08,
        b[1] == st._pad,
        spec_u16_le(b, 2) == st.msg_counter,
        TempStatus::spec_from_bytes(b, 4) == st.value_start_t1,
        spec_u16_le(b, 6) == st._pad2,
{
    let h = st.spec_head_bytes();
    lemma_u16_le_round_trip(st.msg_counter);
    lemma_u16_le_round_trip(st._pad2);
    assert(h[2] == b[2] && h[3] == b[3] && h[6] == b[6] && h[7] == b[7]);
    assert(h[0] == b[0] && h[1] == b[1] && h[4] == b[4] && h[5] == b[5]);
}

proof fn lemma_status_tail(st: Status, b: Seq<u8>)
    requires
        b.len() == 60,
        b.subrange(36, 60) == st.spec_tail_bytes(),
    ensures
        spec_u16_le(b, 36) == st._something_le,
        spec_u16_le(b, 38) == st._something_be,
        spec_u16_le(b, 40) == st._pad3,
        spec_u32_le(b, 42) == st.uptime_ms,
        spec_array5(b, 46) == st._some_id,
        TempStatus::spec_from_bytes(b, 51) == st.value_end_t1,
        spec_array7(b, 53) == st._pad_5_zero,
{
    let t = st.spec_tail_bytes();
    lemma_u16_le_round_trip(st._something_le);
    lemma_u16_le_round_trip(st._something_be);
    lemma_u16_le_round_trip(st._pad3);
    lemma_u32_le_round_trip(st.uptime_ms);
    assert forall|i: int| 0 <= i < 24 implies t[i] == b[36 + i] by {
        assert(b.subrange(36, 60)[i] == b[36 + i]);
    }
    assert(t.subrange(0, 2) =~= spec_u16_le_bytes(st._something_le));
    assert(t.subrange(2, 4) =~= spec_u16_le_bytes(st._something_be));
    assert(t.subrange(4, 6) =~= spec_u16_le_bytes(st._pad3));
    assert(t.subrange(6, 10) =~= spec_u32_le_bytes(st.uptime_ms));
    assert(t.subrange(10, 15) =~= st._some_id@);
    assert(t.subrange(15, 17) =~= st.value_end_t1.spec_bytes());
    assert(t.subrange(17, 24) =~= st._pad_5_zero@);
    assert forall|i: int| 0 <= i < 5 implies spec_array5(b, 46)[i] == st._some_id[i] by {
        assert(t.subrange(10, 15)[i] == t[10 + i]);
    }
    assert forall|i: int| 0 <= i < 7 implies spec_array7(b, 53)[i] == st._pad_5_zero[i] by {
        assert(t.subrange(17, 24)[i] == t[17 + i]);
    }
    assert(t.subrange(15, 17)[0] == t[15] && t.subrange(15, 17)[1] == t[16]);
    assert(spec_array5(b, 46) =~= st._some_id);
    assert(spec_array7(b, 53) =~= st._pad_5_zero);
}

proof fn lemma_status_fans(st: Status, b: Seq<u8>)
    requires
        b.len() == 60,
        b.subrange(8, 36) == st.spec_fans_bytes(),
    ensures
        FanStatus::spec_from_bytes(b, 8) == st.fans[0],
        FanStatus::spec_from_bytes(b, 15) == st.fans[1],
        FanStatus::spec_from_bytes(b, 22) == st.fans[2],
        FanStatus::spec_from_bytes(b, 29) == st.fans[3],
{
    let fb = st.spec_fans_bytes();
    assert forall|i: int| 0 <= i < 28 implies fb[i] == b[8 + i] by {
        assert(b.subrange(8, 36)[i] == b[8 + i]);
    }
    assert(b.subrange(8, 15) =~= fb.subrange(0, 7));
    assert(b.subrange(15, 22) =~= fb.subrange(7, 14));
    assert(b.subrange(22, 29) =~= fb.subrange(14, 21));
    assert(b.subrange(29, 36) =~= fb.subrange(21, 28));
    assert(fb.subrange(0, 7) =~= st.fans[0].spec_bytes());
    assert(fb.subrange(7, 14) =~= st.fans[1].spec_bytes());
    assert(fb.subrange(14, 21) =~= st.fans[2].spec_bytes());
    assert(fb.subrange(21, 28) =~= st.fans[3].spec_bytes());
    lemma_fan_read_of_bytes(st.fans[0], b, 8);
    lemma_fan_read_of_bytes(st.fans[1], b, 15);
    lemma_fan_read_of_bytes(st.fans[2], b, 22);
    lemma_fan_read_of_bytes(st.fans[3], b, 29);
}

proof fn lemma_status_parts(st: Status)
    ensures
        st.spec_bytes().len() == 60,
        st.spec_bytes().subrange(0, 8) == st.spec_head_bytes(),
        st.spec_bytes().subrange(8, 36) == st.spec_fans_bytes(),
        st.spec_bytes().subrange(36, 60) == st.spec_tail_bytes(),
{
    let h = st.spec_head_bytes();
    let f = st.spec_fans_bytes();
    let t = st.spec_tail_bytes();
    assert(h.len() == 8 && f.len() == 28 && t.len() == 24);
    assert((h + f + t).subrange(0, 8) =~= h);
    assert((h + f + t).subrange(8, 36) =~= f);
    assert((h + f + t).subrange(36, 60) =~= t);
}

/// Reading a status report back from its bytes gives the same report.
pub proof fn lemma_status_read_of_bytes(st: Status)
    ensures
        st.spec_bytes().len() == STATUS_SIZE,
        Status::spec_from_bytes(st.spec_bytes()) == st,
{
    let b = st.spec_bytes();
    let r = Status::spec_from_bytes(b);
    lemma_status_parts(st);
    lemma_status_head(st, b);
    lemma_status_tail(st, b);
    lemma_status_fans(st, b);
    assert(r.fans =~= st.fans);
}

proof fn lemma_u16_le_bytes_of_value(b: Seq<u8>, at: int)
    requires
        0 <= at,
        at + 2 <= b.len(),
    ensures
        spec_u16_le_bytes(spec_u16_le(b, at)) == b.subrange(at, at + 2),
{
    assert(spec_u16_le_bytes(spec_u16_le(b, at)) =~= b.subrange(at, at + 2));
}

proof fn lemma_u32_le_bytes_of_value(b: Seq<u8>, at: int)
    requires
        0 <= at,
        at + 4 <= b.len(),
    ensures
        spec_u32_le_bytes(spec_u32_le(b, at)) == b.subrange(at, at + 4),
{
    let v = spec_u32_le(b, at);
    let (b0, b1, b2, b3) = (b[at], b[at + 1], b[at + 2], b[at + 3]);
    assert(v % 256 == b0 && (v / 256) % 256 == b1 && (v / 65536) % 256 == b2 && v / 16777216
        == b3) by (nonlinear_arith)
        requires
            v == b0 + 256 * b1 + 65536 * b2 + 16777216 * b3,
            0 <= b0 < 256,
            0 <= b1 < 256,
            0 <= b2 < 256,
            0 <= b3 < 256,
    ;
    assert(spec_u32_le_bytes(v) =~= b.subrange(at, at + 4));
}

/// The bytes of a status report read from 60 bytes are those 60 bytes.
pub proof fn lemma_status_bytes_of_read(b: Seq<u8>)
    requires
        b.len() == STATUS_SIZE,
    ensures
        Status::spec_from_bytes(b).spec_bytes() == b,
{
    let st = Status::spec_from_bytes(b);
    lemma_status_parts(st);
    lemma_u16_le_bytes_of_value(b, 2);
    lemma_u16_le_bytes_of_value(b, 6);
    lemma_u16_le_bytes_of_value(b, 12);
    lemma_u16_le_bytes_of_value(b, 19);
    lemma_u16_le_bytes_of_value(b, 26);
    lemma_u16_le_bytes_of_value(b, 33);
    lemma_u16_le_bytes_of_value(b, 36);
    lemma_u16_le_bytes_of_value(b, 38);
    lemma_u16_le_bytes_of_value(b, 40);
    lemma_u32_le_bytes_of_value(b, 42);
    assert(st.spec_head_bytes() =~= b.subrange(0, 8));
    assert(st.spec_fans_bytes() =~= b.subrange(8, 36));
    assert(st.spec_tail_bytes() =~= b.subrange(36, 60));
    assert(st.spec_bytes() =~= b);
}

/// Where a configuration's fields sit in its bytes: the pump byte at 20, and point `k` of
/// fan `j`'s curve at `27 + 14 * j + 2 * k` (temperature) and the byte after (duty).
pub proof fn lemma_set_cooling_layout(sc: SetCooling)
    ensures
        sc.spec_bytes().len() == SET_COOLING_SIZE,
        sc.spec_bytes()[20] == sc.pump,
        forall|j: int, k: int|
            0 <= j < 2 && 0 <= k < 7 ==> {
                &&& sc.spec_bytes()[27 + 14 * j + 2 * k] == (#[trigger] sc.curves[j].curve[k]).temperature
                &&& sc.spec_bytes()[28 + 14 * j + 2 * k] == sc.curves[j].curve[k].duty
            },
{
    let b = sc.spec_bytes();
    assert(b.len() == 60);
    assert forall|j: int, k: int| 0 <= j < 2 && 0 <= k < 7 implies {
        &&& b[27 + 14 * j + 2 * k] == (#[trigger] sc.curves[j].curve[k]).temperature
        &&& b[28 + 14 * j + 2 * k] == sc.curves[j].curve[k].duty
    } by {
        let c = sc.curves[j].spec_bytes();
        assert(c[2 * k] == sc.curves[j].curve[k].temperature);
        assert(c[2 * k + 1] == sc.curves[j].curve[k].duty);
        if j == 0 {
            assert(b[27 + 2 * k] == c[2 * k]);
            assert(b[28 + 2 * k] == c[2 * k + 1]);
        } else {
            assert(b[41 + 2 * k] == c[2 * k]);
            assert(b[42 + 2 * k] == c[2 * k + 1]);
        }
    }
}

/// Where a configuration read from 60 bytes finds its fields: the pump byte at 20, and
/// point `k` of fan `j`'s curve at `27 + 14 * j + 2 * k` and the byte after.
pub proof fn lemma_set_cooling_read_layout(b: Seq<u8>)
    requires
        b.len() == SET_COOLING_SIZE,
    ensures
        SetCooling::spec_from_bytes(b).pump == b[20],
        forall|j: int, k: int|
            0 <= j < 2 && 0 <= k < 7 ==> {
                &&& (#[trigger] SetCooling::spec_from_bytes(b).curves[j].curve[k]).temperature == b[27 + 14 * j + 2 * k]
                &&& SetCooling::spec_from_bytes(b).curves[j].curve[k].duty == b[28 + 14 * j + 2 * k]
            },
{
    lemma_set_cooling_bytes_of_read(b);
    lemma_set_cooling_layout(SetCooling::spec_from_bytes(b));
}

/// The request built from a configuration sets the fans to the configuration's own curves
/// and the pump to its mode, whatever that mode is: point `k` of fan `j` lands at bytes
/// `27 + 14 * j + 2 * k` and the one after, and the pump byte 20 is 0, 1 or 2 for quiet,
/// balanced or extreme.
pub proof fn lemma_set_config_keeps_curves(config: crate::Config)
    ensures
        SetCooling::spec_from_config(config).curves == config.fans,
        SetCooling::spec_from_config(config).spec_bytes().subrange(0, 20) == seq![
            0u8, 0xff, 5, 0xff, 0xff, 0xff, 0xff, 0xff, 0, 0, 0, 0, 0, 0, 0, 0, 0, 0, 0, 0,
        ],
        SetCooling::spec_from_config(config).spec_bytes().subrange(21, 27) == seq![
            0xffu8, 0xff, 0, 0, 0xff, 7,
        ],
        SetCooling::spec_from_config(config).spec_bytes().subrange(55, 60) == seq![
            0xffu8, 0xff, 0xff, 0xff, 0xff,
        ],
        SetCooling::spec_from_config(config).spec_bytes()[20] == (match config.pump {
            PumpMode::Quiet => 0u8,
            PumpMode::Balanced => 1u8,
            PumpMode::Extreme => 2u8,
        }),
        forall|j: int, k: int|
            0 <= j < 2 && 0 <= k < 7 ==> {
                &&& SetCooling::spec_from_config(config).spec_bytes()[27 + 14 * j + 2 * k]
                    == (#[trigger] config.fans[j].curve[k]).temperature
                &&& SetCooling::spec_from_config(config).spec_bytes()[28 + 14 * j + 2 * k]
                    == config.fans[j].curve[k].duty
            },
{
    let sc = SetCooling::spec_from_config(config);
    lemma_set_cooling_layout(sc);
    let b = sc.spec_bytes();
    assert(b.subrange(0, 20) =~= seq![
        0u8, 0xff, 5, 0xff, 0xff, 0xff, 0xff, 0xff, 0, 0, 0, 0, 0, 0, 0, 0, 0, 0, 0, 0,
    ]);
    assert(b.subrange(21, 27) =~= seq![0xffu8, 0xff, 0, 0, 0xff, 7]);
    assert(b.subrange(55, 60) =~= seq![0xffu8, 0xff, 0xff, 0xff, 0xff]);
    assert forall|j: int, k: int| 0 <= j < 2 && 0 <= k < 7 implies {
        &&& sc.spec_bytes()[27 + 14 * j + 2 * k] == (#[trigger] config.fans[j].curve[k]).temperature
        &&& sc.spec_bytes()[28 + 14 * j + 2 * k] == config.fans[j].curve[k].duty
    } by {
        assert(sc.curves[j].curve[k] == config.fans[j].curve[k]);
    }
}

/// What a status reply reports is read from the sensor fields of its payload: the inflow
/// temperature from bytes 4 (fraction) and 5 (degrees), the outflow temperature from bytes
/// 51 and 52, the counter from bytes 2 and 3 and the uptime from bytes 42 to 45
/// (little-endian), and fan `k`'s duty cycle from byte `8 + 7 * k` and its speed from
/// bytes `12 + 7 * k` and `13 + 7 * k`.
pub proof fn lemma_status_msg_reads_payload(p: Seq<u8>)
    requires
        p.len() == STATUS_SIZE,
    ensures
        ({
            let sm = StatusMsg::spec_from_status(Status::spec_from_bytes(p));
            &&& sm.temperature_1 == (TempStatus { frac: p[4], deg: p[5] })
            &&& sm.temperature_2 == (TempStatus { frac: p[51], deg: p[52] })
            &&& sm.msg_counter == p[2] + 256 * p[3]
            &&& sm.uptime_ms == p[42] + 256 * p[43] + 65536 * p[44] + 16777216 * p[45]
            &&& forall|k: int|
                0 <= k < 4 ==> {
                    &&& (#[trigger] sm.fans[k]).duty_cycle.0 == p[8 + 7 * k]
                    &&& sm.fans[k].speed.0 == p[12 + 7 * k] + 256 * p[13 + 7 * k]
                }
        }),
{
    let sm = StatusMsg::spec_from_status(Status::spec_from_bytes(p));
    assert(p[2] + 256 * p[3] < 65536);
    assert(p[42] + 256 * p[43] + 65536 * p[44] + 16777216 * p[45] < 0x1_0000_0000);
    assert forall|k: int| 0 <= k < 4 implies {
        &&& (#[trigger] sm.fans[k]).duty_cycle.0 == p[8 + 7 * k]
        &&& sm.fans[k].speed.0 == p[12 + 7 * k] + 256 * p[13 + 7 * k]
    } by {
        assert(p[12 + 7 * k] + 256 * p[13 + 7 * k] < 65536);
        if k == 0 {
        } else if k == 1 {
        } else if k == 2 {
        } else {
        }
    }
}

/// Where a status report read from 60 bytes finds each field: integers little-endian,
/// the fan records seven bytes apart from byte 8.
pub proof fn lemma_status_fields(p: Seq<u8>)
    requires
        p.len() == STATUS_SIZE,
    ensures
        ({
            let st = Status::spec_from_bytes(p);
            &&& st._always_08 == p[0] && st._pad == p[1]
            &&& st.msg_counter == p[2] + 256 * p[3]
            &&& st.value_start_t1.frac == p[4] && st.value_start_t1.deg == p[5]
            &&& st._pad2 == p[6] + 256 * p[7]
            &&& st._something_le == p[36] + 256 * p[37]
            &&& st._something_be == p[38] + 256 * p[39]
            &&& st._pad3 == p[40] + 256 * p[41]
            &&& st.uptime_ms == p[42] + 256 * p[43] + 65536 * p[44] + 16777216 * p[45]
            &&& st._some_id@ == p.subrange(46, 51)
            &&& st.value_end_t1.frac == p[51] && st.value_end_t1.deg == p[52]
            &&& st._pad_5_zero@ == p.subrange(53, 60)
            &&& forall|k: int|
                0 <= k < 4 ==> {
                    &&& (#[trigger] st.fans[k]).duty_1 == p[8 + 7 * k]
                    &&& st.fans[k]._e8 == p[9 + 7 * k]
                    &&& st.fans[k]._is03 == p[10 + 7 * k]
                    &&& st.fans[k].duty_2 == p[11 + 7 * k]
                    &&& st.fans[k].value == p[12 + 7 * k] + 256 * p[13 + 7 * k]
                    &&& st.fans[k]._pad == p[14 + 7 * k]
                }
        }),
{
    let st = Status::spec_from_bytes(p);
    assert(st._some_id@ =~= p.subrange(46, 51));
    assert(st._pad_5_zero@ =~= p.subrange(53, 60));
    assert(p[2] + 256 * p[3] < 65536 && p[6] + 256 * p[7] < 65536);
    assert(p[36] + 256 * p[37] < 65536 && p[38] + 256 * p[39] < 65536 && p[40] + 256 * p[41]
        < 65536);
    assert(p[42] + 256 * p[43] + 65536 * p[44] + 16777216 * p[45] < 0x1_0000_0000);
    assert forall|k: int| 0 <= k < 4 implies {
        &&& (#[trigger] st.fans[k]).duty_1 == p[8 + 7 * k]
        &&& st.fans[k]._e8 == p[9 + 7 * k]
        &&& st.fans[k]._is03 == p[10 + 7 * k]
        &&& st.fans[k].duty_2 == p[11 + 7 * k]
        &&& st.fans[k].value == p[12 + 7 * k] + 256 * p[13 + 7 * k]
        &&& st.fans[k]._pad == p[14 + 7 * k]
    } by {
        assert(p[12 + 7 * k] + 256 * p[13 + 7 * k] < 65536);
        if k == 0 {
        } else if k == 1 {
        } else if k == 2 {
        } else {
        }
    }
}

} // verus!

//! Host-side protocol library for a Corsair H100i liquid cooler.

use vstd::prelude::*;

use crate::checksum::spec_crc8;

pub mod checksum;
pub mod wire;

verus! {

/// What can go wrong when talking to the cooler.
#[derive(Debug)]
pub enum H100iError {
    /// No USB device with the cooler's vendor and product id was found.
    NoDevice,
    /// A message was well framed but its contents could not be understood; carries a
    /// description and the raw message.
    ParseError((String, [u8; 64])),
    /// A message's checksum did not match its contents; carries the raw message.
    CrcError([u8; 64]),
    /// A byte buffer did not have the length of a message.
    ParseLengthError,
}


/// A fan's duty cycle, 0 to 255.
#[derive(Copy, Clone, Debug, Default)]
pub struct DutyCycle(pub u8);

/// A rotation speed in revolutions per minute.
#[derive(Copy, Clone, Debug, Default)]
pub struct Rpm(pub u16);

/// What a status reply says about one fan (or the pump).
#[derive(Copy, Clone, Debug, Default)]
pub struct FanStatus {
    pub speed: Rpm,
    pub duty_cycle: DutyCycle,
}

impl FanStatus {
    /// The speed and duty cycle that a wire fan record reports.
    pub open spec fn spec_from_wire(f: wire::FanStatus) -> FanStatus {
        FanStatus { speed: Rpm(f.value), duty_cycle: DutyCycle(f.duty_1) }
    }
}

/// A decoded status reply. Temperatures are kept as the device reports them: whole
/// degrees plus 255ths of a degree.
#[derive(Copy, Clone, Debug)]
pub struct StatusMsg {
    pub temperature_1: wire::TempStatus,
    pub temperature_2: wire::TempStatus,
    pub uptime_ms: u32,
    pub msg_counter: u16,
    pub fans: [FanStatus; 4],
}

impl StatusMsg {
    /// What a wire status report says, in the terms of `StatusMsg`.
    pub open spec fn spec_from_status(st: wire::Status) -> StatusMsg {
        StatusMsg {
            temperature_1: st.value_start_t1,
            temperature_2: st.value_end_t1,
            uptime_ms: st.uptime_ms,
            msg_counter: st.msg_counter,
            fans: [
                FanStatus::spec_from_wire(st.fans[0]),
                FanStatus::spec_from_wire(st.fans[1]),
                FanStatus::spec_from_wire(st.fans[2]),
                FanStatus::spec_from_wire(st.fans[3]),
            ],
        }
    }
}

/// A decoded message from the device.
#[derive(Copy, Clone, Debug)]
pub enum Msg {
    Status(StatusMsg),
}

/// A cooling configuration: the pump mode and the curves of the two fans.
#[derive(Copy, Clone, Debug)]
pub struct Config {
    pub pump: wire::PumpMode,
    pub fans: [wire::CoolingCurve; 2],
}

impl Config {
    /// The balanced profile: balanced pump, balanced curve on both fans.
    pub fn balanced() -> (config: Self)
        ensures
            config.pump == wire::PumpMode::Balanced,
            config.fans@ == seq![wire::CoolingCurve::spec_balanced(), wire::CoolingCurve::spec_balanced()],
    {
        Config {
            pump: wire::PumpMode::Balanced,
            fans: [wire::CoolingCurve::balanced(), wire::CoolingCurve::balanced()],
        }
    }

    /// The extreme profile: extreme pump, extreme curve on both fans.
    pub fn extreme() -> (config: Self)
        ensures
            config.pump == wire::PumpMode::Extreme,
            config.fans@ == seq![wire::CoolingCurve::spec_extreme(), wire::CoolingCurve::spec_extreme()],
    {
        Config {
            pump: wire::PumpMode::Extreme,
            fans: [wire::CoolingCurve::extreme(), wire::CoolingCurve::extreme()],
        }
    }

    /// The quiet profile: quiet pump, quiet curve on both fans.
    pub fn quiet() -> (config: Self)
        ensures
            config.pump == wire::PumpMode::Quiet,
            config.fans@ == seq![wire::CoolingCurve::spec_quiet(), wire::CoolingCurve::spec_quiet()],
    {
        Config {
            pump: wire::PumpMode::Quiet,
            fans: [wire::CoolingCurve::quiet(), wire::CoolingCurve::quiet()],
        }
    }
}

/// USB vendor id of the cooler.
pub const VENDOR_ID: u16 = 0x1b1c;

/// USB product id of the cooler.
pub const PRODUCT_ID: u16 = 0x0c35;

/// Whether a USB device with these ids is the cooler.
pub fn is_h100i(vendor_id: u16, product_id: u16) -> (found: bool)
    ensures
        found == (vendor_id == VENDOR_ID && product_id == PRODUCT_ID),
{
    vendor_id == VENDOR_ID && product_id == PRODUCT_ID
}

/// The feature report that carries a request: a zero report id, then the 64 bytes of the
/// request message (magic 0x3f, `sequence`, `command`, `payload`, and the checksum of
/// everything after the magic byte).
pub open spec fn spec_request(sequence: u8, command: u8, payload: Seq<u8>) -> Seq<u8> {
    seq![0u8, 0x3f, sequence, command] + payload + seq![
        spec_crc8(seq![sequence, command] + payload),
    ]
}

/// Builds the requests sent to the cooler, numbering them.
pub struct RequestBuilder {
    /// The sequence number of the last request built.
    pub sequence: u8,
}

impl RequestBuilder {
    /// A builder whose first request carries the sequence number 0x98.
    pub fn new() -> (builder: Self)
        ensures
            builder.sequence == 0x90,
    {
        RequestBuilder { sequence: 0x90 }
    }

    /// Advances the sequence number by 8, wrapping around, and returns the new number.
    pub fn advance_sequence(&mut self) -> (sequence: u8)
        ensures
            sequence == (old(self).sequence + 8) % 256,
            final(self).sequence == sequence,
    {
        let v = self.sequence.wrapping_add(8);
        self.sequence = v;
        v
    }

    /// `v` with a zero byte in front, the report id that a feature report starts with.
    pub fn prepend_zero(v: &[u8]) -> (report: Vec<u8>)
        ensures
            report@ == seq![0u8] + v@,
    {
        let mut new_v: Vec<u8> = Vec::new();
        new_v.push(0);
        let mut i: usize = 0;
        while i < v.len()
            invariant
                i <= v@.len(),
                new_v@ == seq![0u8] + v@.take(i as int),
            decreases v@.len() - i,
        {
            new_v.push(v[i]);
            i = i + 1;
            assert(new_v@ =~= seq![0u8] + v@.take(i as int));
        }
        assert(v@.take(v@.len() as int) =~= v@);
        new_v
    }

    /// The next request with the given command and payload.
    fn request(&mut self, command: u8, payload: [u8; 60]) -> (report: Vec<u8>)
        ensures
            final(self).sequence == (old(self).sequence + 8) % 256,
            report@ == spec_request(final(self).sequence, command, payload@),
    {
        let mut msg = wire::Msg::new();
        let new_sequence = self.advance_sequence();
        msg.sequence = new_sequence;
        msg.command = command;
        msg.payload = payload;
        msg.update_crc();
        let bytes = msg.as_array();
        let report = Self::prepend_zero(bytes.as_slice());
        assert(report@ =~= spec_request(new_sequence, command, payload@));
        report
    }

    /// The next status request (command 0xff, empty payload).
    pub fn status_request(&mut self) -> (report: Vec<u8>)
        ensures
            final(self).sequence == (old(self).sequence + 8) % 256,
            report@ == spec_request(final(self).sequence, 0xff, Seq::new(60, |i: int| 0u8)),
    {
        let empty = [0u8; 60];
        assert(empty@ =~= Seq::new(60, |i: int| 0u8));
        self.request(0xff, empty)
    }

    /// The next request that applies `config` (command 0x14).
    pub fn set_config_request(&mut self, config: &Config) -> (report: Vec<u8>)
        ensures
            final(self).sequence == (old(self).sequence + 8) % 256,
            report@ == spec_request(
                final(self).sequence,
                0x14,
                wire::SetCooling::spec_from_config(*config).spec_bytes(),
            ),
    {
        let payload = wire::SetCooling::from_config(config).as_bytes();
        self.request(0x14, payload)
    }
}

/// Every request carries, after its report id, a message with the request magic, the
/// given sequence number, command and payload, and a checksum that the device accepts.
pub proof fn lemma_request_frames_valid_msg(sequence: u8, command: u8, payload: Seq<u8>, msg: wire::Msg)
    requires
        payload.len() == wire::PAYLOAD_SIZE,
        msg.spec_bytes() == spec_request(sequence, command, payload).drop_first(),
    ensures
        msg.magic == 0x3f,
        msg.sequence == sequence,
        msg.command == command,
        msg.payload@ == payload,
        msg.crc_ok(),
{
    let crc = spec_crc8(seq![sequence, command] + payload);
    let b = spec_request(sequence, command, payload).drop_first();
    assert(b =~= seq![0x3fu8, sequence, command] + payload + seq![crc]);
    let m = msg.spec_bytes();
    assert(m[0] == 0x3f && m[1] == sequence && m[2] == command && m[63] == crc);
    assert(msg.payload@ =~= m.subrange(3, 63));
    assert(b.subrange(3, 63) =~= payload);
    assert(msg.checked_bytes() =~= seq![sequence, command] + payload);
}

/// Where a request's parts sit in its report: report id 0, the request magic 0x3f, the
/// sequence number, the command, the 60 payload bytes, and last the checksum of every byte
/// from the sequence number through the payload.
pub proof fn lemma_request_layout(sequence: u8, command: u8, payload: Seq<u8>)
    requires
        payload.len() == wire::PAYLOAD_SIZE,
    ensures
        ({
            let r = spec_request(sequence, command, payload);
            &&& r.len() == wire::MSG_SIZE + 1
            &&& r[0] == 0 && r[1] == 0x3f && r[2] == sequence && r[3] == command
            &&& r.subrange(4, 64) == payload
            &&& r[64] == spec_crc8(r.subrange(2, 64))
        }),
{
    let r = spec_request(sequence, command, payload);
    assert(r.subrange(4, 64) =~= payload);
    assert(r.subrange(2, 64) =~= seq![sequence, command] + payload);
}

} // verus!

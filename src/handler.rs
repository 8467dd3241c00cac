use vstd::prelude::*;
use vstd::string::StringSliceAdditionalSpecFns;
use vstd::utf8::encode_utf8;

use crate::datalink::{le_bytes_u32, overwrite, DataFrame};
use crate::entity::Entity;
use crate::sensor::SensorRef;
use crate::switch::{SwitchRef, SwitchRequest};

verus! {

/// Echo: answers with the frame unchanged
pub const CMD_ECHO: u16 = 0x0000;

/// The number of sensors
pub const CMD_SENSOR_COUNT: u16 = 0x0100;

/// A sensor's unique id
pub const CMD_SENSOR_UNIQUE_ID: u16 = 0x0102;

/// A sensor's unit of measurement
pub const CMD_SENSOR_UNIT: u16 = 0x0104;

/// A sensor's device class
pub const CMD_SENSOR_DEVICE_CLASS: u16 = 0x0106;

/// A sensor's state class
pub const CMD_SENSOR_STATE_CLASS: u16 = 0x0108;

/// A sensor's name
pub const CMD_SENSOR_NAME: u16 = 0x0110;

/// A sensor's current value, type-tagged
pub const CMD_SENSOR_VALUE: u16 = 0x0112;

/// The number of switches
pub const CMD_SWITCH_COUNT: u16 = 0x0200;

/// A switch's unique id
pub const CMD_SWITCH_UNIQUE_ID: u16 = 0x0202;

/// A switch's name
pub const CMD_SWITCH_NAME: u16 = 0x0204;

/// A switch's state
pub const CMD_SWITCH_STATE: u16 = 0x0206;

/// Executes an action on a switch, then answers with its state
pub const CMD_SWITCH_EXEC: u16 = 0x0208;

/// Pins that are exposed to the handler
pub struct HandlerPins {}

/// The entity id at the start of a request payload, least significant byte first.
pub open spec fn requested_id(f: DataFrame) -> int {
    f.payload[0] + 0x100 * f.payload[1] + 0x1_0000 * f.payload[2] + 0x100_0000 * f.payload[3]
}

/// `new` is `old` with its payload replaced by `data`.
pub open spec fn answered(old: DataFrame, new: DataFrame, data: Seq<u8>) -> bool {
    &&& data.len() <= 255
    &&& new == DataFrame { payload_len: data.len() as u8, payload: new.payload, ..old }
    &&& new.payload@ == overwrite(old.payload@, data)
}

/// The outcome of a request for an attribute of entity `id` of `count`
/// entities: no answer without a whole id, an empty payload for an id out of
/// range, else the attribute.
pub open spec fn lookup_outcome(
    old: DataFrame,
    new: DataFrame,
    r: bool,
    count: int,
    attribute: spec_fn(int) -> Seq<u8>,
) -> bool {
    if old.payload_len < 4 {
        !r && new == old
    } else if requested_id(old) >= count {
        r && answered(old, new, Seq::empty())
    } else {
        r && answered(old, new, attribute(requested_id(old)))
    }
}

/// The answer that carries a switch state: 1 when on, 0 when off.
pub open spec fn state_byte(state: bool) -> Seq<u8> {
    seq![if state { 1u8 } else { 0u8 }]
}

/// The outcome of a request that reads back the state of a switch: no answer
/// without a whole id, an empty payload for an id out of range (the switches
/// untouched either way), else the switch executes `Get` and its result is the
/// answer.
pub open spec fn state_outcome<'a, W: SwitchRef<'a>>(
    old: DataFrame,
    new: DataFrame,
    r: bool,
    before: Seq<W>,
    after: Seq<W>,
) -> bool {
    if old.payload_len < 4 {
        !r && new == old && after == before
    } else if requested_id(old) >= before.len() {
        r && answered(old, new, Seq::empty()) && after == before
    } else {
        let id = requested_id(old);
        r && exists|s: bool, w: W|
            #[trigger] before[id].outcome(SwitchRequest::Get, s, w) && after == before.update(id, w)
                && answered(old, new, state_byte(s))
    }
}

/// The switch request that an action byte stands for.
pub open spec fn action_request(action: u8) -> Option<SwitchRequest> {
    if action == 0 {
        Some(SwitchRequest::TurnOFF)
    } else if action == 1 {
        Some(SwitchRequest::TurnON)
    } else if action == 2 {
        Some(SwitchRequest::Toggle)
    } else {
        None
    }
}

/// The outcome of a switch action request (id, then action byte): no answer
/// without a whole id; an empty payload for an id out of range; no answer
/// without the action byte; an empty payload for an unknown action; the
/// switches untouched in all these cases. Otherwise the switch executes the
/// action, then `Get`, and the result of `Get` is the answer.
pub open spec fn exec_outcome<'a, W: SwitchRef<'a>>(
    old: DataFrame,
    new: DataFrame,
    r: bool,
    before: Seq<W>,
    after: Seq<W>,
) -> bool {
    if old.payload_len < 4 {
        !r && new == old && after == before
    } else if requested_id(old) >= before.len() {
        r && answered(old, new, Seq::empty()) && after == before
    } else if old.payload_len < 5 {
        !r && new == old && after == before
    } else if action_request(old.payload[4]) is None {
        r && answered(old, new, Seq::empty()) && after == before
    } else {
        let id = requested_id(old);
        let req = action_request(old.payload[4])->0;
        r && exists|done: bool, mid: W, s: bool, w: W|
            #[trigger] before[id].outcome(req, done, mid) && #[trigger] mid.outcome(
                SwitchRequest::Get,
                s,
                w,
            ) && after == before.update(id, w) && answered(old, new, state_byte(s))
    }
}

/// Every string of the sensor registry fits a payload.
pub open spec fn sensors_ok<'a, S: SensorRef<'a>>(sensors: Seq<S>) -> bool {
    forall|i: int|
        0 <= i < sensors.len() ==> {
            &&& encode_utf8(#[trigger] sensors[i].unique_id()).len() <= 255
            &&& encode_utf8(sensors[i].unit()).len() <= 255
            &&& encode_utf8(sensors[i].name()).len() <= 255
        }
}

/// Every string of the switch registry fits a payload, and every switch can
/// execute requests.
pub open spec fn switches_ok<'a, W: SwitchRef<'a>>(switches: Seq<W>) -> bool {
    forall|i: int|
        0 <= i < switches.len() ==> {
            &&& encode_utf8(#[trigger] switches[i].unique_id()).len() <= 255
            &&& encode_utf8(switches[i].name()).len() <= 255
            &&& switches[i].ready()
        }
}

/// The commands that ask for an attribute of a sensor.
pub open spec fn is_sensor_lookup(cmd: u16) -> bool {
    ||| cmd == CMD_SENSOR_UNIQUE_ID
    ||| cmd == CMD_SENSOR_UNIT
    ||| cmd == CMD_SENSOR_DEVICE_CLASS
    ||| cmd == CMD_SENSOR_STATE_CLASS
    ||| cmd == CMD_SENSOR_NAME
    ||| cmd == CMD_SENSOR_VALUE
}

/// The attribute of sensor `s` that command `cmd` asks for, as payload bytes.
pub open spec fn sensor_attribute<'a, S: SensorRef<'a>>(cmd: u16, s: S) -> Seq<u8> {
    if cmd == CMD_SENSOR_UNIQUE_ID {
        encode_utf8(s.unique_id())
    } else if cmd == CMD_SENSOR_UNIT {
        encode_utf8(s.unit())
    } else if cmd == CMD_SENSOR_DEVICE_CLASS {
        encode_utf8(s.device_class().spec_name())
    } else if cmd == CMD_SENSOR_STATE_CLASS {
        encode_utf8(s.state_class().spec_name())
    } else if cmd == CMD_SENSOR_NAME {
        encode_utf8(s.name())
    } else {
        s.value_payload()
    }
}

/// The attribute of switch `w` that command `cmd` asks for, as payload bytes.
pub open spec fn switch_attribute<'a, W: SwitchRef<'a>>(cmd: u16, w: W) -> Seq<u8> {
    if cmd == CMD_SWITCH_UNIQUE_ID {
        encode_utf8(w.unique_id())
    } else {
        encode_utf8(w.name())
    }
}

/// What the dispatcher does with a frame: `new` is the frame afterwards, `r`
/// whether it is to be sent as the answer, and `switches_after` the switches
/// afterwards.
pub open spec fn dispatched<'a, S: SensorRef<'a>, W: SwitchRef<'a>>(
    old: DataFrame,
    new: DataFrame,
    r: bool,
    sensors: Seq<S>,
    switches: Seq<W>,
    switches_after: Seq<W>,
) -> bool {
    let cmd = old.cmd;
    if cmd == CMD_SWITCH_STATE {
        state_outcome(old, new, r, switches, switches_after)
    } else if cmd == CMD_SWITCH_EXEC {
        exec_outcome(old, new, r, switches, switches_after)
    } else {
        switches_after == switches && dispatched_other(old, new, r, sensors, switches)
    }
}

/// What the dispatcher does with a frame whose command does not operate a
/// switch.
pub open spec fn dispatched_other<'a, S: SensorRef<'a>, W: SwitchRef<'a>>(
    old: DataFrame,
    new: DataFrame,
    r: bool,
    sensors: Seq<S>,
    switches: Seq<W>,
) -> bool {
    let cmd = old.cmd;
    if cmd == CMD_ECHO {
        r && new == old
    } else if cmd == CMD_SENSOR_COUNT {
        r && answered(old, new, le_bytes_u32(sensors.len() as u32))
    } else if is_sensor_lookup(cmd) {
        lookup_outcome(old, new, r, sensors.len() as int, |i: int| sensor_attribute(cmd, sensors[i]))
    } else if cmd == CMD_SWITCH_COUNT {
        r && answered(old, new, le_bytes_u32(switches.len() as u32))
    } else if cmd == CMD_SWITCH_UNIQUE_ID || cmd == CMD_SWITCH_NAME {
        lookup_outcome(
            old,
            new,
            r,
            switches.len() as int,
            |i: int| switch_attribute(cmd, switches[i]),
        )
    } else {
        !r && new == old
    }
}

/// Unpacks the little-endian `u32` entity id at the start of the payload;
/// none if fewer than 4 payload bytes are present
fn unpack_u32(frame: &DataFrame) -> (r: Option<u32>)
    ensures
        frame.payload_len < 4 ==> r is None,
        frame.payload_len >= 4 ==> r == Some(requested_id(*frame) as u32),
        requested_id(*frame) <= u32::MAX,
{
    let b = &frame.payload;
    if frame.payload_len < 4 {
        return None;
    }
    let res: u32 = b[0] as u32 + (b[1] as u32) * 0x100 + (b[2] as u32) * 0x1_0000 + (b[3] as u32)
        * 0x100_0000;
    Some(res)
}

/// Replaces the payload by `data`
fn answer_with(frame: &mut DataFrame, data: &[u8])
    requires
        data@.len() <= 255,
    ensures
        answered(*old(frame), *final(frame), data@),
{
    let n = data.len();
    let mut i: usize = 0;
    while i < n
        invariant
            n == data@.len() <= 255,
            i <= n,
            *frame == (DataFrame { payload: frame.payload, ..*old(frame) }),
            frame.payload@ == overwrite(old(frame).payload@, data@.subrange(0, i as int)),
        decreases n - i,
    {
        frame.payload[i] = data[i];
        i = i + 1;
        assert(frame.payload@ =~= overwrite(old(frame).payload@, data@.subrange(0, i as int)));
    }
    frame.payload_len = n as u8;
    assert(data@.subrange(0, n as int) =~= data@);
}

/// Replaces the payload by the four bytes of `v`, least significant first
fn answer_with_u32(frame: &mut DataFrame, v: u32)
    ensures
        answered(*old(frame), *final(frame), le_bytes_u32(v)),
{
    let bytes: [u8; 4] = [v as u8, (v >> 8u32) as u8, (v >> 16u32) as u8, (v >> 24u32) as u8];
    assert(bytes@ =~= le_bytes_u32(v));
    answer_with(frame, bytes.as_slice());
}

/// Replaces the payload by the state byte of a switch: 1 when on, 0 when off
pub fn answer_switch_state(frame: &mut DataFrame, state: bool)
    ensures
        answered(*old(frame), *final(frame), state_byte(state)),
{
    let bytes: [u8; 1] = [if state { 1u8 } else { 0u8 }];
    assert(bytes@ =~= seq![if state { 1u8 } else { 0u8 }]);
    answer_with(frame, bytes.as_slice());
}

/// Answers a request for an attribute of a sensor
fn answer_sensor_lookup<'a, S: SensorRef<'a>>(frame: &mut DataFrame, sensors: &[S]) -> (r: bool)
    requires
        is_sensor_lookup(old(frame).cmd),
        sensors_ok(sensors@),
    ensures
        lookup_outcome(
            *old(frame),
            *final(frame),
            r,
            sensors@.len() as int,
            |i: int| sensor_attribute(old(frame).cmd, sensors@[i]),
        ),
{
    let id = match unpack_u32(frame) {
        None => return false,
        Some(id) => id,
    };
    if id as usize >= sensors.len() {
        frame.payload_len = 0;
        assert(frame.payload@ =~= overwrite(old(frame).payload@, Seq::empty()));
        return true;
    }
    let sensor = &sensors[id as usize];
    let cmd = frame.cmd;
    assert(encode_utf8(sensors@[id as int].unique_id()).len() <= 255);
    if cmd == CMD_SENSOR_VALUE {
        sensor.get_payload(&mut frame.payload_len, &mut frame.payload);
    } else {
        let text: &str = if cmd == CMD_SENSOR_UNIQUE_ID {
            sensor.get_unique_id()
        } else if cmd == CMD_SENSOR_UNIT {
            sensor.get_native_unit_of_measurement()
        } else if cmd == CMD_SENSOR_DEVICE_CLASS {
            sensor.get_device_class().as_str()
        } else if cmd == CMD_SENSOR_STATE_CLASS {
            sensor.get_state_class().as_str()
        } else {
            sensor.get_name()
        };
        answer_with(frame, text.as_bytes());
    }
    true
}

/// Answers a request for an attribute of a switch
fn answer_switch_lookup<'a, W: SwitchRef<'a>>(frame: &mut DataFrame, switches: &[W]) -> (r: bool)
    requires
        old(frame).cmd == CMD_SWITCH_UNIQUE_ID || old(frame).cmd == CMD_SWITCH_NAME,
        switches_ok(switches@),
    ensures
        lookup_outcome(
            *old(frame),
            *final(frame),
            r,
            switches@.len() as int,
            |i: int| switch_attribute(old(frame).cmd, switches@[i]),
        ),
{
    let id = match unpack_u32(frame) {
        None => return false,
        Some(id) => id,
    };
    if id as usize >= switches.len() {
        frame.payload_len = 0;
        assert(frame.payload@ =~= overwrite(old(frame).payload@, Seq::empty()));
        return true;
    }
    let switch = &switches[id as usize];
    assert(encode_utf8(switches@[id as int].unique_id()).len() <= 255);
    let text: &str = if frame.cmd == CMD_SWITCH_UNIQUE_ID {
        switch.get_unique_id()
    } else {
        switch.get_name()
    };
    answer_with(frame, text.as_bytes());
    true
}

/// The switch at `i`, to operate in place
fn switch_at<'s, W>(switches: &'s mut [W], i: usize) -> (r: &'s mut W)
    requires
        i < old(switches)@.len(),
    ensures
        *r == old(switches)@[i as int],
        final(switches)@ == old(switches)@.update(i as int, *final(r)),
{
    &mut switches[i]
}

/// Answers a request to read, or to act on and then read, a switch's state
fn answer_switch_request<'a, W: SwitchRef<'a>>(frame: &mut DataFrame, switches: &mut [W]) -> (r:
    bool)
    requires
        old(frame).cmd == CMD_SWITCH_STATE || old(frame).cmd == CMD_SWITCH_EXEC,
        switches_ok(old(switches)@),
    ensures
        old(frame).cmd == CMD_SWITCH_STATE ==> state_outcome(
            *old(frame),
            *final(frame),
            r,
            old(switches)@,
            final(switches)@,
        ),
        old(frame).cmd == CMD_SWITCH_EXEC ==> exec_outcome(
            *old(frame),
            *final(frame),
            r,
            old(switches)@,
            final(switches)@,
        ),
        final(switches)@.len() == old(switches)@.len(),
        switches_ok(final(switches)@),
{
    let id = match unpack_u32(frame) {
        None => return false,
        Some(id) => id,
    };
    if id as usize >= switches.len() {
        frame.payload_len = 0;
        assert(frame.payload@ =~= overwrite(old(frame).payload@, Seq::empty()));
        return true;
    }
    let idx = id as usize;
    let ghost before = switches@;
    let ghost id_spec = idx as int;
    assert(encode_utf8(switches@[id_spec].unique_id()).len() <= 255);
    if frame.cmd == CMD_SWITCH_EXEC {
        if frame.payload_len < 5 {
            return false;
        }
        let action = frame.payload[4];
        let req = if action == 0 {
            SwitchRequest::TurnOFF
        } else if action == 1 {
            SwitchRequest::TurnON
        } else if action == 2 {
            SwitchRequest::Toggle
        } else {
            frame.payload_len = 0;
            assert(frame.payload@ =~= overwrite(old(frame).payload@, Seq::empty()));
            return true;
        };
        let done = switch_at(switches, idx).exec_request(req);
        let ghost mid = switches@[id_spec];
        assert(encode_utf8(switches@[id_spec].unique_id()).len() <= 255);
        let state = switch_at(switches, idx).exec_request(SwitchRequest::Get);
        answer_switch_state(frame, state);
        proof {
            let w = switches@[id_spec];
            assert(before[id_spec].outcome(req, done, mid));
            assert(mid.outcome(SwitchRequest::Get, state, w));
            assert(switches@ =~= before.update(id_spec, w));
        }
    } else {
        let state = switch_at(switches, idx).exec_request(SwitchRequest::Get);
        answer_switch_state(frame, state);
        proof {
            let w = switches@[id_spec];
            assert(before[id_spec].outcome(SwitchRequest::Get, state, w));
            assert(switches@ =~= before.update(id_spec, w));
        }
    }
    true
}

/// Handles an incoming frame and prepares it as the answer.
///
/// The frame is mutated into the answer; returns true if it is to be sent.
pub fn handle_frame<'a, S: SensorRef<'a>, W: SwitchRef<'a>>(
    frame: &mut DataFrame,
    _pins: &mut HandlerPins,
    sensors: &[S],
    switches: &mut [W],
) -> (r: bool)
    requires
        sensors_ok(sensors@),
        switches_ok(old(switches)@),
    ensures
        dispatched(*old(frame), *final(frame), r, sensors@, old(switches)@, final(switches)@),
        final(switches)@.len() == old(switches)@.len(),
        switches_ok(final(switches)@),
{
    let cmd = frame.cmd;
    if cmd == CMD_ECHO {
        true
    } else if cmd == CMD_SENSOR_COUNT {
        answer_with_u32(frame, sensors.len() as u32);
        true
    } else if cmd == CMD_SENSOR_UNIQUE_ID || cmd == CMD_SENSOR_UNIT || cmd
        == CMD_SENSOR_DEVICE_CLASS || cmd == CMD_SENSOR_STATE_CLASS || cmd == CMD_SENSOR_NAME
        || cmd == CMD_SENSOR_VALUE {
        answer_sensor_lookup(frame, sensors)
    } else if cmd == CMD_SWITCH_COUNT {
        answer_with_u32(frame, switches.len() as u32);
        true
    } else if cmd == CMD_SWITCH_UNIQUE_ID || cmd == CMD_SWITCH_NAME {
        answer_switch_lookup(frame, switches)
    } else if cmd == CMD_SWITCH_STATE || cmd == CMD_SWITCH_EXEC {
        answer_switch_request(frame, switches)
    } else {
        false
    }
}

/// The answer of node `my_addr` to a frame received whole.
///
/// A frame whose frame checksum does not match, or that is addressed to
/// another node, is dropped. Otherwise the dispatcher handles it; an answer it
/// decides to send goes from `my_addr` to address 0 and carries the command
/// code that follows the request's.
pub fn answer_frame<'a, S: SensorRef<'a>, W: SwitchRef<'a>>(
    frame: DataFrame,
    my_addr: u16,
    pins: &mut HandlerPins,
    sensors: &[S],
    switches: &mut [W],
) -> (r: Option<DataFrame>)
    requires
        sensors_ok(sensors@),
        switches_ok(old(switches)@),
    ensures
        final(switches)@.len() == old(switches)@.len(),
        switches_ok(final(switches)@),
        frame.f_crc != frame.frame_checksum() || frame.dst != my_addr
            ==> r is None && final(switches)@ == old(switches)@,
        frame.f_crc == frame.frame_checksum() && frame.dst == my_addr ==> exists|
            g: DataFrame,
            sent: bool,
        |
            #[trigger] dispatched(frame, g, sent, sensors@, old(switches)@, final(switches)@) && r
                == (if sent {
                Some(DataFrame { src: my_addr, dst: 0, cmd: (frame.cmd + 1) as u16, ..g })
            } else {
                None
            }),
{
    let checked = match frame.crc_guard() {
        None => return None,
        Some(f) => f,
    };
    let mut f = match checked.addr_guard(my_addr) {
        None => return None,
        Some(f) => f,
    };
    if handle_frame(&mut f, pins, sensors, switches) {
        let ghost g = f;
        f.src = my_addr;
        f.dst = 0;
        f.cmd = f.cmd + 1;
        assert(dispatched(frame, g, true, sensors@, old(switches)@, switches@));
        Some(f)
    } else {
        assert(dispatched(frame, f, false, sensors@, old(switches)@, switches@));
        None
    }
}

} // verus!

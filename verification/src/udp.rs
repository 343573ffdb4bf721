//! The device's JSON-over-UDP control protocol.
//!
//! Outgoing datagrams — scan, turn, brightness, colorwc, devStatus — are
//! fixed JSON shapes whose only variable parts are decimal integers; this
//! module builds their exact text and states it byte for byte. Incoming
//! datagrams arrive in fixed-size, zero-padded buffers; they are trimmed,
//! decoded as JSON, and read field by field with every decision after the
//! decode verified.
//!
//! The sockets themselves live outside the library: callers send the
//! returned datagram text and hand received buffers back in.

use vstd::prelude::*;
use vstd::string::StringExecFns;
use crate::addr::{ipv4_dots_at, ipv4_octets_at, is_ipv4, parse_ipv4};
use crate::json::{
    clean_path, has_num, has_str, has_u64, json_fields, num_at, num_or_zero, parse_value, str_at,
    u64_at, JsonLeaf,
};
use crate::text::{append_dec_u64, dec_chars, digits_val, is_digits, parse_u8_dec};

verus! {

/// Unicast port for control traffic, once a device is discovered.
pub const CONTROL_PORT: u16 = 4003;

/// Multicast port the scan datagram is sent to.
pub const DISCOVERY_PORT: u16 = 4001;

/// Local port the discovery socket binds.
pub const LOCAL_BIND_PORT: u16 = 4002;

/// The multicast group that discovery scans.
pub fn multicast_group() -> (g: [u8; 4])
    ensures
        g@ == seq![239u8, 255u8, 255u8, 250u8],
{
    let g = [239, 255, 255, 250];
    proof {
        assert(g@ =~= seq![239u8, 255u8, 255u8, 250u8]);
    }
    g
}

/// A control command for the device.
#[derive(Debug, Clone, Copy)]
pub enum Cmd {
    OnOff(Turn),
    Brightness(u8),
    Color([u8; 3]),
}

/// Power state.
#[derive(Debug, Clone, Copy, PartialEq, Eq, Structural)]
pub enum Turn {
    On,
    Off,
}

/// Failures of command encoding and of status-reply handling.
#[derive(Debug, Clone, Copy, PartialEq, Eq, Structural)]
pub enum CmdErr {
    ParseIntErr,
    SerdeErr,
    InvalidBrightnessErr,
    MiscCmdErr,
    RecvErr,
}

/// Failures of discovery and connection setup.
#[derive(Debug, Clone, Copy, PartialEq, Eq, Structural)]
pub enum InitErr {
    AddrParseErr,
    MiscInitErr,
    SerdeErr,
    DevStatusErr,
}

/// A device's unicast address: four octets and a port.
#[derive(Debug, Clone, Copy)]
pub struct LampAddr {
    pub octets: [u8; 4],
    pub port: u16,
}

/// Device state captured at connect time and reported by status replies.
#[derive(Debug, Clone, Copy)]
pub struct State {
    pub pwr: Turn,
    pub bright: u8,
    pub color: [u8; 3],
    pub temp: u16,
}

/// The payload of a command: a single integer or an RGB triple.
pub enum CmdValue {
    Single(u8),
    RGB([u8; 3]),
}

// ---------------------------------------------------------------------------
// Outgoing datagram text
// ---------------------------------------------------------------------------

/// `{"msg":{"cmd":"<cmd>","data":{"value":<value>}}}`
pub open spec fn single_value_msg(cmd: Seq<char>, value: nat) -> Seq<char> {
    "{\"msg\":{\"cmd\":\""@ + cmd + "\",\"data\":{\"value\":"@ + dec_chars(value) + "}}}"@
}

/// The colorwc message up to and including the brace that closes `color`.
pub open spec fn color_msg_prefix(r: u8, g: u8, b: u8) -> Seq<char> {
    "{\"msg\":{\"cmd\":\"colorwc\",\"data\":{\"color\":{\"r\":"@ + dec_chars(r as nat) + ",\"g\":"@
        + dec_chars(g as nat) + ",\"b\":"@ + dec_chars(b as nat) + "}"@
}

/// `{"msg":{"cmd":"colorwc","data":{"color":{"r":R,"g":G,"b":B}}}}`
pub open spec fn color_msg(r: u8, g: u8, b: u8) -> Seq<char> {
    color_msg_prefix(r, g, b) + "}}}"@
}

/// The colorwc message that also restores the color temperature.
pub open spec fn color_temp_msg(r: u8, g: u8, b: u8, temp: u16) -> Seq<char> {
    color_msg_prefix(r, g, b) + ",\"colorTemInKelvin\":"@ + dec_chars(temp as nat) + "}}}"@
}

/// The multicast scan request.
pub open spec fn scan_msg() -> Seq<char> {
    "{\"msg\":{\"cmd\":\"scan\",\"data\":{\"account_topic\":\"reserve\"}}}"@
}

/// The status query.
pub open spec fn status_msg() -> Seq<char> {
    "{\"msg\":{\"cmd\":\"devStatus\",\"data\":{}}}"@
}

/// The datagram text of a command.
pub open spec fn cmd_msg(cmd: Cmd) -> Seq<char> {
    match cmd {
        Cmd::OnOff(t) => single_value_msg(
            "turn"@,
            if t is On {
                1nat
            } else {
                0nat
            },
        ),
        Cmd::Brightness(v) => single_value_msg("brightness"@, v as nat),
        Cmd::Color(c) => color_msg(c[0], c[1], c[2]),
    }
}

/// Builds a single-integer-valued command datagram.
fn build_single(cmd: &str, value: u8) -> (s: String)
    ensures
        s@ == single_value_msg(cmd@, value as nat),
{
    let mut s = String::new();
    s.append("{\"msg\":{\"cmd\":\"");
    s.append(cmd);
    s.append("\",\"data\":{\"value\":");
    append_dec_u64(&mut s, value as u64);
    s.append("}}}");
    proof {
        assert(s@ =~= single_value_msg(cmd@, value as nat));
    }
    s
}

/// Builds a colorwc command datagram.
fn build_color(r: u8, g: u8, b: u8) -> (s: String)
    ensures
        s@ == color_msg(r, g, b),
{
    let mut s = String::new();
    s.append("{\"msg\":{\"cmd\":\"colorwc\",\"data\":{\"color\":{\"r\":");
    append_dec_u64(&mut s, r as u64);
    s.append(",\"g\":");
    append_dec_u64(&mut s, g as u64);
    s.append(",\"b\":");
    append_dec_u64(&mut s, b as u64);
    s.append("}");
    s.append("}}}");
    proof {
        assert(s@ =~= color_msg(r, g, b));
    }
    s
}

/// The multicast scan request datagram.
pub fn scan_request() -> (s: String)
    ensures
        s@ == scan_msg(),
{
    String::from_str("{\"msg\":{\"cmd\":\"scan\",\"data\":{\"account_topic\":\"reserve\"}}}")
}

/// The status query datagram.
pub fn status_request() -> (s: String)
    ensures
        s@ == status_msg(),
{
    String::from_str("{\"msg\":{\"cmd\":\"devStatus\",\"data\":{}}}")
}

// ---------------------------------------------------------------------------
// Incoming datagram parsing
// ---------------------------------------------------------------------------

/// A reply buffer with its trailing zero padding removed.
pub open spec fn trim_zeros_spec(s: Seq<u8>) -> Seq<u8>
    decreases s.len(),
{
    if s.len() == 0 {
        s
    } else if s.last() == 0 {
        trim_zeros_spec(s.drop_last())
    } else {
        s
    }
}

/// Trims the trailing zero padding of a fixed-size reply buffer.
pub fn trimmer(buf: &Vec<u8>) -> (t: Vec<u8>)
    ensures
        t@ == trim_zeros_spec(buf@),
{
    let mut end: usize = buf.len();
    proof {
        assert(buf@.subrange(0, buf@.len() as int) =~= buf@);
    }
    while end > 0 && buf[end - 1] == 0
        invariant
            end <= buf@.len(),
            trim_zeros_spec(buf@) == trim_zeros_spec(buf@.subrange(0, end as int)),
        decreases end,
    {
        proof {
            assert(buf@.subrange(0, end as int).drop_last() =~= buf@.subrange(0, end - 1));
        }
        end -= 1;
    }
    let mut t: Vec<u8> = Vec::new();
    let mut i: usize = 0;
    while i < end
        invariant
            i <= end <= buf@.len(),
            t@ == buf@.subrange(0, i as int),
        decreases end - i,
    {
        t.push(buf[i]);
        proof {
            assert(buf@.subrange(0, i + 1) =~= buf@.subrange(0, i as int).push(buf@[i as int]));
        }
        i += 1;
    }
    proof {
        if end > 0 {
            assert(trim_zeros_spec(buf@.subrange(0, end as int)) == buf@.subrange(0, end as int));
        } else {
            assert(buf@.subrange(0, 0) =~= Seq::<u8>::empty());
        }
    }
    t
}

/// Pointer path of the power flag in a status reply.
pub open spec fn p_onoff() -> Seq<char> {
    "/msg/data/onOff"@
}

/// Pointer path of the brightness string in a status reply.
pub open spec fn p_brightness() -> Seq<char> {
    "/msg/data/brightness"@
}

/// Pointer paths of the color channels in a status reply.
pub open spec fn p_red() -> Seq<char> {
    "/msg/data/color/r"@
}

pub open spec fn p_green() -> Seq<char> {
    "/msg/data/color/g"@
}

pub open spec fn p_blue() -> Seq<char> {
    "/msg/data/color/b"@
}

/// Pointer path of the color temperature in a status reply.
pub open spec fn p_temp() -> Seq<char> {
    "/msg/data/colorTemInKelvin"@
}

/// Pointer path of the device address in a discovery reply.
pub open spec fn p_ip() -> Seq<char> {
    "/msg/data/ip"@
}

/// The fixed protocol paths are escape-free, as the pointer lookups
/// require.
proof fn lemma_paths_clean()
    ensures
        clean_path(p_onoff()),
        clean_path(p_brightness()),
        clean_path(p_red()),
        clean_path(p_green()),
        clean_path(p_blue()),
        clean_path(p_temp()),
        clean_path(p_ip()),
{
    reveal_strlit("/msg/data/onOff");
    reveal_strlit("/msg/data/brightness");
    reveal_strlit("/msg/data/color/r");
    reveal_strlit("/msg/data/color/g");
    reveal_strlit("/msg/data/color/b");
    reveal_strlit("/msg/data/colorTemInKelvin");
    reveal_strlit("/msg/data/ip");
}

/// The power flag of a status document is 0 or 1.
pub open spec fn onoff_good(m: Map<Seq<char>, JsonLeaf>) -> bool {
    has_u64(m, p_onoff()) && (m[p_onoff()] == JsonLeaf::U64(0) || m[p_onoff()] == JsonLeaf::U64(1))
}

/// The brightness of a status document is a string leaf.
pub open spec fn bright_leaf_good(m: Map<Seq<char>, JsonLeaf>) -> bool {
    has_str(m, p_brightness())
}

/// The brightness string parses as a decimal in [0, 255].
pub open spec fn bright_val_good(m: Map<Seq<char>, JsonLeaf>) -> bool {
    bright_leaf_good(m) && is_digits(m[p_brightness()]->Str_0) && digits_val(
        m[p_brightness()]->Str_0,
    ) <= 255
}

/// The color channels and temperature of a status document are numbers.
pub open spec fn colors_good(m: Map<Seq<char>, JsonLeaf>) -> bool {
    has_num(m, p_red()) && has_num(m, p_green()) && has_num(m, p_blue()) && has_num(m, p_temp())
}

/// All fields a status reply must carry, with the types they must have.
pub open spec fn status_good(m: Map<Seq<char>, JsonLeaf>) -> bool {
    onoff_good(m) && bright_val_good(m) && colors_good(m)
}

/// The power state a good status document reports.
pub open spec fn status_pwr(m: Map<Seq<char>, JsonLeaf>) -> Turn {
    if m[p_onoff()] == JsonLeaf::U64(1) {
        Turn::On
    } else {
        Turn::Off
    }
}

/// The brightness a good status document reports.
pub open spec fn status_bright(m: Map<Seq<char>, JsonLeaf>) -> u8 {
    digits_val(m[p_brightness()]->Str_0) as u8
}

/// A color channel of a status document, truncated to a byte as the device
/// protocol does.
pub open spec fn status_chan(m: Map<Seq<char>, JsonLeaf>, p: Seq<char>) -> u8 {
    (num_or_zero(m[p]) % 256) as u8
}

/// The color temperature of a status document, truncated to 16 bits.
pub open spec fn status_temp(m: Map<Seq<char>, JsonLeaf>) -> u16 {
    (num_or_zero(m[p_temp()]) % 65536) as u16
}

/// Parses a zero-padded status reply into a device state.
///
/// Fails with `SerdeErr` when the trimmed reply is not JSON, with
/// `ParseIntErr` when the brightness string is not a decimal in [0, 255],
/// and with `RecvErr` when any required field is missing or of the wrong
/// type, or the power flag is neither 0 nor 1.
pub fn dev_status(buf: &Vec<u8>) -> (r: Result<State, CmdErr>)
    ensures
        ({
            let doc = json_fields(trim_zeros_spec(buf@));
            match r {
                Ok(st) => {
                    &&& doc is Some
                    &&& status_good(doc->0)
                    &&& st.pwr == status_pwr(doc->0)
                    &&& st.bright == status_bright(doc->0)
                    &&& st.color@[0] == status_chan(doc->0, p_red())
                    &&& st.color@[1] == status_chan(doc->0, p_green())
                    &&& st.color@[2] == status_chan(doc->0, p_blue())
                    &&& st.temp == status_temp(doc->0)
                },
                Err(e) => match e {
                    CmdErr::SerdeErr => doc is None,
                    CmdErr::ParseIntErr => doc is Some && bright_leaf_good(doc->0)
                        && !bright_val_good(doc->0),
                    CmdErr::RecvErr => doc is Some && (!onoff_good(doc->0) || !bright_leaf_good(
                        doc->0,
                    ) || !colors_good(doc->0)),
                    _ => false,
                },
            }
        }),
{
    proof {
        lemma_paths_clean();
    }
    let trimmed = trimmer(buf);
    let v = match parse_value(trimmed.as_slice()) {
        Some(v) => v,
        None => {
            return Err(CmdErr::SerdeErr);
        },
    };
    let onoff = match u64_at(&v, "/msg/data/onOff") {
        Some(n) => n,
        None => {
            return Err(CmdErr::RecvErr);
        },
    };
    let pwr = if onoff == 1 {
        Turn::On
    } else if onoff == 0 {
        Turn::Off
    } else {
        return Err(CmdErr::RecvErr);
    };
    let bright_s = match str_at(&v, "/msg/data/brightness") {
        Some(s) => s,
        None => {
            return Err(CmdErr::RecvErr);
        },
    };
    let bright = match parse_u8_dec(bright_s.as_str()) {
        Some(b) => b,
        None => {
            return Err(CmdErr::ParseIntErr);
        },
    };
    let red = match num_at(&v, "/msg/data/color/r") {
        Some(n) => n,
        None => {
            return Err(CmdErr::RecvErr);
        },
    };
    let green = match num_at(&v, "/msg/data/color/g") {
        Some(n) => n,
        None => {
            return Err(CmdErr::RecvErr);
        },
    };
    let blue = match num_at(&v, "/msg/data/color/b") {
        Some(n) => n,
        None => {
            return Err(CmdErr::RecvErr);
        },
    };
    let temp = match num_at(&v, "/msg/data/colorTemInKelvin") {
        Some(n) => n,
        None => {
            return Err(CmdErr::RecvErr);
        },
    };
    let st = State {
        pwr,
        bright,
        color: [(red % 256) as u8, (green % 256) as u8, (blue % 256) as u8],
        temp: (temp % 65536) as u16,
    };
    Ok(st)
}

/// Parses a zero-padded discovery reply into the device's address string
/// and its four octets.
///
/// Fails with `SerdeErr` when the trimmed reply is not JSON, and with
/// `AddrParseErr` when the address field is missing, not a string, or not a
/// canonical dotted quad.
pub fn parse_discovery(buf: &Vec<u8>) -> (r: Result<(String, [u8; 4]), InitErr>)
    ensures
        ({
            let doc = json_fields(trim_zeros_spec(buf@));
            match r {
                Ok(pair) => {
                    &&& doc is Some
                    &&& has_str(doc->0, p_ip())
                    &&& doc->0[p_ip()] == JsonLeaf::Str(pair.0@)
                    &&& is_ipv4(pair.0@)
                    &&& exists|d1: int, d2: int, d3: int|
                        ipv4_dots_at(pair.0@, d1, d2, d3) && pair.1@ == ipv4_octets_at(
                            pair.0@,
                            d1,
                            d2,
                            d3,
                        )
                },
                Err(e) => match e {
                    InitErr::SerdeErr => doc is None,
                    InitErr::AddrParseErr => doc is Some && (!has_str(doc->0, p_ip()) || !is_ipv4(
                        doc->0[p_ip()]->Str_0,
                    )),
                    _ => false,
                },
            }
        }),
{
    proof {
        lemma_paths_clean();
    }
    let trimmed = trimmer(buf);
    let v = match parse_value(trimmed.as_slice()) {
        Some(v) => v,
        None => {
            return Err(InitErr::SerdeErr);
        },
    };
    let ip = match str_at(&v, "/msg/data/ip") {
        Some(s) => s,
        None => {
            return Err(InitErr::AddrParseErr);
        },
    };
    let octets = match parse_ipv4(ip.as_str()) {
        Some(o) => o,
        None => {
            return Err(InitErr::AddrParseErr);
        },
    };
    Ok((ip, octets))
}

// ---------------------------------------------------------------------------
// The lamp handle
// ---------------------------------------------------------------------------

/// A discovered device: its unicast address, the state captured at connect
/// time for restoration at shutdown, and the session's maximum brightness.
#[derive(Debug)]
pub struct Lamp {
    pub addr: LampAddr,
    pub init: State,
    pub maxb: u8,
}

impl Lamp {
    /// A lamp handle for a discovered device.
    pub fn new(addr: LampAddr, init: State) -> (l: Lamp)
        ensures
            l.addr == addr,
            l.init == init,
            l.maxb == 0,
    {
        Lamp { addr, init, maxb: 0 }
    }

    /// Encodes one command as its datagram text.
    ///
    /// Brightness values over 100 are rejected before anything is built, so
    /// nothing reaches the network for them.
    pub fn send_cmd(&self, cmd: Cmd) -> (r: Result<String, CmdErr>)
        ensures
            r is Ok <==> !(cmd matches Cmd::Brightness(v) && v > 100),
            r matches Ok(msg) ==> msg@ == cmd_msg(cmd),
            r matches Err(e) ==> e == CmdErr::InvalidBrightnessErr,
    {
        let (command, value) = match cmd {
            Cmd::OnOff(val) => {
                let v: u8 = match val {
                    Turn::On => 1,
                    Turn::Off => 0,
                };
                ("turn", CmdValue::Single(v))
            },
            Cmd::Brightness(val) => {
                if val > 100 {
                    return Err(CmdErr::InvalidBrightnessErr);
                }
                ("brightness", CmdValue::Single(val))
            },
            Cmd::Color(val) => ("colorwc", CmdValue::RGB(val)),
        };
        let msg = match value {
            CmdValue::Single(v) => build_single(command, v),
            CmdValue::RGB(c) => build_color(c[0], c[1], c[2]),
        };
        Ok(msg)
    }

    /// The three datagrams that restore the connect-time state: power,
    /// brightness, then color with temperature.
    pub fn restore(&self) -> (msgs: Vec<String>)
        ensures
            msgs@.len() == 3,
            msgs@[0]@ == single_value_msg(
                "turn"@,
                if self.init.pwr is On {
                    1nat
                } else {
                    0nat
                },
            ),
            msgs@[1]@ == single_value_msg("brightness"@, self.init.bright as nat),
            msgs@[2]@ == color_temp_msg(
                self.init.color[0],
                self.init.color[1],
                self.init.color[2],
                self.init.temp,
            ),
    {
        let pwr: u8 = match self.init.pwr {
            Turn::Off => 0,
            Turn::On => 1,
        };
        let turn = build_single("turn", pwr);
        let bright = build_single("brightness", self.init.bright);
        let mut color = String::new();
        color.append("{\"msg\":{\"cmd\":\"colorwc\",\"data\":{\"color\":{\"r\":");
        append_dec_u64(&mut color, self.init.color[0] as u64);
        color.append(",\"g\":");
        append_dec_u64(&mut color, self.init.color[1] as u64);
        color.append(",\"b\":");
        append_dec_u64(&mut color, self.init.color[2] as u64);
        color.append("}");
        color.append(",\"colorTemInKelvin\":");
        append_dec_u64(&mut color, self.init.temp as u64);
        color.append("}}}");
        proof {
            assert(color@ =~= color_temp_msg(
                self.init.color[0],
                self.init.color[1],
                self.init.color[2],
                self.init.temp,
            ));
        }
        let mut msgs: Vec<String> = Vec::new();
        msgs.push(turn);
        msgs.push(bright);
        msgs.push(color);
        msgs
    }

    /// Interprets a status reply as a health check: any parse failure
    /// signals loss of connection.
    pub fn check(&self, status_reply: &Vec<u8>) -> (r: Result<(), CmdErr>)
        ensures
            r is Ok <==> ({
                let doc = json_fields(trim_zeros_spec(status_reply@));
                doc is Some && status_good(doc->0)
            }),
            ({
                let doc = json_fields(trim_zeros_spec(status_reply@));
                match r {
                    Ok(_) => true,
                    Err(e) => match e {
                        CmdErr::SerdeErr => doc is None,
                        CmdErr::ParseIntErr => doc is Some && bright_leaf_good(doc->0)
                            && !bright_val_good(doc->0),
                        CmdErr::RecvErr => doc is Some && (!onoff_good(doc->0)
                            || !bright_leaf_good(doc->0) || !colors_good(doc->0)),
                        _ => false,
                    },
                }
            }),
    {
        match dev_status(status_reply) {
            Ok(_) => Ok(()),
            Err(err) => Err(err),
        }
    }

    /// Sets the session's maximum brightness.
    pub fn set_maxb(&mut self, maxb: u8)
        ensures
            final(self).maxb == maxb,
            final(self).addr == old(self).addr,
            final(self).init == old(self).init,
    {
        self.maxb = maxb
    }

    /// The session's maximum brightness.
    pub fn maxb(&self) -> (m: u8)
        ensures
            m == self.maxb,
    {
        self.maxb
    }
}

/// Builds a lamp handle from a discovered address and the first status
/// reply: the reply becomes the restore snapshot. Any status-parse failure
/// is a connection-setup failure.
pub fn init(ip: [u8; 4], status_reply: &Vec<u8>) -> (r: Result<Lamp, InitErr>)
    ensures
        ({
            let doc = json_fields(trim_zeros_spec(status_reply@));
            match r {
                Ok(l) => {
                    &&& doc is Some
                    &&& status_good(doc->0)
                    &&& l.addr.octets@ == ip@
                    &&& l.addr.port == CONTROL_PORT
                    &&& l.init.pwr == status_pwr(doc->0)
                    &&& l.init.bright == status_bright(doc->0)
                    &&& l.init.color@[0] == status_chan(doc->0, p_red())
                    &&& l.init.color@[1] == status_chan(doc->0, p_green())
                    &&& l.init.color@[2] == status_chan(doc->0, p_blue())
                    &&& l.init.temp == status_temp(doc->0)
                    &&& l.maxb == 0
                },
                Err(e) => {
                    &&& e == InitErr::DevStatusErr
                    &&& !({
                        let doc2 = json_fields(trim_zeros_spec(status_reply@));
                        doc2 is Some && status_good(doc2->0)
                    })
                },
            }
        }),
{
    let state = match dev_status(status_reply) {
        Ok(st) => st,
        Err(_) => {
            return Err(InitErr::DevStatusErr);
        },
    };
    let addr = LampAddr { octets: ip, port: CONTROL_PORT };
    Ok(Lamp::new(addr, state))
}

} // verus!

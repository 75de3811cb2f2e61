use vstd::prelude::*;

use crate::config::{
    ACCEL_OFFSET, CAR_CLASS_OFFSET, CAR_ORDINAL_OFFSET, CAR_PERFORMANCE_INDEX_OFFSET,
    CURRENT_ENGINE_RPM_OFFSET, CURRENT_GEAR_OFFSET, ENGINE_MAX_RPM_OFFSET, HANDBRAKE_OFFSET,
    IS_RACE_ON_OFFSET, NUM_CYLINDERS_OFFSET, PACKET_SIZE, POWER_OFFSET, TORQUE_OFFSET,
    DEFAULT_LISTEN_PORT,
};
use crate::parse::{
    digit_value, digits_value, is_digit, parse_u16, spec_parse_unsigned, trim_text, trimmed,
    unsigned_digits,
};
use crate::platform::{eq_ignore_ascii_case, text_eq_ignore_ascii_case};

verus! {

/// Identity of a car as reported by the game: ordinal, class and performance index.
#[derive(Clone, Copy, Debug, PartialEq, Eq, Structural)]
pub struct CarId {
    pub ordinal: i32,
    pub class: i32,
    pub pi: i32,
}

/// The fields of one dash packet that the HUD uses.
///
/// The four real-valued quantities are kept as the IEEE-754 bit patterns that the
/// packet carries (little endian on the wire); the application turns them into
/// numbers with `f32::from_bits`.
#[derive(Clone, Copy, Debug, PartialEq, Eq, Structural)]
pub struct TelemetrySample {
    pub rpm_bits: u32,
    pub max_rpm_bits: u32,
    pub power_bits: u32,
    pub torque_bits: u32,
    pub accel: u8,
    pub handbrake: u8,
    pub current_gear: u8,
    pub is_race_on: i32,
    pub car_ordinal: i32,
    pub car_class: i32,
    pub car_pi: i32,
    pub num_cylinders: i32,
}

/// The unsigned value of the four bytes of `buf` starting at `offset`, least
/// significant byte first.
pub open spec fn le_u32_at(buf: Seq<u8>, offset: int) -> int {
    buf[offset] + buf[offset + 1] * 0x100 + buf[offset + 2] * 0x1_0000 + buf[offset + 3]
        * 0x100_0000
}

/// The two's-complement reading of the same four bytes.
pub open spec fn le_i32_at(buf: Seq<u8>, offset: int) -> int {
    let u = le_u32_at(buf, offset);
    if u >= 0x8000_0000 {
        u - 0x1_0000_0000
    } else {
        u
    }
}

/// The packet fields of a buffer of exactly `PACKET_SIZE` bytes.
pub open spec fn spec_parse_telemetry(buf: Seq<u8>) -> TelemetrySample {
    TelemetrySample {
        rpm_bits: le_u32_at(buf, CURRENT_ENGINE_RPM_OFFSET as int) as u32,
        max_rpm_bits: le_u32_at(buf, ENGINE_MAX_RPM_OFFSET as int) as u32,
        power_bits: le_u32_at(buf, POWER_OFFSET as int) as u32,
        torque_bits: le_u32_at(buf, TORQUE_OFFSET as int) as u32,
        accel: buf[ACCEL_OFFSET as int],
        handbrake: buf[HANDBRAKE_OFFSET as int],
        current_gear: buf[CURRENT_GEAR_OFFSET as int],
        is_race_on: le_i32_at(buf, IS_RACE_ON_OFFSET as int) as i32,
        car_ordinal: le_i32_at(buf, CAR_ORDINAL_OFFSET as int) as i32,
        car_class: le_i32_at(buf, CAR_CLASS_OFFSET as int) as i32,
        car_pi: le_i32_at(buf, CAR_PERFORMANCE_INDEX_OFFSET as int) as i32,
        num_cylinders: le_i32_at(buf, NUM_CYLINDERS_OFFSET as int) as i32,
    }
}

/// Reads the little-endian `u32` at `offset`; this is the bit pattern of the
/// `f32` stored there.
pub fn u32_le(buf: &[u8], offset: usize) -> (r: Option<u32>)
    requires
        offset + 4 <= buf@.len(),
    ensures
        r matches Some(v) && v as int == le_u32_at(buf@, offset as int),
{
    let b0 = buf[offset] as u32;
    let b1 = buf[offset + 1] as u32;
    let b2 = buf[offset + 2] as u32;
    let b3 = buf[offset + 3] as u32;
    Some(b0 + b1 * 0x100 + b2 * 0x1_0000 + b3 * 0x100_0000)
}

/// Reads the little-endian `i32` at `offset`.
pub fn i32_le(buf: &[u8], offset: usize) -> (r: Option<i32>)
    requires
        offset + 4 <= buf@.len(),
    ensures
        r matches Some(v) && v as int == le_i32_at(buf@, offset as int),
{
    let u = match u32_le(buf, offset) {
        Some(u) => u,
        None => {
            return None;
        },
    };
    if u >= 0x8000_0000 {
        let low = (u - 0x8000_0000) as i32;
        Some(low + i32::MIN)
    } else {
        Some(u as i32)
    }
}

/// Decodes a datagram: `None` unless it is exactly `PACKET_SIZE` bytes long,
/// otherwise every field read at its offset.
pub fn parse_telemetry(buf: &[u8]) -> (r: Option<TelemetrySample>)
    ensures
        buf@.len() != PACKET_SIZE ==> r is None,
        buf@.len() == PACKET_SIZE ==> r == Some(spec_parse_telemetry(buf@)),
{
    if buf.len() != PACKET_SIZE {
        return None;
    }
    let max_rpm_bits = u32_le(buf, ENGINE_MAX_RPM_OFFSET)?;
    let rpm_bits = u32_le(buf, CURRENT_ENGINE_RPM_OFFSET)?;
    let power_bits = u32_le(buf, POWER_OFFSET)?;
    let torque_bits = u32_le(buf, TORQUE_OFFSET)?;
    let is_race_on = i32_le(buf, IS_RACE_ON_OFFSET)?;
    let car_ordinal = i32_le(buf, CAR_ORDINAL_OFFSET)?;
    let car_class = i32_le(buf, CAR_CLASS_OFFSET)?;
    let car_pi = i32_le(buf, CAR_PERFORMANCE_INDEX_OFFSET)?;
    let num_cylinders = i32_le(buf, NUM_CYLINDERS_OFFSET)?;
    Some(
        TelemetrySample {
            rpm_bits,
            max_rpm_bits,
            power_bits,
            torque_bits,
            accel: buf[ACCEL_OFFSET],
            handbrake: buf[HANDBRAKE_OFFSET],
            current_gear: buf[CURRENT_GEAR_OFFSET],
            is_race_on,
            car_ordinal,
            car_class,
            car_pi,
            num_cylinders,
        },
    )
}

} // verus!

verus! {

/// The decimal digit `d` as a character.
pub open spec fn digit_char(d: nat) -> char {
    (48 + d) as char
}

/// Decimal notation of `n`, without sign or leading zeros.
pub open spec fn decimal(n: nat) -> Seq<char>
    decreases n,
{
    if n < 10 {
        seq![digit_char(n)]
    } else {
        decimal(n / 10) + seq![digit_char(n % 10)]
    }
}

fn digit_str(d: u16) -> (r: &'static str)
    requires
        d < 10,
    ensures
        r@ == seq![digit_char(d as nat)],
{
    proof {
        reveal_strlit("0");
        reveal_strlit("1");
        reveal_strlit("2");
        reveal_strlit("3");
        reveal_strlit("4");
        reveal_strlit("5");
        reveal_strlit("6");
        reveal_strlit("7");
        reveal_strlit("8");
        reveal_strlit("9");
    }
    match d {
        0 => "0",
        1 => "1",
        2 => "2",
        3 => "3",
        4 => "4",
        5 => "5",
        6 => "6",
        7 => "7",
        8 => "8",
        _ => "9",
    }
}

/// Decimal text of a port number.
pub fn port_text(port: u16) -> (r: String)
    ensures
        r@ == decimal(port as nat),
{
    let mut res = String::new();
    let mut m = port;
    assert(decimal(port as nat) =~= decimal(m as nat) + res@);
    while m >= 10
        invariant
            decimal(port as nat) == decimal(m as nat) + res@,
        decreases m,
    {
        let d = m % 10;
        let mut t = String::from_str(digit_str(d));
        t.append(res.as_str());
        proof {
            assert(decimal(m as nat) == decimal((m / 10) as nat) + seq![digit_char((m % 10) as nat)]);
            assert(decimal(port as nat) =~= decimal((m / 10) as nat) + t@);
        }
        res = t;
        m = m / 10;
    }
    let mut t = String::from_str(digit_str(m));
    t.append(res.as_str());
    assert(t@ =~= decimal(port as nat));
    t
}

/// The address of the telemetry listener as shown to the user: the IP text,
/// bracketed when it is an IPv6 address, a colon and the port.
pub open spec fn spec_addr_display(host: Seq<char>, port: u16) -> Seq<char> {
    if host.contains(':') {
        seq!['['] + host + seq![']', ':'] + decimal(port as nat)
    } else {
        host + seq![':'] + decimal(port as nat)
    }
}

/// The loopback address and port the listener uses unless configured otherwise.
pub open spec fn default_host() -> Seq<char> {
    seq!['1', '2', '7', '.', '0', '.', '0', '.', '1']
}

/// Abstract state of the telemetry listener.
pub struct ListenerView {
    /// IP address in its canonical text form.
    pub host: Seq<char>,
    pub port: u16,
    /// Why the last bind failed, if it did.
    pub error: Option<Seq<char>>,
    /// Count of bind attempts, wrapping; the HUD redraws when it changes.
    pub generation: u64,
    /// A receiving thread is running.
    pub running: bool,
}

/// Address, bind status and receiver status of the UDP listener.
pub struct ListenerState {
    host: String,
    port: u16,
    error: Option<String>,
    generation: u64,
    running: bool,
}

pub open spec fn error_view(e: Option<String>) -> Option<Seq<char>> {
    match e {
        Some(s) => Some(s@),
        None => None,
    }
}

impl View for ListenerState {
    type V = ListenerView;

    closed spec fn view(&self) -> ListenerView {
        ListenerView {
            host: self.host@,
            port: self.port,
            error: error_view(self.error),
            generation: self.generation,
            running: self.running,
        }
    }
}

/// What applying a listen address takes.
#[derive(Clone, Copy, Debug, PartialEq, Eq, Structural)]
pub enum ListenPlan {
    /// The listener already receives on that address: nothing to do.
    Unchanged,
    /// Same address, but its bind had failed: stop the receiver and bind again
    /// (`bind_and_spawn`); the result is the new bind error, if any.
    Rebind,
    /// Another address: open a socket for it; if that fails the listener is left
    /// as it was, otherwise the old receiver is stopped, `replace_listener`
    /// records the new one, and the configuration is saved.
    Replace,
}

/// A copy of `s`.
fn string_copy(s: &String) -> (r: String)
    ensures
        r@ == s@,
{
    s.clone()
}

impl ListenerState {
    pub fn new() -> (r: ListenerState)
        ensures
            r@.host == default_host(),
            r@.port == DEFAULT_LISTEN_PORT,
            r@.error is None,
            r@.generation == 0,
            !r@.running,
    {
        let (host, port) = default_listen_addr();
        ListenerState { host, port, error: None, generation: 0, running: false }
    }
}

/// The default listen address, 127.0.0.1:9999.
pub fn default_listen_addr() -> (r: (String, u16))
    ensures
        r.0@ == default_host(),
        r.1 == DEFAULT_LISTEN_PORT,
{
    proof {
        reveal_strlit("127.0.0.1");
    }
    (String::from_str("127.0.0.1"), DEFAULT_LISTEN_PORT)
}

pub fn listen_host_port(l: &ListenerState) -> (r: (String, u16))
    ensures
        r.0@ == l@.host,
        r.1 == l@.port,
{
    (string_copy(&l.host), l.port)
}

fn host_is_ipv6(host: &String) -> (r: bool)
    ensures
        r == host@.contains(':'),
{
    let h = host.as_str();
    let n = h.unicode_len();
    let mut i: usize = 0;
    while i < n
        invariant
            i <= n,
            n == host@.len(),
            h@ == host@,
            forall|j: int| 0 <= j < i ==> host@[j] != ':',
        decreases n - i,
    {
        if h.get_char(i) == ':' {
            assert(host@[i as int] == ':');
            return true;
        }
        i = i + 1;
    }
    false
}

/// `host:port`, or `[host]:port` for IPv6.
fn addr_display(host: &String, port: u16) -> (r: String)
    ensures
        r@ == spec_addr_display(host@, port),
{
    let port_str = port_text(port);
    proof {
        reveal_strlit("[");
        reveal_strlit("]:");
        reveal_strlit(":");
    }
    if host_is_ipv6(host) {
        let mut r = String::from_str("[");
        r.append(host.as_str());
        r.append("]:");
        r.append(port_str.as_str());
        assert(r@ =~= spec_addr_display(host@, port));
        r
    } else {
        let mut r = string_copy(host);
        r.append(":");
        r.append(port_str.as_str());
        assert(r@ =~= spec_addr_display(host@, port));
        r
    }
}

/// The listen address as `ip:port`, or `[ip]:port` for IPv6.
pub fn listen_addr_display(l: &ListenerState) -> (r: String)
    ensures
        r@ == spec_addr_display(l@.host, l@.port),
{
    addr_display(&l.host, l.port)
}

/// The error reported when `host:port` cannot be bound; `err` is the system's
/// reason.
pub fn bind_error_message(host: &String, port: u16, err: &str) -> (r: String)
    ensures
        r@ == "无法绑定 "@ + spec_addr_display(host@, port) + "："@ + err@,
{
    let mut r = String::from_str("无法绑定 ");
    let addr = addr_display(host, port);
    r.append(addr.as_str());
    r.append("：");
    r.append(err);
    r
}

/// The error reported when the receive timeout of a new socket cannot be set;
/// `err` is the system's reason.
pub fn timeout_error_message(err: &str) -> (r: String)
    ensures
        r@ == "设置监听超时失败："@ + err@,
{
    let mut r = String::from_str("设置监听超时失败：");
    r.append(err);
    r
}

pub fn listen_generation(l: &ListenerState) -> (r: u64)
    ensures
        r == l@.generation,
{
    l.generation
}

pub fn listen_error(l: &ListenerState) -> (r: Option<String>)
    ensures
        error_view(r) == l@.error,
{
    match &l.error {
        Some(e) => Some(string_copy(e)),
        None => None,
    }
}

pub fn set_addr(l: &mut ListenerState, host: String, port: u16)
    ensures
        final(l)@ == (ListenerView { host: host@, port, ..old(l)@ }),
{
    l.host = host;
    l.port = port;
}

pub fn set_error(l: &mut ListenerState, error: Option<String>)
    ensures
        final(l)@ == (ListenerView { error: error_view(error), ..old(l)@ }),
{
    l.error = error;
}

/// Counts one more bind attempt, wrapping at the end of the range.
pub fn bump_generation(l: &mut ListenerState)
    ensures
        final(l)@ == (ListenerView {
            generation: if old(l)@.generation == u64::MAX {
                0
            } else {
                (old(l)@.generation + 1) as u64
            },
            ..old(l)@
        }),
{
    l.generation = l.generation.wrapping_add(1);
}

/// Marks the receiver as stopped; returns whether one was running, so that the
/// caller joins its thread.
pub fn stop_thread(l: &mut ListenerState) -> (r: bool)
    ensures
        r == old(l)@.running,
        final(l)@ == (ListenerView { running: false, ..old(l)@ }),
{
    let r = l.running;
    l.running = false;
    r
}

/// Sets the address from the configuration file without binding: the parsed
/// address, or the default one when the configured text is not an address.
pub fn configure_listen_addr(l: &mut ListenerState, parsed: Option<(String, u16)>)
    ensures
        parsed matches Some(a) ==> final(l)@ == (ListenerView {
            host: a.0@,
            port: a.1,
            ..old(l)@
        }),
        parsed is None ==> final(l)@ == (ListenerView {
            host: default_host(),
            port: DEFAULT_LISTEN_PORT,
            ..old(l)@
        }),
{
    match parsed {
        Some((host, port)) => set_addr(l, host, port),
        None => {
            let (host, port) = default_listen_addr();
            set_addr(l, host, port);
        },
    }
}

/// Chooses how to move the listener to `host:port`.
pub fn plan_listen_addr(l: &ListenerState, host: &String, port: u16) -> (r: ListenPlan)
    ensures
        r == (if l@.running && l@.host == host@ && l@.port == port {
            if l@.error is None {
                ListenPlan::Unchanged
            } else {
                ListenPlan::Rebind
            }
        } else {
            ListenPlan::Replace
        }),
{
    let same = l.running && l.host == *host && l.port == port;
    if same {
        if l.error.is_none() {
            ListenPlan::Unchanged
        } else {
            ListenPlan::Rebind
        }
    } else {
        ListenPlan::Replace
    }
}

/// Chooses how to move the listener back to the default address, and returns
/// that address.
pub fn apply_default_listen_addr(l: &ListenerState) -> (r: (ListenPlan, String, u16))
    ensures
        r.1@ == default_host(),
        r.2 == DEFAULT_LISTEN_PORT,
        r.0 == (if l@.running && l@.host == default_host() && l@.port == DEFAULT_LISTEN_PORT {
            if l@.error is None {
                ListenPlan::Unchanged
            } else {
                ListenPlan::Rebind
            }
        } else {
            ListenPlan::Replace
        }),
{
    let (host, port) = default_listen_addr();
    let plan = plan_listen_addr(l, &host, port);
    (plan, host, port)
}

/// Records a bind attempt on `host:port`: the address is taken over, a
/// receiver is started when the bind succeeded, the error is that of the bind,
/// and the generation counts the attempt. It is called with no receiver
/// running.
pub fn bind_and_spawn(l: &mut ListenerState, host: String, port: u16, bound: Result<(), String>)
    ensures
        final(l)@.host == host@,
        final(l)@.port == port,
        final(l)@.running == (bound is Ok || old(l)@.running),
        final(l)@.error == (match bound {
            Ok(_) => None,
            Err(e) => Some(e@),
        }),
        final(l)@.generation == (if old(l)@.generation == u64::MAX {
            0
        } else {
            (old(l)@.generation + 1) as u64
        }),
{
    set_addr(l, host, port);
    match bound {
        Ok(()) => {
            set_error(l, None);
            l.running = true;
        },
        Err(e) => {
            set_error(l, Some(e));
        },
    }
    bump_generation(l);
}

/// Records the receiver started on a newly opened socket for `host:port`.
pub fn replace_listener(l: &mut ListenerState, host: String, port: u16)
    ensures
        final(l)@ == (ListenerView {
            host: host@,
            port,
            error: None,
            running: true,
            generation: if old(l)@.generation == u64::MAX {
                0
            } else {
                (old(l)@.generation + 1) as u64
            },
        }),
{
    set_addr(l, host, port);
    set_error(l, None);
    l.running = true;
    bump_generation(l);
}

/// A listen address typed by the user, once host and port have been checked.
#[derive(Clone, Debug, PartialEq, Eq)]
pub enum ListenAddrInput {
    /// `localhost`, in any case: the IPv4 loopback address.
    Loopback { port: u16 },
    /// Any other host, trimmed; it must still parse as an IP address.
    Ip { host: String, port: u16 },
}

/// The host text `localhost` compared without case.
pub open spec fn localhost() -> Seq<char> {
    seq!['l', 'o', 'c', 'a', 'l', 'h', 'o', 's', 't']
}

/// The message for a typed address, host and port already trimmed, that
/// fails a check: the host must not be empty, then the port must not be
/// empty, then it must be a number from 0 to 65535. `None` when all pass.
pub open spec fn listen_addr_error(host: Seq<char>, port: Seq<char>) -> Option<Seq<char>> {
    if host.len() == 0 {
        Some("请输入监听地址。"@)
    } else if port.len() == 0 {
        Some("请输入端口。"@)
    } else if spec_parse_unsigned(port, 65535) is None {
        Some("端口必须是 0 到 65535 的整数。"@)
    } else {
        None
    }
}

/// Checks a typed listen address. Host and port are trimmed of white space
/// first; the first failing check gives the error (see `listen_addr_error`).
/// Otherwise `localhost` (in any case) is the loopback address, and any other
/// host is handed back trimmed, for the caller to parse as an IP address.
pub fn parse_listen_addr(host: &str, port: &str) -> (r: Result<ListenAddrInput, String>)
    ensures
        r is Err <==> listen_addr_error(trimmed(host@), trimmed(port@)) is Some,
        r matches Err(e) ==> listen_addr_error(trimmed(host@), trimmed(port@)) == Some(e@),
        r matches Ok(a) ==> (spec_parse_unsigned(trimmed(port@), 65535) matches Some(p) && (
        if eq_ignore_ascii_case(trimmed(host@), localhost()) {
            a == ListenAddrInput::Loopback { port: p as u16 }
        } else {
            a matches ListenAddrInput::Ip { host: h, port: q } && h@ == trimmed(host@) && q
                == p as u16
        })),
{
    let host = trim_text(host);
    let port = trim_text(port);
    if host.unicode_len() == 0 {
        return Err(String::from_str("请输入监听地址。"));
    }
    if port.unicode_len() == 0 {
        return Err(String::from_str("请输入端口。"));
    }
    let port = match parse_u16(port) {
        Some(p) => p,
        None => {
            return Err(String::from_str("端口必须是 0 到 65535 的整数。"));
        },
    };
    let name = "localhost";
    proof {
        reveal_strlit("localhost");
        assert(name@ =~= localhost());
    }
    if text_eq_ignore_ascii_case(host, name) {
        Ok(ListenAddrInput::Loopback { port })
    } else {
        Ok(ListenAddrInput::Ip { host: String::from_str(host), port })
    }
}

proof fn lemma_decimal_digits(n: nat)
    ensures
        decimal(n).len() > 0,
        forall|i: int| 0 <= i < decimal(n).len() ==> is_digit(#[trigger] decimal(n)[i]),
        digits_value(decimal(n)) == n,
    decreases n,
{
    if n >= 10 {
        lemma_decimal_digits(n / 10);
        let d = decimal(n);
        let q = decimal(n / 10);
        assert(d == q + seq![digit_char(n % 10)]);
        assert(d.drop_last() =~= q);
        assert forall|i: int| 0 <= i < d.len() implies is_digit(#[trigger] d[i]) by {
            if i < q.len() {
                assert(d[i] == q[i]);
            }
        }
        assert(digit_value(d.last()) == n % 10);
        assert(digits_value(d) == digits_value(q) * 10 + n % 10);
        assert((n / 10) * 10 + n % 10 == n);
    } else {
        let d = decimal(n);
        assert(d == seq![digit_char(n)]);
        assert(d.drop_last() =~= Seq::<char>::empty());
        assert(digits_value(d.drop_last()) == 0);
        assert(digit_value(d.last()) == n);
        assert(digits_value(d) == digits_value(d.drop_last()) * 10 + digit_value(d.last()));
    }
}

/// The port as the settings window shows it reads back as the same port.
pub proof fn lemma_port_text_parses_back(port: u16)
    ensures
        spec_parse_unsigned(decimal(port as nat), 65535) == Some(port as nat),
{
    lemma_decimal_digits(port as nat);
    let d = decimal(port as nat);
    assert(is_digit(d[0]));
    assert(unsigned_digits(d) == d);
}

/// The car a sample identifies: only a sample taken during a race, with a car
/// ordinal and a maximum rpm that is not at most 1 (`max_rpm_above_one`, the
/// caller's comparison of the real value, in which a NaN counts as above),
/// names a car.
pub fn identify_car(sample: &TelemetrySample, max_rpm_above_one: bool) -> (r: Option<CarId>)
    ensures
        r == (if sample.is_race_on == 0 || sample.car_ordinal == 0 || !max_rpm_above_one {
            None
        } else {
            Some(CarId { ordinal: sample.car_ordinal, class: sample.car_class, pi: sample.car_pi })
        }),
{
    if sample.is_race_on == 0 || sample.car_ordinal == 0 || !max_rpm_above_one {
        return None;
    }
    Some(CarId { ordinal: sample.car_ordinal, class: sample.car_class, pi: sample.car_pi })
}

/// The generation after one more bind attempt or switch; it wraps at the top.
pub open spec fn next_generation(g: u64) -> u64 {
    if g == u64::MAX {
        0
    } else {
        (g + 1) as u64
    }
}

/// Moves the listener to another address (plan `Replace`); `opened` is the
/// outcome of opening a socket there. When that failed its error is returned
/// and the listener is left exactly as it was: address, error, generation and
/// receiver. Otherwise the new receiver is recorded as `replace_listener` does.
pub fn switch_listener(l: &mut ListenerState, host: String, port: u16, opened: Result<(), String>) -> (r:
    Result<(), String>)
    ensures
        opened is Err ==> r == opened && final(l)@ == old(l)@,
        opened is Ok ==> r is Ok && final(l)@ == (ListenerView {
            host: host@,
            port,
            error: None,
            running: true,
            generation: next_generation(old(l)@.generation),
        }),
{
    match opened {
        Ok(()) => {
            replace_listener(l, host, port);
            Ok(())
        },
        Err(e) => Err(e),
    }
}

/// The generation after `bumps` bind attempts and switches.
pub open spec fn generation_after(g: u64, bumps: nat) -> u64
    decreases bumps,
{
    if bumps == 0 {
        g
    } else {
        next_generation(generation_after(g, (bumps - 1) as nat))
    }
}

/// Every listener operation either leaves the generation alone or moves it to
/// `next_generation` (one more bind attempt or switch). So, short of 2^64
/// attempts, the generation never goes down, and it has grown exactly when a
/// bind attempt or a switch took place: it counts them.
pub proof fn lemma_generation_counts(g: u64, bumps: nat)
    requires
        g + bumps <= u64::MAX,
    ensures
        generation_after(g, bumps) == g + bumps,
        generation_after(g, bumps) >= g,
        generation_after(g, bumps) > g <==> bumps > 0,
    decreases bumps,
{
    if bumps > 0 {
        lemma_generation_counts(g, (bumps - 1) as nat);
    }
}

/// From a fresh listener (generation 0), with fewer than 2^64 bind attempts
/// and switches in all: a generation read after `a + b` of them is at least
/// the one read after the first `a`, and larger exactly when `b > 0`.
pub proof fn lemma_generation_grows(a: nat, b: nat)
    requires
        a + b <= u64::MAX,
    ensures
        generation_after(0, a + b) >= generation_after(0, a),
        generation_after(0, a + b) > generation_after(0, a) <==> b > 0,
{
    lemma_generation_counts(0, a);
    lemma_generation_counts(0, a + b);
}

} // verus!

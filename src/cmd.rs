//! Bit-exact encoder for the 3-byte command packets of the device.
use vstd::prelude::*;

verus! {

/// The operation selector, placed in bits 5:3 of the first byte.
#[derive(Clone, Copy, Debug, PartialEq, Eq, Structural)]
pub enum Command {
    /// Write to an input register (code 0).
    WrN,
    /// Software load of the DAC registers (code 1).
    SwLDAC,
    /// Write to an input register and update all DAC registers (code 2).
    WrUpdAll,
    /// Write to an input register and update its DAC register (code 3).
    WrUpdN,
    /// Power up or down (code 4).
    Pwr,
    /// Software reset (code 5).
    Rst,
    /// Select which channels follow the hardware load pin (code 6).
    LDAC,
    /// Internal reference on or off (code 7).
    Ref,
}

/// The selector code of an operation.
pub open spec fn command_code(c: Command) -> u8 {
    match c {
        Command::WrN => 0,
        Command::SwLDAC => 1,
        Command::WrUpdAll => 2,
        Command::WrUpdN => 3,
        Command::Pwr => 4,
        Command::Rst => 5,
        Command::LDAC => 6,
        Command::Ref => 7,
    }
}

impl Command {
    /// The 3-bit selector code of this operation.
    pub fn code(&self) -> (r: u8)
        ensures
            r == command_code(*self),
            r < 8,
    {
        match self {
            Command::WrN => 0,
            Command::SwLDAC => 1,
            Command::WrUpdAll => 2,
            Command::WrUpdN => 3,
            Command::Pwr => 4,
            Command::Rst => 5,
            Command::LDAC => 6,
            Command::Ref => 7,
        }
    }
}

/// The address field, placed in bits 2:0 of the first byte.
#[derive(Clone, Copy, Debug, PartialEq, Eq, Structural)]
pub enum Addr {
    /// Channel A (code 0).
    CHA,
    /// Channel B (code 1).
    CHB,
    /// The gain register (code 2).
    Gain,
    /// Both channels (code 7).
    CHAB,
}

/// The address code of a target.
pub open spec fn addr_code(a: Addr) -> u8 {
    match a {
        Addr::CHA => 0,
        Addr::CHB => 1,
        Addr::Gain => 2,
        Addr::CHAB => 7,
    }
}

impl Addr {
    /// The 3-bit address code of this target.
    pub fn code(&self) -> (r: u8)
        ensures
            r == addr_code(*self),
            r < 8,
    {
        match self {
            Addr::CHA => 0,
            Addr::CHB => 1,
            Addr::Gain => 2,
            Addr::CHAB => 7,
        }
    }
}

/// A channel target of a data write.
#[derive(Clone, Copy, Debug, PartialEq, Eq, Structural)]
pub enum ChAddr {
    /// Channel A.
    CHA,
    /// Channel B.
    CHB,
    /// Both channels.
    CHAB,
}

/// The address that a channel target stands for.
pub open spec fn channel_addr(c: ChAddr) -> Addr {
    match c {
        ChAddr::CHA => Addr::CHA,
        ChAddr::CHB => Addr::CHB,
        ChAddr::CHAB => Addr::CHAB,
    }
}

impl From<ChAddr> for Addr {
    fn from(c: ChAddr) -> (r: Addr)
        ensures
            r == channel_addr(c),
    {
        match c {
            ChAddr::CHA => Addr::CHA,
            ChAddr::CHB => Addr::CHB,
            ChAddr::CHAB => Addr::CHAB,
        }
    }
}

impl vstd::std_specs::convert::FromSpecImpl<ChAddr> for Addr {
    open spec fn obeys_from_spec() -> bool {
        true
    }

    open spec fn from_spec(c: ChAddr) -> Addr {
        channel_addr(c)
    }
}

/// Output gain of the two channels, written to the gain register.
#[derive(Clone, Copy, Debug, PartialEq, Eq, Structural)]
pub enum GainMode {
    /// A at gain 2, B at gain 2 (code 0).
    A2B2,
    /// A at gain 1, B at gain 2 (code 1).
    A1B2,
    /// A at gain 2, B at gain 1 (code 2).
    A2B1,
    /// A at gain 1, B at gain 1 (code 3).
    A1B1,
}

/// The code of a gain mode.
pub open spec fn gain_code(g: GainMode) -> u8 {
    match g {
        GainMode::A2B2 => 0,
        GainMode::A1B2 => 1,
        GainMode::A2B1 => 2,
        GainMode::A1B1 => 3,
    }
}

impl GainMode {
    /// The 2-bit code of this gain mode.
    pub fn code(&self) -> (r: u8)
        ensures
            r == gain_code(*self),
    {
        match self {
            GainMode::A2B2 => 0,
            GainMode::A1B2 => 1,
            GainMode::A2B1 => 2,
            GainMode::A1B1 => 3,
        }
    }
}

/// Power state of the selected channels.
#[derive(Clone, Copy, Debug, PartialEq, Eq, Structural)]
pub enum PowerMode {
    /// Powered up (code 0).
    Up,
    /// Powered down, output pulled down by 1 kOhm (code 1).
    Down1k,
    /// Powered down, output pulled down by 100 kOhm (code 2).
    Down100k,
    /// Powered down, output in high impedance (code 3).
    DownHighZ,
}

/// The code of a power mode.
pub open spec fn power_mode_code(m: PowerMode) -> u8 {
    match m {
        PowerMode::Up => 0,
        PowerMode::Down1k => 1,
        PowerMode::Down100k => 2,
        PowerMode::DownHighZ => 3,
    }
}

impl PowerMode {
    /// The 2-bit code of this power mode.
    pub fn code(&self) -> (r: u8)
        ensures
            r == power_mode_code(*self),
    {
        match self {
            PowerMode::Up => 0,
            PowerMode::Down1k => 1,
            PowerMode::Down100k => 2,
            PowerMode::DownHighZ => 3,
        }
    }
}

/// The channels that a power command applies to.
#[derive(Clone, Copy, Debug, PartialEq, Eq, Structural)]
pub enum PowerSelector {
    /// Channel A (code 1).
    A,
    /// Channel B (code 2).
    B,
    /// Both channels (code 3).
    AB,
}

/// The code of a power selector.
pub open spec fn power_selector_code(s: PowerSelector) -> u8 {
    match s {
        PowerSelector::A => 1,
        PowerSelector::B => 2,
        PowerSelector::AB => 3,
    }
}

impl PowerSelector {
    /// The 2-bit code of this selector.
    pub fn code(&self) -> (r: u8)
        ensures
            r == power_selector_code(*self),
    {
        match self {
            PowerSelector::A => 1,
            PowerSelector::B => 2,
            PowerSelector::AB => 3,
        }
    }
}

/// What a software reset clears.
#[derive(Clone, Copy, Debug, PartialEq, Eq, Structural)]
pub enum ResetMode {
    /// The input registers only (code 0).
    InputOnly,
    /// All registers (code 1).
    All,
}

/// The code of a reset mode.
pub open spec fn reset_code(m: ResetMode) -> u8 {
    match m {
        ResetMode::InputOnly => 0,
        ResetMode::All => 1,
    }
}

impl ResetMode {
    /// The code of this reset mode.
    pub fn code(&self) -> (r: u8)
        ensures
            r == reset_code(*self),
    {
        match self {
            ResetMode::InputOnly => 0,
            ResetMode::All => 1,
        }
    }
}

/// Which channels ignore the hardware load pin.
#[derive(Clone, Copy, Debug, PartialEq, Eq, Structural)]
pub enum LDACMode {
    /// Both channels follow the pin (code 0).
    All,
    /// Only channel B follows the pin (code 1).
    ChB,
    /// Only channel A follows the pin (code 2).
    ChA,
    /// Neither channel follows the pin (code 3).
    Neither,
}

/// The code of a load-pin mode.
pub open spec fn ldac_code(m: LDACMode) -> u8 {
    match m {
        LDACMode::All => 0,
        LDACMode::ChB => 1,
        LDACMode::ChA => 2,
        LDACMode::Neither => 3,
    }
}

impl LDACMode {
    /// The 2-bit code of this mode.
    pub fn code(&self) -> (r: u8)
        ensures
            r == ldac_code(*self),
    {
        match self {
            LDACMode::All => 0,
            LDACMode::ChB => 1,
            LDACMode::ChA => 2,
            LDACMode::Neither => 3,
        }
    }
}

/// State of the internal voltage reference.
#[derive(Clone, Copy, Debug, PartialEq, Eq, Structural)]
pub enum RefMode {
    /// Reference off (code 0).
    Disable,
    /// Reference on (code 1).
    Enable,
}

/// The code of a reference mode.
pub open spec fn ref_code(m: RefMode) -> u8 {
    match m {
        RefMode::Disable => 0,
        RefMode::Enable => 1,
    }
}

impl RefMode {
    /// The code of this reference mode.
    pub fn code(&self) -> (r: u8)
        ensures
            r == ref_code(*self),
    {
        match self {
            RefMode::Disable => 0,
            RefMode::Enable => 1,
        }
    }
}

/// The first byte with its selector field (bits 5:3) replaced by `sel`.
pub open spec fn with_selector(b0: u8, sel: u8) -> u8 {
    (b0 & 0xC7u8) | ((sel << 3u8) & 0x38u8)
}

/// The first byte with its address field (bits 2:0) replaced by `addr`.
pub open spec fn with_address(b0: u8, addr: u8) -> u8 {
    (b0 & 0xF8u8) | (addr & 0x07u8)
}

/// The first byte of a packet for operation `sel` at address `addr`.
pub open spec fn header(sel: u8, addr: u8) -> u8 {
    ((sel << 3u8) & 0x38u8) | (addr & 0x07u8)
}

/// The high byte of a 16-bit value.
pub open spec fn high_byte(v: u16) -> u8 {
    (v / 256) as u8
}

/// The low byte of a 16-bit value.
pub open spec fn low_byte(v: u16) -> u8 {
    (v % 256) as u8
}

/// The last byte of a power command: mode in bits 5:4, selector in bits 1:0.
pub open spec fn power_byte(m: PowerMode, s: PowerSelector) -> u8 {
    (power_mode_code(m) << 4u8) | power_selector_code(s)
}

/// A packet with its selector field set to `sel`.
pub open spec fn packet_with_cmd(p: Seq<u8>, sel: u8) -> Seq<u8> {
    p.update(0, with_selector(p[0], sel))
}

/// A packet with its address field set to `addr`.
pub open spec fn packet_with_addr(p: Seq<u8>, addr: u8) -> Seq<u8> {
    p.update(0, with_address(p[0], addr))
}

/// A packet whose payload is the 16-bit value `v`, high byte first.
pub open spec fn packet_with_data(p: Seq<u8>, v: u16) -> Seq<u8> {
    seq![p[0], high_byte(v), low_byte(v)]
}

/// A packet whose last byte is the control code `code`.
pub open spec fn packet_with_code(p: Seq<u8>, code: u8) -> Seq<u8> {
    p.update(2, code)
}

/// The fixed-size wire form of one command.
pub type Packet = [u8; 3];

/// One-shot builder of a command packet: each setter overwrites its own field.
pub struct CmdBuilder {
    val: Packet,
}

impl View for CmdBuilder {
    type V = Seq<u8>;

    closed spec fn view(&self) -> Seq<u8> {
        self.val@
    }
}

impl CmdBuilder {
    /// The reserved bits 7:6 of the first byte are clear.
    pub open spec fn wf(&self) -> bool {
        self@.len() == 3 && self@[0] & 0xC0u8 == 0
    }

    /// A builder holding the all-zero packet.
    pub fn new() -> (r: Self)
        ensures
            r@ == seq![0u8, 0u8, 0u8],
            r.wf(),
    {
        let r = Self { val: [0u8; 3] };
        assert(r@ =~= seq![0u8, 0u8, 0u8]);
        assert(0u8 & 0xC0u8 == 0) by (bit_vector);
        r
    }

    /// The packet as it stands.
    pub fn build(&self) -> (r: Packet)
        ensures
            r@ == self@,
    {
        self.val
    }

    /// Sets the operation selector (bits 5:3 of the first byte), leaving every
    /// other bit as it was.
    pub fn cmd(&mut self, cmd: Command) -> (r: &mut Self)
        requires
            old(self).wf(),
        ensures
            r@ == packet_with_cmd(old(self)@, command_code(cmd)),
            r.wf(),
            *final(self) == *final(r),
    {
        let c = cmd.code();
        let b0 = self.val[0];
        assert(b0 & 0xC0u8 == 0 ==> ((b0 & 0xC7u8) | ((c << 3u8) & 0x38u8)) & 0xC0u8 == 0)
            by (bit_vector);
        self.val[0] = (b0 & 0xC7u8) | ((c << 3u8) & 0x38u8);
        assert(self@ =~= packet_with_cmd(old(self)@, command_code(cmd)));
        self
    }

    /// Sets the address field (bits 2:0 of the first byte), leaving every other
    /// bit as it was.
    pub fn addr(&mut self, addr: Addr) -> (r: &mut Self)
        requires
            old(self).wf(),
        ensures
            r@ == packet_with_addr(old(self)@, addr_code(addr)),
            r.wf(),
            *final(self) == *final(r),
    {
        let a = addr.code();
        let b0 = self.val[0];
        assert(b0 & 0xC0u8 == 0 ==> ((b0 & 0xF8u8) | (a & 0x07u8)) & 0xC0u8 == 0) by (bit_vector);
        self.val[0] = (b0 & 0xF8u8) | (a & 0x07u8);
        assert(self@ =~= packet_with_addr(old(self)@, addr_code(addr)));
        self
    }

    /// Sets the payload to a 16-bit value, high byte first.
    pub fn data(&mut self, data: u16) -> (r: &mut Self)
        requires
            old(self).wf(),
        ensures
            r@ == packet_with_data(old(self)@, data),
            r.wf(),
            *final(self) == *final(r),
    {
        let hi = (data >> 8u16) as u8;
        let lo = data as u8;
        assert(((data >> 8u16) as u8) == ((data / 256) as u8)) by (bit_vector);
        assert((data as u8) == ((data % 256) as u8)) by (bit_vector);
        self.val[1] = hi;
        self.val[2] = lo;
        assert(self@ =~= packet_with_data(old(self)@, data));
        self
    }

    /// Sets the payload to a gain-register code.
    pub fn gain(&mut self, gain: GainMode) -> (r: &mut Self)
        requires
            old(self).wf(),
        ensures
            r@ == packet_with_code(old(self)@, gain_code(gain)),
            r.wf(),
            *final(self) == *final(r),
    {
        self.val[2] = gain.code();
        assert(self@ =~= packet_with_code(old(self)@, gain_code(gain)));
        self
    }

    /// Sets the payload to a power mode and the channels it applies to.
    pub fn power(&mut self, pwr_mode: PowerMode, selector: PowerSelector) -> (r: &mut Self)
        requires
            old(self).wf(),
        ensures
            r@ == packet_with_code(old(self)@, power_byte(pwr_mode, selector)),
            r.wf(),
            *final(self) == *final(r),
    {
        self.val[2] = (pwr_mode.code() << 4u8) | selector.code();
        assert(self@ =~= packet_with_code(old(self)@, power_byte(pwr_mode, selector)));
        self
    }

    /// Sets the payload to a reset mode.
    pub fn reset(&mut self, rst: ResetMode) -> (r: &mut Self)
        requires
            old(self).wf(),
        ensures
            r@ == packet_with_code(old(self)@, reset_code(rst)),
            r.wf(),
            *final(self) == *final(r),
    {
        self.val[2] = rst.code();
        assert(self@ =~= packet_with_code(old(self)@, reset_code(rst)));
        self
    }

    /// Sets the payload to a load-pin mode.
    pub fn ldac(&mut self, ldac_mode: LDACMode) -> (r: &mut Self)
        requires
            old(self).wf(),
        ensures
            r@ == packet_with_code(old(self)@, ldac_code(ldac_mode)),
            r.wf(),
            *final(self) == *final(r),
    {
        self.val[2] = ldac_mode.code();
        assert(self@ =~= packet_with_code(old(self)@, ldac_code(ldac_mode)));
        self
    }

    /// Sets the payload to a reference mode.
    pub fn reference(&mut self, ref_mode: RefMode) -> (r: &mut Self)
        requires
            old(self).wf(),
        ensures
            r@ == packet_with_code(old(self)@, ref_code(ref_mode)),
            r.wf(),
            *final(self) == *final(r),
    {
        self.val[2] = ref_mode.code();
        assert(self@ =~= packet_with_code(old(self)@, ref_code(ref_mode)));
        self
    }
}

/// Whatever the operation selector and address, the first byte of a fresh
/// packet is `((selector << 3) & 0x38) | (address & 0x07)`, whichever field is
/// set first (with the address left at zero when only the selector is set),
/// and its reserved bits 7:6 are clear.
pub proof fn lemma_header_layout(c: Command, a: Addr)
    ensures
        with_address(with_selector(0, command_code(c)), addr_code(a)) == header(
            command_code(c),
            addr_code(a),
        ),
        with_selector(with_address(0, addr_code(a)), command_code(c)) == header(
            command_code(c),
            addr_code(a),
        ),
        with_selector(0, command_code(c)) == header(command_code(c), 0),
        header(command_code(c), addr_code(a)) & 0xC0u8 == 0,
{
    let sel = command_code(c);
    let ad = addr_code(a);
    assert(with_address(with_selector(0, sel), ad) == header(sel, ad)) by (bit_vector);
    assert(with_selector(with_address(0, ad), sel) == header(sel, ad)) by (bit_vector);
    assert(with_selector(0, sel) == header(sel, 0)) by (bit_vector);
    assert(header(sel, ad) & 0xC0u8 == 0) by (bit_vector);
}

/// Calling a setter a second time leaves the packet as if only the second
/// call had been made, and the setters of the first byte's two fields never
/// disturb each other or the reserved bits.
pub proof fn lemma_setters_keep_last(
    p: Seq<u8>,
    s1: u8,
    s2: u8,
    a1: u8,
    a2: u8,
    v1: u16,
    v2: u16,
    x1: u8,
    x2: u8,
)
    requires
        p.len() == 3,
    ensures
        packet_with_cmd(packet_with_cmd(p, s1), s2) == packet_with_cmd(p, s2),
        packet_with_addr(packet_with_addr(p, a1), a2) == packet_with_addr(p, a2),
        packet_with_data(packet_with_data(p, v1), v2) == packet_with_data(p, v2),
        packet_with_code(packet_with_code(p, x1), x2) == packet_with_code(p, x2),
        packet_with_cmd(packet_with_addr(p, a1), s1) == packet_with_addr(packet_with_cmd(p, s1), a1),
        packet_with_cmd(p, s1)[0] & 0xC0u8 == p[0] & 0xC0u8,
        packet_with_addr(p, a1)[0] & 0xC0u8 == p[0] & 0xC0u8,
{
    let b0 = p[0];
    assert(with_selector(with_selector(b0, s1), s2) == with_selector(b0, s2)) by (bit_vector);
    assert(with_address(with_address(b0, a1), a2) == with_address(b0, a2)) by (bit_vector);
    assert(with_selector(with_address(b0, a1), s1) == with_address(with_selector(b0, s1), a1))
        by (bit_vector);
    assert(with_selector(b0, s1) & 0xC0u8 == b0 & 0xC0u8) by (bit_vector);
    assert(with_address(b0, a1) & 0xC0u8 == b0 & 0xC0u8) by (bit_vector);
    assert(packet_with_cmd(packet_with_cmd(p, s1), s2) =~= packet_with_cmd(p, s2));
    assert(packet_with_addr(packet_with_addr(p, a1), a2) =~= packet_with_addr(p, a2));
    assert(packet_with_data(packet_with_data(p, v1), v2) =~= packet_with_data(p, v2));
    assert(packet_with_code(packet_with_code(p, x1), x2) =~= packet_with_code(p, x2));
    assert(packet_with_cmd(packet_with_addr(p, a1), s1) =~= packet_with_addr(
        packet_with_cmd(p, s1),
        a1,
    ));
}

} // verus!

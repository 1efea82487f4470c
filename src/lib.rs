//! Command encoding and bus sequencing for the DACxx6x family of dual-channel
//! digital-to-analog converters driven over a 3-wire serial bus.
use vstd::prelude::*;

pub mod cmd;

use crate::cmd::{
    addr_code, channel_addr, command_code, header, high_byte, lemma_header_layout, low_byte,
    power_byte, reset_code, Addr, ChAddr, CmdBuilder, Command, Packet, PowerMode, PowerSelector, ResetMode,
};

verus! {

/// A serial bus that shifts out one byte per call.
pub trait ByteSender {
    /// What a failed transmission reports.
    type Error;

    /// Transmits one byte, blocking until it is out or has failed.
    fn send(&mut self, byte: u8) -> Result<(), Self::Error>;
}

/// A binary output line; here the active-low chip-select of the device.
pub trait BinaryOutput {
    /// What a failed change of level reports.
    type Error;

    /// Drives the line low.
    fn set_low(&mut self) -> Result<(), Self::Error>;

    /// Drives the line high.
    fn set_high(&mut self) -> Result<(), Self::Error>;
}

/// A failure of a device operation, passed on unchanged from the bus or the pin.
#[derive(Debug)]
pub enum DacError<S, P> {
    /// Sending a byte failed.
    Bus(S),
    /// Driving the chip-select line failed.
    Pin(P),
}

/// One call that the controller made on its bus or pin, with whether it succeeded.
#[derive(Clone, Copy, Debug, PartialEq, Eq, Structural)]
pub enum BusOp {
    /// Chip-select driven low.
    Select(bool),
    /// A byte sent on the bus.
    Send(u8, bool),
    /// Chip-select driven high.
    Release(bool),
}

/// Whether a call succeeded.
pub open spec fn call_ok(op: BusOp) -> bool {
    match op {
        BusOp::Select(ok) => ok,
        BusOp::Send(_, ok) => ok,
        BusOp::Release(ok) => ok,
    }
}

/// `t` is one transaction on `pkt`: chip-select driven low, then the bytes of
/// `pkt` in order for as long as every call so far has succeeded, then
/// chip-select driven high.
pub open spec fn is_transaction(pkt: Seq<u8>, t: Seq<BusOp>) -> bool {
    &&& 2 <= t.len() <= 5
    &&& t[0] is Select
    &&& t.last() is Release
    &&& forall|i: int| 1 <= i < t.len() - 1 ==> #[trigger] t[i] == BusOp::Send(pkt[i - 1], call_ok(t[i]))
    &&& forall|i: int| 0 <= i < t.len() - 2 ==> call_ok(#[trigger] t[i])
    &&& t.len() < 5 ==> !call_ok(t[t.len() - 2])
}

/// A byte failed to go out in transaction `t` (only the last send can fail).
pub open spec fn send_failed(t: Seq<BusOp>) -> bool {
    t.len() >= 3 && !call_ok(t[t.len() - 2])
}

/// What a device operation returns after transaction `t`: success when every
/// call succeeded; else the failed send's error, if a send failed; else the
/// pin's error.
pub open spec fn reports<S, P>(r: Result<(), DacError<S, P>>, t: Seq<BusOp>) -> bool {
    &&& (r is Ok) <==> forall|i: int| 0 <= i < t.len() ==> call_ok(#[trigger] t[i])
    &&& (r matches Err(DacError::Bus(_))) <==> send_failed(t)
}

/// The history `after` is `before` followed by one transaction on `pkt`, and
/// `r` is what that transaction reports.
pub open spec fn one_transaction<S, P>(
    before: Seq<BusOp>,
    after: Seq<BusOp>,
    pkt: Seq<u8>,
    r: Result<(), DacError<S, P>>,
) -> bool {
    exists|t: Seq<BusOp>|
        #![trigger is_transaction(pkt, t)]
        after == before + t && is_transaction(pkt, t) && reports(r, t)
}

/// The packet that resets all registers.
pub open spec fn init_packet() -> Seq<u8> {
    seq![header(command_code(Command::Rst), 0), 0, reset_code(ResetMode::All)]
}

/// The packet that puts the selected channels in power mode `m`.
pub open spec fn power_packet(m: PowerMode, s: PowerSelector) -> Seq<u8> {
    seq![header(command_code(Command::Pwr), 0), 0, power_byte(m, s)]
}

/// The packet that writes `v` to the input register of `target`.
pub open spec fn write_packet(v: u16, target: ChAddr) -> Seq<u8> {
    seq![
        header(command_code(Command::WrN), addr_code(channel_addr(target))),
        high_byte(v),
        low_byte(v),
    ]
}

/// The packet that loads both channels' DAC registers from their input registers.
pub open spec fn sw_ldac_packet() -> Seq<u8> {
    seq![header(command_code(Command::SwLDAC), addr_code(Addr::CHAB)), 0, 0]
}

/// In every transaction, whichever call fails, chip-select is driven low
/// first and driven high exactly once, as the last call.
pub proof fn lemma_released_once(pkt: Seq<u8>, t: Seq<BusOp>)
    requires
        is_transaction(pkt, t),
    ensures
        t[0] is Select,
        t.last() is Release,
        forall|i: int| 0 <= i < t.len() - 1 ==> !(#[trigger] t[i] is Release),
{
    assert forall|i: int| 0 <= i < t.len() - 1 implies !(#[trigger] t[i] is Release) by {
        if i >= 1 {
            assert(t[i] == BusOp::Send(pkt[i - 1], call_ok(t[i])));
        }
    }
}

/// Driver of one device on a serial bus with its own chip-select line.
pub struct DACxx6x<SPI, PIN> {
    spi: SPI,
    cs: PIN,
    ops: Ghost<Seq<BusOp>>,
}

impl<SPI: ByteSender, PIN: BinaryOutput> DACxx6x<SPI, PIN> {
    /// Every bus and pin call this driver has made, oldest first.
    pub closed spec fn history(&self) -> Seq<BusOp> {
        self.ops@
    }

    /// A driver that owns the bus and the chip-select line.
    pub fn new(spi: SPI, cs: PIN) -> (r: Self)
        ensures
            r.history() == Seq::<BusOp>::empty(),
    {
        Self { spi, cs, ops: Ghost(Seq::empty()) }
    }

    /// Sends one packet: chip-select low, the three bytes in order, chip-select
    /// high. A failed call stops the sending, but the release is always made.
    /// A failed release is reported too, unless an earlier call had already
    /// failed: then that earlier error is returned.
    pub fn exec(&mut self, pkt: Packet) -> (r: Result<(), DacError<SPI::Error, PIN::Error>>)
        ensures
            one_transaction(old(self).history(), final(self).history(), pkt@, r),
    {
        let ghost start = self.ops@;
        let mut result: Result<(), DacError<SPI::Error, PIN::Error>> = match self.cs.set_low() {
            Ok(()) => Ok(()),
            Err(e) => Err(DacError::Pin(e)),
        };
        let ghost mut t: Seq<BusOp> = seq![BusOp::Select(result is Ok)];
        self.ops = Ghost(start + t);
        let mut i: usize = 0;
        while i < 3 && result.is_ok()
            invariant
                i <= 3,
                self.ops@ == start + t,
                t.len() == i + 1,
                t[0] is Select,
                forall|j: int| 1 <= j <= i ==> #[trigger] t[j] == BusOp::Send(pkt@[j - 1], call_ok(t[j])),
                forall|j: int| 0 <= j < i ==> call_ok(#[trigger] t[j]),
                (result is Ok) <==> call_ok(t[i as int]),
                (result matches Err(DacError::Bus(_))) <==> (i >= 1 && !call_ok(t[i as int])),
            decreases 3 - i,
        {
            let sent = self.spi.send(pkt[i]);
            proof {
                t = t.push(BusOp::Send(pkt@[i as int], sent is Ok));
            }
            self.ops = Ghost(start + t);
            if let Err(e) = sent {
                result = Err(DacError::Bus(e));
            }
            i = i + 1;
        }
        let released = self.cs.set_high();
        proof {
            t = t.push(BusOp::Release(released is Ok));
        }
        self.ops = Ghost(start + t);
        if result.is_ok() {
            if let Err(e) = released {
                result = Err(DacError::Pin(e));
            }
        }
        assert(is_transaction(pkt@, t));
        assert(reports(result, t));
        result
    }

    /// Resets all registers of the device to their power-on values.
    pub fn init(&mut self) -> (r: Result<(), DacError<SPI::Error, PIN::Error>>)
        ensures
            one_transaction(old(self).history(), final(self).history(), init_packet(), r),
    {
        let mut b = CmdBuilder::new();
        b.cmd(Command::Rst).reset(ResetMode::All);
        let pkt = b.build();
        proof {
            lemma_header_layout(Command::Rst, Addr::CHA);
        }
        assert(pkt@ =~= init_packet());
        self.exec(pkt)
    }

    /// Puts the selected channels in the given power mode.
    pub fn set_power(&mut self, pwr_mode: PowerMode, selector: PowerSelector) -> (r: Result<
        (),
        DacError<SPI::Error, PIN::Error>,
    >)
        ensures
            one_transaction(
                old(self).history(),
                final(self).history(),
                power_packet(pwr_mode, selector),
                r,
            ),
    {
        let mut b = CmdBuilder::new();
        b.cmd(Command::Pwr).power(pwr_mode, selector);
        let pkt = b.build();
        proof {
            lemma_header_layout(Command::Pwr, Addr::CHA);
        }
        assert(pkt@ =~= power_packet(pwr_mode, selector));
        self.exec(pkt)
    }

    /// Writes a 16-bit value to the input register of the target channels,
    /// without updating their outputs.
    pub fn write(&mut self, data: u16, target: ChAddr) -> (r: Result<
        (),
        DacError<SPI::Error, PIN::Error>,
    >)
        ensures
            one_transaction(old(self).history(), final(self).history(), write_packet(data, target), r),
    {
        let mut b = CmdBuilder::new();
        b.cmd(Command::WrN).addr(Addr::from(target)).data(data);
        let pkt = b.build();
        proof {
            lemma_header_layout(Command::WrN, channel_addr(target));
        }
        assert(pkt@ =~= write_packet(data, target));
        self.exec(pkt)
    }

    /// Loads both channels' outputs from their input registers.
    pub fn sw_ldac(&mut self) -> (r: Result<(), DacError<SPI::Error, PIN::Error>>)
        ensures
            one_transaction(old(self).history(), final(self).history(), sw_ldac_packet(), r),
    {
        let mut b = CmdBuilder::new();
        b.cmd(Command::SwLDAC).addr(Addr::CHAB);
        let pkt = b.build();
        proof {
            lemma_header_layout(Command::SwLDAC, Addr::CHAB);
        }
        assert(pkt@ =~= sw_ldac_packet());
        self.exec(pkt)
    }
}

} // verus!

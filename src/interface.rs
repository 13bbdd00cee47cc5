//! What a driver asks of the transport to a controller, as a list of operations.
//!
//! A driver never touches a bus itself: each step of its protocol is an [`Op`]
//! (a command byte, data bytes, a reset pulse, a wait on the busy line, a delay),
//! and whoever owns the bus carries the list out in order, stopping at the first
//! transfer that fails.

use vstd::prelude::*;

verus! {

#[derive(Clone, Copy, Debug, PartialEq, Eq, Structural)]
pub enum DisplayError {
    InvalidFormatError,
    BusWriteError,
    DCError,
    CSError,
    BUSYError,
    InvalidChannel,
}

/// One step of a transfer to a controller.
#[derive(Clone, Debug, PartialEq, Eq)]
pub enum Op {
    /// A command byte, sent with the data/command line low.
    Command(u8),
    /// Data bytes, sent with the data/command line high.
    Data(Vec<u8>),
    /// `count` data bytes, each `byte`.
    Repeat { byte: u8, count: usize },
    /// Hardware reset: the reset line is held high for `initial_delay_us`,
    /// low for `duration_us`, then high again before a fixed settle delay.
    Reset { initial_delay_us: u32, duration_us: u32 },
    /// Polls the busy line for as long as it reads `busy_level`.
    WaitWhileBusy { busy_level: bool },
    /// Waits `us` microseconds.
    DelayUs(u32),
}

/// What an [`Op`] does on the wire.
pub enum OpView {
    Command(u8),
    Data(Seq<u8>),
    Reset { initial_delay_us: u32, duration_us: u32 },
    WaitWhileBusy { busy_level: bool },
    DelayUs(u32),
}

/// `count` bytes, each `byte`.
pub open spec fn repeated(byte: u8, count: nat) -> Seq<u8> {
    Seq::new(count, |i: int| byte)
}

impl View for Op {
    type V = OpView;

    open spec fn view(&self) -> OpView {
        match self {
            Op::Command(c) => OpView::Command(*c),
            Op::Data(d) => OpView::Data(d@),
            Op::Repeat { byte, count } => OpView::Data(repeated(*byte, *count as nat)),
            Op::Reset { initial_delay_us, duration_us } => OpView::Reset {
                initial_delay_us: *initial_delay_us,
                duration_us: *duration_us,
            },
            Op::WaitWhileBusy { busy_level } => OpView::WaitWhileBusy { busy_level: *busy_level },
            Op::DelayUs(us) => OpView::DelayUs(*us),
        }
    }
}

pub open spec fn ops_view(ops: Seq<Op>) -> Seq<OpView> {
    ops.map_values(|o: Op| o@)
}

pub open spec fn command(code: u8) -> Seq<OpView> {
    seq![OpView::Command(code)]
}

pub open spec fn data(bytes: Seq<u8>) -> Seq<OpView> {
    seq![OpView::Data(bytes)]
}

/// A command followed by its payload.
pub open spec fn command_data(code: u8, bytes: Seq<u8>) -> Seq<OpView> {
    seq![OpView::Command(code), OpView::Data(bytes)]
}

pub open spec fn reset(initial_delay_us: u32, duration_us: u32) -> Seq<OpView> {
    seq![OpView::Reset { initial_delay_us, duration_us }]
}

pub open spec fn wait_while_busy(busy_level: bool) -> Seq<OpView> {
    seq![OpView::WaitWhileBusy { busy_level }]
}

pub open spec fn delay_us(us: u32) -> Seq<OpView> {
    seq![OpView::DelayUs(us)]
}

fn push_op(ops: &mut Vec<Op>, op: Op)
    ensures
        ops_view(final(ops)@) == ops_view(old(ops)@) + seq![op@],
{
    let ghost before = ops@;
    ops.push(op);
    assert(ops_view(ops@) =~= ops_view(before) + seq![op@]);
}

pub(crate) fn push_command(ops: &mut Vec<Op>, code: u8)
    ensures
        ops_view(final(ops)@) == ops_view(old(ops)@) + command(code),
{
    push_op(ops, Op::Command(code));
}

pub(crate) fn push_data(ops: &mut Vec<Op>, bytes: Vec<u8>)
    ensures
        ops_view(final(ops)@) == ops_view(old(ops)@) + data(bytes@),
{
    push_op(ops, Op::Data(bytes));
}

pub(crate) fn push_command_data(ops: &mut Vec<Op>, code: u8, bytes: Vec<u8>)
    ensures
        ops_view(final(ops)@) == ops_view(old(ops)@) + command_data(code, bytes@),
{
    let ghost before = ops_view(ops@);
    push_op(ops, Op::Command(code));
    push_op(ops, Op::Data(bytes));
    assert(ops_view(ops@) =~= before + command_data(code, bytes@));
}

/// A command followed by a payload of 1 byte.
pub(crate) fn push_command_data_1(ops: &mut Vec<Op>, code: u8, a: u8)
    ensures
        ops_view(final(ops)@) == ops_view(old(ops)@) + command_data(code, seq![a]),
{
    let bytes = vec![a];
    assert(bytes@ =~= seq![a]);
    push_command_data(ops, code, bytes);
}

/// A command followed by a payload of 2 bytes.
pub(crate) fn push_command_data_2(ops: &mut Vec<Op>, code: u8, a: u8, b: u8)
    ensures
        ops_view(final(ops)@) == ops_view(old(ops)@) + command_data(code, seq![a, b]),
{
    let bytes = vec![a, b];
    assert(bytes@ =~= seq![a, b]);
    push_command_data(ops, code, bytes);
}

/// A command followed by a payload of 3 bytes.
pub(crate) fn push_command_data_3(ops: &mut Vec<Op>, code: u8, a: u8, b: u8, c: u8)
    ensures
        ops_view(final(ops)@) == ops_view(old(ops)@) + command_data(code, seq![a, b, c]),
{
    let bytes = vec![a, b, c];
    assert(bytes@ =~= seq![a, b, c]);
    push_command_data(ops, code, bytes);
}

/// A command followed by a payload of 4 bytes.
pub(crate) fn push_command_data_4(ops: &mut Vec<Op>, code: u8, a: u8, b: u8, c: u8, d: u8)
    ensures
        ops_view(final(ops)@) == ops_view(old(ops)@) + command_data(code, seq![a, b, c, d]),
{
    let bytes = vec![a, b, c, d];
    assert(bytes@ =~= seq![a, b, c, d]);
    push_command_data(ops, code, bytes);
}

/// A command followed by a payload of 5 bytes.
pub(crate) fn push_command_data_5(ops: &mut Vec<Op>, code: u8, a: u8, b: u8, c: u8, d: u8, e: u8)
    ensures
        ops_view(final(ops)@) == ops_view(old(ops)@) + command_data(code, seq![a, b, c, d, e]),
{
    let bytes = vec![a, b, c, d, e];
    assert(bytes@ =~= seq![a, b, c, d, e]);
    push_command_data(ops, code, bytes);
}

pub(crate) fn push_repeat(ops: &mut Vec<Op>, byte: u8, count: usize)
    ensures
        ops_view(final(ops)@) == ops_view(old(ops)@) + data(repeated(byte, count as nat)),
{
    push_op(ops, Op::Repeat { byte, count });
}

pub(crate) fn push_reset(ops: &mut Vec<Op>, initial_delay_us: u32, duration_us: u32)
    ensures
        ops_view(final(ops)@) == ops_view(old(ops)@) + reset(initial_delay_us, duration_us),
{
    push_op(ops, Op::Reset { initial_delay_us, duration_us });
}

pub(crate) fn push_wait_while_busy(ops: &mut Vec<Op>, busy_level: bool)
    ensures
        ops_view(final(ops)@) == ops_view(old(ops)@) + wait_while_busy(busy_level),
{
    push_op(ops, Op::WaitWhileBusy { busy_level });
}

pub(crate) fn push_delay_us(ops: &mut Vec<Op>, us: u32)
    ensures
        ops_view(final(ops)@) == ops_view(old(ops)@) + delay_us(us),
{
    push_op(ops, Op::DelayUs(us));
}

/// Appends the operations of `more`.
pub(crate) fn push_all(ops: &mut Vec<Op>, more: Vec<Op>)
    ensures
        ops_view(final(ops)@) == ops_view(old(ops)@) + ops_view(more@),
{
    let ghost before = ops@;
    let mut more = more;
    let ghost added = more@;
    ops.append(&mut more);
    assert(ops_view(ops@) =~= ops_view(before) + ops_view(added));
}

/// An empty list of operations.
pub(crate) fn no_ops() -> (r: Vec<Op>)
    ensures
        ops_view(r@) == Seq::<OpView>::empty(),
{
    let r: Vec<Op> = Vec::new();
    assert(ops_view(r@) =~= Seq::<OpView>::empty());
    r
}

/// E-Paper display SPI interface: the bus device and the three control lines.
pub struct EpdInterface<SPI, DC, RST, BUSY> {
    pub spi: SPI,
    pub dc: DC,
    pub rst: RST,
    pub busy: BUSY,
}

impl<SPI, DC, RST, BUSY> EpdInterface<SPI, DC, RST, BUSY> {
    pub fn new(spi: SPI, dc: DC, rst: RST, busy: BUSY) -> (r: Self)
        ensures
            r.spi == spi,
            r.dc == dc,
            r.rst == rst,
            r.busy == busy,
    {
        EpdInterface { spi, dc, rst, busy }
    }

    /// Consumes the interface and returns the bus device, the data/command line
    /// and the busy line.
    pub fn release(self) -> (r: (SPI, DC, BUSY))
        ensures
            r.0 == self.spi,
            r.1 == self.dc,
            r.2 == self.busy,
    {
        (self.spi, self.dc, self.busy)
    }
}

} // verus!

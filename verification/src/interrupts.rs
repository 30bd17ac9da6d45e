use vstd::prelude::*;

verus! {

/// One byte to be sent to an I/O port.
#[derive(Clone, Copy, Debug, PartialEq, Eq, Structural)]
pub struct PortWrite {
    pub port: u16,
    pub value: u8,
}

/// Command port of the master interrupt controller.
pub const PIC1_COMMAND: u16 = 0x20;

/// Data port of the master interrupt controller.
pub const PIC1_DATA: u16 = 0x21;

/// Command port of the slave interrupt controller.
pub const PIC2_COMMAND: u16 = 0xA0;

/// Data port of the slave interrupt controller.
pub const PIC2_DATA: u16 = 0xA1;

/// The end-of-interrupt command.
pub const PIC_EOI: u8 = 0x20;

/// First interrupt vector of the master controller after remapping.
pub const PIC_1_OFFSET: u8 = 0x20;

/// First interrupt vector of the slave controller after remapping.
pub const PIC_2_OFFSET: u8 = 0x28;

/// The diagnostic port, written to for a short delay.
pub const IO_WAIT_PORT: u16 = 0x80;

/// The hardware interrupt lines, in order of their line number.
#[derive(Clone, Copy, Debug, PartialEq, Eq, Structural)]
pub enum Irq {
    Timer,
    Keyboard,
    Cascade,
    Com2,
    Com1,
    Lpt2,
    FloppyDisk,
    Lpt1,
    RealTimeClock,
    Peripheral1,
    Peripheral2,
    Peripheral3,
    Ps2Mouse,
    Fpu,
    PrimaryAta,
    SecondaryAta,
}

/// The line number of an interrupt.
pub open spec fn irq_line(irq: Irq) -> u8 {
    match irq {
        Irq::Timer => 0,
        Irq::Keyboard => 1,
        Irq::Cascade => 2,
        Irq::Com2 => 3,
        Irq::Com1 => 4,
        Irq::Lpt2 => 5,
        Irq::FloppyDisk => 6,
        Irq::Lpt1 => 7,
        Irq::RealTimeClock => 8,
        Irq::Peripheral1 => 9,
        Irq::Peripheral2 => 10,
        Irq::Peripheral3 => 11,
        Irq::Ps2Mouse => 12,
        Irq::Fpu => 13,
        Irq::PrimaryAta => 14,
        Irq::SecondaryAta => 15,
    }
}

impl Irq {
    /// The interrupt line number, 0 to 15.
    pub fn line(&self) -> (r: u8)
        ensures
            r == irq_line(*self),
            r < 16,
    {
        match self {
            Irq::Timer => 0,
            Irq::Keyboard => 1,
            Irq::Cascade => 2,
            Irq::Com2 => 3,
            Irq::Com1 => 4,
            Irq::Lpt2 => 5,
            Irq::FloppyDisk => 6,
            Irq::Lpt1 => 7,
            Irq::RealTimeClock => 8,
            Irq::Peripheral1 => 9,
            Irq::Peripheral2 => 10,
            Irq::Peripheral3 => 11,
            Irq::Ps2Mouse => 12,
            Irq::Fpu => 13,
            Irq::PrimaryAta => 14,
            Irq::SecondaryAta => 15,
        }
    }

    /// The interrupt vector the line is delivered on after remapping.
    pub fn vector(&self) -> (r: u8)
        ensures
            r == PIC_1_OFFSET + irq_line(*self),
    {
        PIC_1_OFFSET + self.line()
    }
}

/// The end-of-interrupt writes for interrupt line `irq`.
pub open spec fn eoi_writes(irq: u8) -> Seq<PortWrite> {
    if irq >= 8 {
        seq![
            PortWrite { port: PIC2_COMMAND, value: PIC_EOI },
            PortWrite { port: PIC1_COMMAND, value: PIC_EOI },
        ]
    } else {
        seq![PortWrite { port: PIC1_COMMAND, value: PIC_EOI }]
    }
}

/// The port writes that acknowledge interrupt line `irq`: the slave
/// controller is told too when the line is one of its own (8 and up),
/// then the master.
pub fn eoi_port_writes(irq: u8) -> (r: Vec<PortWrite>)
    ensures
        r@ == eoi_writes(irq),
{
    let mut r: Vec<PortWrite> = Vec::new();
    if irq >= 8 {
        r.push(PortWrite { port: PIC2_COMMAND, value: PIC_EOI });
    }
    r.push(PortWrite { port: PIC1_COMMAND, value: PIC_EOI });
    proof {
        if irq >= 8 {
            assert(r@ =~= eoi_writes(irq));
        } else {
            assert(r@ =~= eoi_writes(irq));
        }
    }
    r
}

/// The short delay: one write to the diagnostic port.
pub open spec fn io_wait() -> PortWrite {
    PortWrite { port: IO_WAIT_PORT, value: 0 }
}

/// The initialisation sequence of both interrupt controllers, ending
/// with the saved masks `mask1` and `mask2` written back.
pub open spec fn remap_writes(mask1: u8, mask2: u8) -> Seq<PortWrite> {
    seq![
        PortWrite { port: PIC1_COMMAND, value: 0x11 },
        io_wait(),
        PortWrite { port: PIC2_COMMAND, value: 0x11 },
        io_wait(),
        PortWrite { port: PIC1_DATA, value: PIC_1_OFFSET },
        io_wait(),
        PortWrite { port: PIC2_DATA, value: PIC_2_OFFSET },
        io_wait(),
        PortWrite { port: PIC1_DATA, value: 0x04 },
        io_wait(),
        PortWrite { port: PIC2_DATA, value: 0x02 },
        io_wait(),
        PortWrite { port: PIC1_DATA, value: 0x01 },
        io_wait(),
        PortWrite { port: PIC2_DATA, value: 0x01 },
        io_wait(),
        PortWrite { port: PIC1_DATA, value: mask1 },
        PortWrite { port: PIC2_DATA, value: mask2 },
    ]
}

/// The port writes that remap the two interrupt controllers to vectors
/// 0x20 to 0x2F (start initialisation, vector offsets, cascade on line 2,
/// 8086 mode, each followed by a delay) and then restore the interrupt
/// masks `mask1` and `mask2` read from them beforehand.
pub fn pic_remap_writes(mask1: u8, mask2: u8) -> (r: Vec<PortWrite>)
    ensures
        r@ == remap_writes(mask1, mask2),
{
    let wait = PortWrite { port: IO_WAIT_PORT, value: 0 };
    vec![
        PortWrite { port: PIC1_COMMAND, value: 0x11 },
        wait,
        PortWrite { port: PIC2_COMMAND, value: 0x11 },
        wait,
        PortWrite { port: PIC1_DATA, value: PIC_1_OFFSET },
        wait,
        PortWrite { port: PIC2_DATA, value: PIC_2_OFFSET },
        wait,
        PortWrite { port: PIC1_DATA, value: 0x04 },
        wait,
        PortWrite { port: PIC2_DATA, value: 0x02 },
        wait,
        PortWrite { port: PIC1_DATA, value: 0x01 },
        wait,
        PortWrite { port: PIC2_DATA, value: 0x01 },
        wait,
        PortWrite { port: PIC1_DATA, value: mask1 },
        PortWrite { port: PIC2_DATA, value: mask2 },
    ]
}

/// Number of gates in the interrupt descriptor table.
pub const IDT_ENTRIES: usize = 256;

/// Size in bytes of one packed gate.
pub const IDT_ENTRY_SIZE: usize = 8;

/// Type and attributes of a present 32-bit interrupt gate of ring 0.
pub const INTERRUPT_GATE: u8 = 0x8E;

/// Number of processor exception vectors.
pub const EXCEPTION_VECTORS: usize = 32;

/// One gate of the interrupt descriptor table.
#[derive(Clone, Copy, Debug, PartialEq, Eq, Structural)]
pub struct IdtEntry {
    pub offset_low: u16,
    pub selector: u16,
    pub zero: u8,
    pub type_attr: u8,
    pub offset_high: u16,
}

/// The descriptor entry that sends to `handler` through code segment `selector`.
pub open spec fn gate(handler: u32, selector: u16) -> IdtEntry {
    IdtEntry {
        offset_low: (handler % 65536) as u16,
        selector: selector,
        zero: 0,
        type_attr: INTERRUPT_GATE,
        offset_high: (handler / 65536) as u16,
    }
}

/// The empty gate.
pub open spec fn no_gate() -> IdtEntry {
    IdtEntry { offset_low: 0, selector: 0, zero: 0, type_attr: 0, offset_high: 0 }
}

impl IdtEntry {
    /// A gate that is not present.
    pub fn missing() -> (e: Self)
        ensures
            e == no_gate(),
    {
        IdtEntry { offset_low: 0, selector: 0, zero: 0, type_attr: 0, offset_high: 0 }
    }

    /// An interrupt gate to `handler` in the code segment `selector` (the
    /// segment the kernel runs in).
    pub fn new(handler: u32, selector: u16) -> (e: Self)
        ensures
            e == gate(handler, selector),
    {
        let low = (handler & 0xFFFF) as u16;
        let high = (handler >> 16) as u16;
        assert(low == handler % 65536 && high == handler / 65536) by (bit_vector)
            requires
                low == (handler & 0xFFFF) as u16,
                high == (handler >> 16) as u16,
        ;
        IdtEntry {
            offset_low: low,
            selector: selector,
            zero: 0,
            type_attr: INTERRUPT_GATE,
            offset_high: high,
        }
    }
}

/// The operand of the instruction that loads the descriptor table.
#[derive(Clone, Copy, Debug, PartialEq, Eq, Structural)]
pub struct IdtPointer {
    pub limit: u16,
    pub base: u32,
}

/// The descriptor-table operand for a table of 256 gates at `base`.
pub fn idt_pointer(base: u32) -> (p: IdtPointer)
    ensures
        p.limit == IDT_ENTRIES * IDT_ENTRY_SIZE - 1,
        p.limit == 2047,
        p.base == base,
{
    IdtPointer { limit: (IDT_ENTRIES * IDT_ENTRY_SIZE - 1) as u16, base }
}

/// The descriptor entry the kernel installs at `vector`.
pub open spec fn kernel_gate(
    vector: int,
    exception: u32,
    timer: u32,
    keyboard: u32,
    selector: u16,
) -> IdtEntry {
    if vector < EXCEPTION_VECTORS {
        gate(exception, selector)
    } else if vector == PIC_1_OFFSET + 0 {
        gate(timer, selector)
    } else if vector == PIC_1_OFFSET + 1 {
        gate(keyboard, selector)
    } else {
        no_gate()
    }
}

/// The kernel's descriptor table: the 32 processor exceptions go to
/// `exception`, the timer and keyboard lines (vectors 32 and 33) to their
/// handlers, and every other gate is missing.
pub fn idt_table(exception: u32, timer: u32, keyboard: u32, selector: u16) -> (t: Vec<IdtEntry>)
    ensures
        t@.len() == IDT_ENTRIES,
        forall|v: int|
            0 <= v < IDT_ENTRIES ==> #[trigger] t@[v] == kernel_gate(
                v,
                exception,
                timer,
                keyboard,
                selector,
            ),
{
    let mut t: Vec<IdtEntry> = Vec::new();
    while t.len() < IDT_ENTRIES
        invariant
            t@.len() <= IDT_ENTRIES,
            forall|v: int| 0 <= v < t@.len() ==> #[trigger] t@[v] == no_gate(),
        decreases IDT_ENTRIES - t@.len(),
    {
        t.push(IdtEntry::missing());
    }
    let exception_gate = IdtEntry::new(exception, selector);
    let mut i: usize = 0;
    while i < EXCEPTION_VECTORS
        invariant
            0 <= i <= EXCEPTION_VECTORS,
            t@.len() == IDT_ENTRIES,
            exception_gate == gate(exception, selector),
            forall|v: int| 0 <= v < i ==> #[trigger] t@[v] == gate(exception, selector),
            forall|v: int| i <= v < IDT_ENTRIES ==> #[trigger] t@[v] == no_gate(),
        decreases EXCEPTION_VECTORS - i,
    {
        t.set(i, exception_gate);
        i = i + 1;
    }
    t.set(32, IdtEntry::new(timer, selector));
    t.set(33, IdtEntry::new(keyboard, selector));
    t
}

/// The two halves of a gate's handler offset put together give back the
/// handler address.
pub proof fn lemma_gate_offset_round_trip(handler: u32, selector: u16)
    ensures
        gate(handler, selector).offset_low + gate(handler, selector).offset_high * 65536 == handler,
        gate(handler, selector).selector == selector,
{
}

/// Acknowledging a line always tells the master controller, last; the
/// slave controller is told first exactly for lines 8 and up.
pub proof fn lemma_eoi_reaches_right_controllers(irq: u8)
    ensures
        eoi_writes(irq).last() == (PortWrite { port: PIC1_COMMAND, value: PIC_EOI }),
        (irq >= 8) == (eoi_writes(irq).len() == 2),
        irq >= 8 ==> eoi_writes(irq)[0] == (PortWrite { port: PIC2_COMMAND, value: PIC_EOI }),
{
}

/// The remap sequence restores exactly the masks it was given: its last
/// two writes put `mask1` on the master's data port 0x21 and `mask2` on the
/// slave's data port 0xA1, and the sixteen writes before them are the same
/// whatever the masks are. The master's vectors start at 0x20 and the
/// slave's at 0x28, and every initialisation word is followed by a delay.
pub proof fn lemma_remap_restores_masks(mask1: u8, mask2: u8, other1: u8, other2: u8)
    ensures
        remap_writes(mask1, mask2).len() == 18,
        remap_writes(mask1, mask2)[16] == (PortWrite { port: 0x21, value: mask1 }),
        remap_writes(mask1, mask2)[17] == (PortWrite { port: 0xA1, value: mask2 }),
        forall|i: int|
            0 <= i < 16 ==> remap_writes(mask1, mask2)[i] == remap_writes(other1, other2)[i],
        remap_writes(mask1, mask2)[4] == (PortWrite { port: 0x21, value: 0x20 }),
        remap_writes(mask1, mask2)[6] == (PortWrite { port: 0xA1, value: 0x28 }),
        forall|i: int|
            0 <= i < 16 && i % 2 == 1 ==> remap_writes(mask1, mask2)[i] == (PortWrite {
                port: 0x80,
                value: 0,
            }),
{
}

/// Acknowledging sends command 0x20 to port 0x20 (the master) last, and
/// before it to port 0xA0 (the slave) exactly for lines 8 and up.
pub proof fn lemma_eoi_ports(irq: u8)
    ensures
        irq < 8 ==> eoi_writes(irq) == seq![PortWrite { port: 0x20, value: 0x20 }],
        irq >= 8 ==> eoi_writes(irq) == seq![
            PortWrite { port: 0xA0, value: 0x20 },
            PortWrite { port: 0x20, value: 0x20 },
        ],
{
}

/// An interrupt gate to a handler is present, of type 0x8E, with a zero
/// reserved byte, the given selector, and the handler address split into
/// its low and high 16 bits; the missing gate is all zero.
pub proof fn lemma_gate_fields(handler: u32, selector: u16)
    ensures
        gate(handler, selector).type_attr == 0x8E,
        gate(handler, selector).zero == 0,
        gate(handler, selector).selector == selector,
        gate(handler, selector).offset_low < 65536,
        gate(handler, selector).offset_low as int + gate(handler, selector).offset_high as int
            * 65536 == handler as int,
        no_gate().type_attr == 0 && no_gate().offset_low == 0 && no_gate().offset_high == 0,
        no_gate().selector == 0 && no_gate().zero == 0,
{
}

/// The kernel's table: vectors 0 to 31 go to the exception handler, 32 to
/// the timer handler, 33 to the keyboard handler, all through the same
/// selector, and vectors 34 to 255 hold no gate.
pub proof fn lemma_kernel_table_layout(exception: u32, timer: u32, keyboard: u32, selector: u16)
    ensures
        forall|v: int| 0 <= v < 32 ==> kernel_gate(v, exception, timer, keyboard, selector) == gate(exception, selector),
        kernel_gate(32, exception, timer, keyboard, selector) == gate(timer, selector),
        kernel_gate(33, exception, timer, keyboard, selector) == gate(keyboard, selector),
        forall|v: int| 34 <= v < 256 ==> kernel_gate(v, exception, timer, keyboard, selector).type_attr == 0,
{
}

/// The lines are numbered 0 to 15 in their order (timer 0, keyboard 1,
/// cascade 2, ..., secondary ATA 15), distinct lines have distinct
/// numbers, and after the remap line n arrives on vector 0x20 + n.
pub proof fn lemma_irq_numbers()
    ensures
        forall|a: Irq, b: Irq| irq_line(a) == irq_line(b) ==> a == b,
        forall|a: Irq| irq_line(a) < 16,
        irq_line(Irq::Timer) == 0 && irq_line(Irq::Keyboard) == 1 && irq_line(Irq::Cascade) == 2,
        irq_line(Irq::Com2) == 3 && irq_line(Irq::Com1) == 4 && irq_line(Irq::Lpt2) == 5,
        irq_line(Irq::FloppyDisk) == 6 && irq_line(Irq::Lpt1) == 7,
        irq_line(Irq::RealTimeClock) == 8 && irq_line(Irq::Peripheral1) == 9,
        irq_line(Irq::Peripheral2) == 10 && irq_line(Irq::Peripheral3) == 11,
        irq_line(Irq::Ps2Mouse) == 12 && irq_line(Irq::Fpu) == 13,
        irq_line(Irq::PrimaryAta) == 14 && irq_line(Irq::SecondaryAta) == 15,
        PIC_1_OFFSET == 0x20 && PIC_2_OFFSET == 0x28,
{
}

} // verus!

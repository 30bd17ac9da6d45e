use kernelspace_rust::interrupts::{
    eoi_port_writes, idt_pointer, idt_table, pic_remap_writes, IdtEntry, Irq, PortWrite,
};

fn pw(port: u16, value: u8) -> PortWrite {
    PortWrite { port, value }
}

#[test]
fn eoi_master_only_below_eight() {
    assert_eq!(eoi_port_writes(0), vec![pw(0x20, 0x20)]);
    assert_eq!(eoi_port_writes(1), vec![pw(0x20, 0x20)]);
    assert_eq!(eoi_port_writes(7), vec![pw(0x20, 0x20)]);
}

#[test]
fn eoi_slave_then_master_from_eight() {
    assert_eq!(eoi_port_writes(8), vec![pw(0xA0, 0x20), pw(0x20, 0x20)]);
    assert_eq!(eoi_port_writes(15), vec![pw(0xA0, 0x20), pw(0x20, 0x20)]);
}

#[test]
fn pic_remap_sequence() {
    let w = pic_remap_writes(0xAB, 0xCD);
    let wait = pw(0x80, 0);
    assert_eq!(
        w,
        vec![
            pw(0x20, 0x11),
            wait,
            pw(0xA0, 0x11),
            wait,
            pw(0x21, 0x20),
            wait,
            pw(0xA1, 0x28),
            wait,
            pw(0x21, 0x04),
            wait,
            pw(0xA1, 0x02),
            wait,
            pw(0x21, 0x01),
            wait,
            pw(0xA1, 0x01),
            wait,
            pw(0x21, 0xAB),
            pw(0xA1, 0xCD),
        ]
    );
}

#[test]
fn idt_entry_splits_handler() {
    let e = IdtEntry::new(0x0010_2345, 0x08);
    let low = e.offset_low;
    let high = e.offset_high;
    let sel = e.selector;
    assert_eq!(low, 0x2345);
    assert_eq!(high, 0x0010);
    assert_eq!(sel, 0x08);
    assert_eq!(e.zero, 0);
    assert_eq!(e.type_attr, 0x8E);
    assert_eq!((low as u32) | ((high as u32) << 16), 0x0010_2345);
}

#[test]
fn idt_entry_missing_is_zero() {
    let e = IdtEntry::missing();
    assert_eq!(
        e,
        IdtEntry { offset_low: 0, selector: 0, zero: 0, type_attr: 0, offset_high: 0 }
    );
}

#[test]
fn idt_pointer_limit() {
    let p = idt_pointer(0x0012_3000);
    let limit = p.limit;
    let base = p.base;
    assert_eq!(limit, 2047);
    assert_eq!(base, 0x0012_3000);
}

#[test]
fn idt_table_layout() {
    let t = idt_table(0x1000, 0x2000, 0x3000, 0x10);
    assert_eq!(t.len(), 256);
    for v in 0..32 {
        assert_eq!(t[v], IdtEntry::new(0x1000, 0x10));
    }
    assert_eq!(t[32], IdtEntry::new(0x2000, 0x10));
    assert_eq!(t[33], IdtEntry::new(0x3000, 0x10));
    for v in 34..256 {
        assert_eq!(t[v], IdtEntry::missing());
    }
}

#[test]
fn irq_vectors_after_remap() {
    assert_eq!(Irq::Timer.vector(), 0x20);
    assert_eq!(Irq::Keyboard.vector(), 0x21);
    assert_eq!(Irq::Lpt1.vector(), 0x27);
    assert_eq!(Irq::RealTimeClock.vector(), 0x28);
    assert_eq!(Irq::SecondaryAta.vector(), 0x2F);
    assert_eq!(Irq::Ps2Mouse.line(), 12);
}

use vstd::prelude::*;
use crate::kernel::io::{IoPort, ModeReadWrite, PortWrite};

verus! {

/// The command port of the master interrupt controller.
pub const MASTER_COMMAND_PORT: u16 = 0x20;

/// The data port of the master interrupt controller.
pub const MASTER_DATA_PORT: u16 = 0x21;

/// The command port of the slave interrupt controller.
pub const SLAVE_COMMAND_PORT: u16 = 0xa0;

/// The data port of the slave interrupt controller.
pub const SLAVE_DATA_PORT: u16 = 0xa1;

/// The command that acknowledges an interrupt.
pub const END_OF_INTERRUPT: u8 = 0x20;

/// Initialization command word 1: start initialization, expect word 4.
pub const ICW1_INIT: u8 = 0x11;

/// Initialization command word 4: 8086 mode.
pub const ICW4_MODE_8086: u8 = 0x01;

/// How to program one 8259 interrupt controller.
#[derive(Clone, Copy)]
pub struct PicConfiguration {
    pub command_port: IoPort<ModeReadWrite>,
    pub data_port: IoPort<ModeReadWrite>,
    pub starting_vector: u8,
    pub connection: u8,
    pub port_mask: u8,
}

/// The five writes that program a controller: the init command, then the
/// vector offset, the cascade wiring, the mode and the interrupt mask on
/// its data port.
pub open spec fn configuration_writes(config: PicConfiguration) -> Seq<PortWrite> {
    seq![
        PortWrite { port: config.command_port.address(), value: ICW1_INIT },
        PortWrite { port: config.data_port.address(), value: config.starting_vector },
        PortWrite { port: config.data_port.address(), value: config.connection },
        PortWrite { port: config.data_port.address(), value: ICW4_MODE_8086 },
        PortWrite { port: config.data_port.address(), value: config.port_mask },
    ]
}

/// The writes that program one controller.
pub fn configure_pic(config: PicConfiguration) -> (r: Vec<PortWrite>)
    ensures
        r@ == configuration_writes(config),
{
    let mut writes: Vec<PortWrite> = Vec::new();
    writes.push(PortWrite { port: config.command_port.port(), value: ICW1_INIT });
    writes.push(PortWrite { port: config.data_port.port(), value: config.starting_vector });
    writes.push(PortWrite { port: config.data_port.port(), value: config.connection });
    writes.push(PortWrite { port: config.data_port.port(), value: ICW4_MODE_8086 });
    writes.push(PortWrite { port: config.data_port.port(), value: config.port_mask });
    writes
}

/// The writes that program both controllers: the master maps IRQs to
/// vectors 0x20-0x27, has the slave on IRQ2 and lets only IRQ1 (keyboard)
/// and IRQ2 through; the slave maps to 0x28-0x2f with cascade identity 2
/// and masks every line.
pub fn initialize() -> (r: Vec<PortWrite>)
    ensures
        r@ == seq![
            PortWrite { port: MASTER_COMMAND_PORT, value: ICW1_INIT },
            PortWrite { port: MASTER_DATA_PORT, value: 0x20 },
            PortWrite { port: MASTER_DATA_PORT, value: 0x04 },
            PortWrite { port: MASTER_DATA_PORT, value: ICW4_MODE_8086 },
            PortWrite { port: MASTER_DATA_PORT, value: 0b1111_1001 },
            PortWrite { port: SLAVE_COMMAND_PORT, value: ICW1_INIT },
            PortWrite { port: SLAVE_DATA_PORT, value: 0x28 },
            PortWrite { port: SLAVE_DATA_PORT, value: 2 },
            PortWrite { port: SLAVE_DATA_PORT, value: ICW4_MODE_8086 },
            PortWrite { port: SLAVE_DATA_PORT, value: 0b1111_1111 },
        ],
{
    let mut writes = configure_pic(
        PicConfiguration {
            command_port: IoPort::new(MASTER_COMMAND_PORT),
            data_port: IoPort::new(MASTER_DATA_PORT),
            starting_vector: 0x20,
            connection: 1u8 << 2,
            port_mask: 0b1111_1001,
        },
    );
    let mut slave_writes = configure_pic(
        PicConfiguration {
            command_port: IoPort::new(SLAVE_COMMAND_PORT),
            data_port: IoPort::new(SLAVE_DATA_PORT),
            starting_vector: 0x28,
            connection: 2,
            port_mask: 0b1111_1111,
        },
    );
    writes.append(&mut slave_writes);
    assert(1u8 << 2 == 4) by (bit_vector);
    writes
}

} // verus!

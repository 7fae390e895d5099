//! The SD command machine, the UART receive latch and the serial path
//! through the machine.

use ppcpu::sd::SD;
use ppcpu::uart::UartCore;

fn op_word(opc: u32, rd: u32, rs1: u32, rs2: u32, imm: u32) -> u32 {
    opc | (rd << 7) | (rs1 << 10) | (rs2 << 13) | (imm << 16)
}

/// Clock one SPI byte into the card and return the byte that came back
/// on the wire for it.
fn spi(sd: &mut SD, byte: u8) -> u8 {
    sd.write(0, byte as u16);
    sd.read(1) as u8
}

fn spi_cmd(sd: &mut SD, cmd: [u8; 6]) {
    for b in cmd {
        spi(sd, b);
    }
}

#[test]
fn sd_init_sequence() {
    let mut sd = SD::new(vec![]);
    // Idle polls answer 0xFF.
    assert_eq!(spi(&mut sd, 0xFF), 0xFF);
    // CMD0 answers the idle status on the next poll.
    spi_cmd(&mut sd, [0x40, 0, 0, 0, 0, 0x95]);
    assert_eq!(spi(&mut sd, 0xFF), 0x01);
    // CMD8 echoes the check pattern.
    spi_cmd(&mut sd, [0x48, 0, 0, 0x01, 0xAA, 0x87]);
    assert_eq!(spi(&mut sd, 0xFF), 0x01);
    assert_eq!(spi(&mut sd, 0xFF), 0x00);
    assert_eq!(spi(&mut sd, 0xFF), 0x00);
    assert_eq!(spi(&mut sd, 0xFF), 0x01);
    assert_eq!(spi(&mut sd, 0xFF), 0xAA);
    // ACMD55 then ACMD41 with the high-capacity argument initializes.
    spi_cmd(&mut sd, [0x77, 0, 0, 0, 0, 0x01]);
    assert_eq!(spi(&mut sd, 0xFF), 0x01);
    spi_cmd(&mut sd, [0x69, 0x40, 0, 0, 0, 0x01]);
    assert_eq!(spi(&mut sd, 0xFF), 0x00);
    // CMD58 answers the OCR bytes.
    spi_cmd(&mut sd, [0x7A, 0, 0, 0, 0, 0x01]);
    assert_eq!(spi(&mut sd, 0xFF), 0x00);
    assert_eq!(spi(&mut sd, 0xFF), 0x80);
    assert_eq!(spi(&mut sd, 0xFF), 0x10);
    // CMD16 accepts only the 512-byte block size.
    spi(&mut sd, 0xFF);
    spi(&mut sd, 0xFF);
    spi_cmd(&mut sd, [0x50, 0, 0, 0x02, 0x00, 0x01]);
    assert_eq!(spi(&mut sd, 0xFF), 0x00);
}

#[test]
fn sd_block_read() {
    // Two blocks; the second counts downward so it differs from the first.
    let mut image = vec![0u8; 1024];
    for (i, b) in image.iter_mut().enumerate() {
        *b = if i < 512 { (i % 251) as u8 } else { (255 - i % 256) as u8 };
    }
    let expect_b1: Vec<u8> = image[512..1024].to_vec();
    let mut sd = SD::new(image);
    spi_cmd(&mut sd, [0x51, 0, 0, 0, 0x01, 0x01]); // CMD17, block 1
    assert_eq!(spi(&mut sd, 0xFF), 0x00); // status
    assert_eq!(spi(&mut sd, 0xFF), 0xFF); // data wait
    assert_eq!(spi(&mut sd, 0xFF), 0xFE); // start token
    for k in 0..512 {
        assert_eq!(spi(&mut sd, 0xFF), expect_b1[k]);
    }
    assert_eq!(spi(&mut sd, 0xFF), 0x00); // crc
    assert_eq!(spi(&mut sd, 0xFF), 0x00);
    assert_eq!(spi(&mut sd, 0xFF), 0xFF); // queue drained
}

#[test]
fn sd_block_read_past_end_is_zero_padded() {
    let mut sd = SD::new(vec![0xAB; 16]);
    spi_cmd(&mut sd, [0x51, 0, 0, 0, 0x00, 0x01]); // CMD17, block 0
    spi(&mut sd, 0xFF); // status
    spi(&mut sd, 0xFF); // wait
    spi(&mut sd, 0xFF); // start token
    for _ in 0..16 {
        assert_eq!(spi(&mut sd, 0xFF), 0xAB);
    }
    for _ in 16..512 {
        assert_eq!(spi(&mut sd, 0xFF), 0x00);
    }
}

#[test]
fn sd_unknown_command_answers_nothing() {
    let mut sd = SD::new(vec![]);
    spi_cmd(&mut sd, [0x7F, 0, 0, 0, 0, 0x01]);
    assert_eq!(spi(&mut sd, 0xFF), 0xFF);
}

#[test]
fn sd_on_the_bus() {
    let mut bus = ppcpu::bus::Bus::new();
    bus.add_device(ppcpu::bus::DeviceEntry {
        begin_addr: 0x2010,
        end_addr: 0x2014,
        device: ppcpu::bus::DeviceKind::Sd(SD::new(vec![])),
    });
    bus.write(0x2010, 0b01, 0x40).unwrap();
    for _ in 0..5 {
        bus.write(0x2010, 0b01, 0x00).unwrap();
    }
    bus.write(0x2010, 0b01, 0xFF).unwrap();
    assert_eq!(bus.read(0x2011, 0b11), Ok(0x01));
    // Other offsets read as zero; writes there are ignored.
    assert_eq!(bus.read(0x2012, 0b11), Ok(0));
    bus.write(0x2013, 0b01, 0x40).unwrap();
    assert_eq!(bus.read(0x2011, 0b11), Ok(0x01));
}

#[test]
fn uart_latch_protocol() {
    let mut u = UartCore::new();
    // Nothing arrived: TX ready only.
    assert_eq!(u.read_status(None), 0x2);
    // A byte arrives during a status poll and is latched.
    assert_eq!(u.read_status(Some(0x41)), 0x3);
    // While pending, the receive read consumes the latch.
    assert_eq!(u.read_rx(None), 0x41);
    assert!(!u.last_read_pending);
    // Consumed: status drops the ready bit again.
    assert_eq!(u.read_status(None), 0x2);
    // A stale receive read repeats the old byte.
    assert_eq!(u.read_rx(None), 0x41);
    // A receive read can also take a byte that just arrived.
    assert_eq!(u.read_rx(Some(0x42)), 0x42);
    assert_eq!(u.read_status(None), 0x2);
}

#[test]
fn uart_bus_dispatch() {
    let mut u = UartCore::new();
    assert_eq!(u.bus_read(0, Some(0x55)), 0x3);
    assert_eq!(u.bus_read(1, None), 0x55);
    assert_eq!(u.bus_read(7, Some(0x66)), 0);
    assert!(u.write_is_tx(2));
    assert!(!u.write_is_tx(0));
}

#[test]
fn uart_device_over_the_bus() {
    let mut bus = ppcpu::bus::Bus::new();
    bus.add_device(ppcpu::bus::DeviceEntry {
        begin_addr: 0x2000,
        end_addr: 0x2002,
        device: ppcpu::bus::DeviceKind::Uart(ppcpu::uart::UART::new()),
    });
    let mut cpu = ppcpu::cpu::CPU::new(bus, 0);
    assert_eq!(cpu.bus.read(0x2000, 0b11), Ok(0x2)); // nothing received
    assert!(cpu.uart_push_rx(0x41));
    assert_eq!(cpu.bus.read(0x2000, 0b11), Ok(0x3)); // byte ready
    assert_eq!(cpu.bus.read(0x2001, 0b11), Ok(0x41)); // consume it
    assert_eq!(cpu.bus.read(0x2000, 0b11), Ok(0x2));
    cpu.bus.write(0x2002, 0b01, 0x58).unwrap();
    cpu.bus.write(0x2002, 0b01, 0x21).unwrap();
    assert_eq!(cpu.uart_take_tx(), vec![0x58, 0x21]);
    assert_eq!(cpu.uart_take_tx(), Vec::<u8>::new());
}

#[test]
fn firmware_serial_round_trip() {
    let mut cpu = ppcpu::system::build_system(&[], &[]);
    cpu.uart_push_rx(0x41);
    // Map data page 0 onto the UART region and enable data paging.
    cpu.sregs.write(0x200, 0x4, &mut cpu.state);
    cpu.sregs.write(
        1,
        ppcpu::sreg::PRIV_PRIV | ppcpu::sreg::PRIV_DATPG,
        &mut cpu.state,
    );
    cpu.execute(op_word(0x02, 0, 0, 0, 0)).unwrap(); // LDD r0 <- status
    assert_eq!(cpu.state.reg[0], 0x3);
    cpu.execute(op_word(0x02, 1, 0, 0, 2)).unwrap(); // LDD r1 <- rx
    assert_eq!(cpu.state.reg[1], 0x41);
    cpu.execute(op_word(0x04, 2, 0, 0, 0x58)).unwrap(); // LDI r2, 'X'
    cpu.execute(op_word(0x05, 0, 2, 0, 4)).unwrap(); // STD r2 -> tx
    assert_eq!(cpu.uart_take_tx(), vec![0x58]);
}

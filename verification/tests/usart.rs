use lpc1347_rtfm3::error::DriverError;
use lpc1347_rtfm3::iocon::Iocon;
use lpc1347_rtfm3::nvic::Nvic;
use lpc1347_rtfm3::syscon::Syscon;
use lpc1347_rtfm3::usart::{
    clear_fifo, data_pending, handle_interrupt, init, init_buffer, read_array, read_buffer, send,
    send_byte, write_buffer, Pcb, Usart, BUFFER_SIZE,
};

#[test]
fn new_control_structure_has_an_empty_buffer() {
    let pcb = Pcb::new(9600);
    assert_eq!(pcb.baud_rate, 9600);
    assert_eq!(pcb.status, 0);
    assert_eq!(pcb.tx_data, 0);
    assert_eq!((pcb.rxfifo.length, pcb.rxfifo.rptr, pcb.rxfifo.wptr), (0, 0, 0));
    assert!(!data_pending(&pcb));
    assert_eq!(BUFFER_SIZE, 1024);
}

#[test]
fn bytes_are_read_in_the_order_they_were_written() {
    let mut pcb = Pcb::new(9600);
    for byte in [10u8, 20, 30] {
        write_buffer(&mut pcb, byte);
    }
    assert_eq!((pcb.rxfifo.length, pcb.rxfifo.rptr, pcb.rxfifo.wptr), (3, 0, 3));
    assert_eq!(&pcb.rxfifo.buffer[0..4], &[10, 20, 30, 0]);
    assert!(data_pending(&pcb));
    assert_eq!(read_buffer(&mut pcb), 10);
    assert_eq!(read_buffer(&mut pcb), 20);
    assert_eq!((pcb.rxfifo.length, pcb.rxfifo.rptr, pcb.rxfifo.wptr), (1, 2, 3));
    write_buffer(&mut pcb, 40);
    assert_eq!(read_buffer(&mut pcb), 30);
    assert_eq!(read_buffer(&mut pcb), 40);
    assert_eq!((pcb.rxfifo.length, pcb.rxfifo.rptr, pcb.rxfifo.wptr), (0, 4, 4));
    assert!(!data_pending(&pcb));
}

#[test]
fn pointers_wrap_at_the_end_of_the_buffer() {
    let mut pcb = Pcb::new(9600);
    pcb.rxfifo.rptr = BUFFER_SIZE - 1;
    pcb.rxfifo.wptr = BUFFER_SIZE - 1;
    write_buffer(&mut pcb, 0xA1);
    write_buffer(&mut pcb, 0xB2);
    assert_eq!((pcb.rxfifo.length, pcb.rxfifo.rptr, pcb.rxfifo.wptr), (2, BUFFER_SIZE - 1, 1));
    assert_eq!(pcb.rxfifo.buffer[BUFFER_SIZE - 1], 0xA1);
    assert_eq!(pcb.rxfifo.buffer[0], 0xB2);
    assert_eq!(read_buffer(&mut pcb), 0xA1);
    assert_eq!((pcb.rxfifo.length, pcb.rxfifo.rptr, pcb.rxfifo.wptr), (1, 0, 1));
    assert_eq!(read_buffer(&mut pcb), 0xB2);
    assert_eq!((pcb.rxfifo.length, pcb.rxfifo.rptr, pcb.rxfifo.wptr), (0, 1, 1));
}

#[test]
fn buffer_holds_as_many_bytes_as_it_has_cells() {
    let mut pcb = Pcb::new(9600);
    for i in 0..BUFFER_SIZE {
        write_buffer(&mut pcb, (i % 251) as u8);
    }
    assert_eq!((pcb.rxfifo.length, pcb.rxfifo.rptr, pcb.rxfifo.wptr), (BUFFER_SIZE, 0, 0));
    for i in 0..BUFFER_SIZE {
        assert_eq!(read_buffer(&mut pcb), (i % 251) as u8);
    }
    assert!(!data_pending(&pcb));
}

#[test]
fn init_buffer_resets_the_length_alone() {
    let mut pcb = Pcb::new(9600);
    write_buffer(&mut pcb, 1);
    write_buffer(&mut pcb, 2);
    read_buffer(&mut pcb);
    pcb.status = 7;
    init_buffer(&mut pcb);
    assert_eq!((pcb.rxfifo.length, pcb.rxfifo.rptr, pcb.rxfifo.wptr), (0, 1, 2));
    assert_eq!(pcb.status, 7);
    assert_eq!(&pcb.rxfifo.buffer[0..2], &[1, 2]);
    assert!(!data_pending(&pcb));
}

#[test]
fn clear_fifo_resets_length_and_pointers() {
    let mut pcb = Pcb::new(9600);
    write_buffer(&mut pcb, 1);
    write_buffer(&mut pcb, 2);
    read_buffer(&mut pcb);
    clear_fifo(&mut pcb);
    assert_eq!((pcb.rxfifo.length, pcb.rxfifo.rptr, pcb.rxfifo.wptr), (0, 0, 0));
    assert_eq!(&pcb.rxfifo.buffer[0..2], &[1, 2]);
    assert!(!data_pending(&pcb));
    write_buffer(&mut pcb, 3);
    assert_eq!(read_buffer(&mut pcb), 3);
}

#[test]
fn read_array_drains_the_buffer_into_the_first_cell() {
    let mut pcb = Pcb::new(9600);
    for byte in [10u8, 20, 30] {
        write_buffer(&mut pcb, byte);
    }
    let mut target = [0xEEu8; 4];
    assert!(!read_array(&mut pcb, &mut target, 4));
    assert_eq!(target, [30, 0xEE, 0xEE, 0xEE]);
    assert_eq!((pcb.rxfifo.length, pcb.rxfifo.rptr, pcb.rxfifo.wptr), (0, 3, 3));
    assert!(!data_pending(&pcb));
}

#[test]
fn read_array_with_nothing_to_do_changes_nothing() {
    let mut pcb = Pcb::new(9600);
    let mut target = [0xEEu8; 2];
    assert!(!read_array(&mut pcb, &mut target, 2));
    assert_eq!(target, [0xEE, 0xEE]);
    write_buffer(&mut pcb, 5);
    let before = pcb;
    assert!(!read_array(&mut pcb, &mut target, 0));
    assert_eq!(target, [0xEE, 0xEE]);
    assert_eq!(pcb, before);
    let mut none: [u8; 0] = [];
    assert!(!read_array(&mut pcb, &mut none, 0));
    assert_eq!(pcb, before);
}

#[test]
fn read_array_wraps_with_the_read_pointer() {
    let mut pcb = Pcb::new(9600);
    pcb.rxfifo.rptr = BUFFER_SIZE - 2;
    pcb.rxfifo.wptr = BUFFER_SIZE - 2;
    for byte in [1u8, 2, 3, 4] {
        write_buffer(&mut pcb, byte);
    }
    let mut target = [0u8; 1];
    assert!(!read_array(&mut pcb, &mut target, 1));
    assert_eq!(target, [4]);
    assert_eq!((pcb.rxfifo.length, pcb.rxfifo.rptr, pcb.rxfifo.wptr), (0, 2, 2));
}

fn idle_usart() -> Usart {
    let mut usart = Usart::new();
    usart.lsr = 0x61;
    usart.lcr = 0xFF;
    usart.iir = 0x1;
    usart
}

#[test]
fn usart_init_configures_every_block() {
    let mut pcb = Pcb::new(1);
    write_buffer(&mut pcb, 9);
    pcb.status = 3;
    let mut nvic = Nvic::new();
    let mut iocon = Iocon::new();
    let mut syscon = Syscon::new();
    let mut usart = idle_usart();
    let r = init(&mut pcb, &mut nvic, &mut iocon, &mut syscon, &mut usart, 2, true);
    assert_eq!(r, Ok(()));
    assert_eq!((pcb.rxfifo.length, pcb.rxfifo.rptr, pcb.rxfifo.wptr), (0, 0, 1));
    assert_eq!((pcb.baud_rate, pcb.status, pcb.tx_data), (1, 3, 0));
    assert_eq!(nvic.enabled, 1 << 21);
    let mut pins = Iocon::new();
    pins.pio0_18 = 1;
    pins.pio0_19 = 1;
    pins.pio0_7 = 1;
    pins.pio0_17 = 1;
    assert_eq!(iocon, pins);
    let mut clocks = Syscon::new();
    clocks.sysahbclkctrl = 1 << 12;
    clocks.uartclkdiv = 1;
    assert_eq!(syscon, clocks);
    // 750 / 2 = 375 = 1 * 256 + 119
    assert_eq!(
        usart,
        Usart {
            lcr: 0x03,
            dlm: 1,
            dll: 119,
            ier: 0x5,
            mcr: 0xC0,
            iir: 0x1,
            lsr: 0x60,
            fcr: vec![0x1, 0x2, 0x4],
            thr: vec![],
        }
    );
}

#[test]
fn usart_init_without_flow_control_leaves_its_pins_and_the_modem_control() {
    let mut pcb = Pcb::new(1);
    let mut nvic = Nvic::new();
    nvic.enabled = 0xFFFF_FFFF;
    let mut iocon = Iocon::new();
    iocon.pio0_7 = 0xF8;
    iocon.pio0_18 = 0xFF;
    let mut syscon = Syscon::new();
    syscon.uartclkdiv = 0xFF;
    let mut usart = idle_usart();
    usart.lsr = 0x20;
    usart.mcr = 0x11;
    usart.fcr = vec![0x7];
    usart.dll = 0xFFFF_FFFF;
    let r = init(&mut pcb, &mut nvic, &mut iocon, &mut syscon, &mut usart, 9600, false);
    assert_eq!(r, Ok(()));
    assert_eq!(nvic.enabled, 0xFFFF_FFFF);
    let mut pins = Iocon::new();
    pins.pio0_7 = 0xF8;
    pins.pio0_18 = 0xF9;
    pins.pio0_19 = 1;
    assert_eq!(iocon, pins);
    assert_eq!(syscon.uartclkdiv, 1);
    // 750 / 9600 = 0
    assert_eq!(usart.dlm, 0);
    assert_eq!(usart.dll, 0xFFFF_FF00);
    assert_eq!(usart.mcr, 0x11);
    assert_eq!(usart.fcr, vec![0x7, 0x1, 0x2, 0x4]);
    assert_eq!(usart.lsr, 0x20);
}

#[test]
fn usart_init_refuses_a_baud_rate_of_zero() {
    let mut pcb = Pcb::new(1);
    write_buffer(&mut pcb, 9);
    let before = pcb;
    let (mut nvic, mut iocon, mut syscon, mut usart) =
        (Nvic::new(), Iocon::new(), Syscon::new(), idle_usart());
    let r = init(&mut pcb, &mut nvic, &mut iocon, &mut syscon, &mut usart, 0, true);
    assert_eq!(r, Err(DriverError::InvalidDivider));
    assert_eq!(pcb, before);
    assert_eq!((nvic, iocon, syscon, usart), (Nvic::new(), Iocon::new(), Syscon::new(), idle_usart()));
}

#[test]
fn usart_init_with_a_busy_transmitter_is_not_ready() {
    let mut pcb = Pcb::new(1);
    write_buffer(&mut pcb, 9);
    let before = pcb;
    let (mut nvic, mut iocon, mut syscon, mut usart) =
        (Nvic::new(), Iocon::new(), Syscon::new(), Usart::new());
    usart.lsr = 0x9F;
    let busy = usart.clone();
    let r = init(&mut pcb, &mut nvic, &mut iocon, &mut syscon, &mut usart, 9600, true);
    assert_eq!(r, Err(DriverError::NotReady));
    assert_eq!(pcb, before);
    assert_eq!((nvic, iocon, syscon, usart), (Nvic::new(), Iocon::new(), Syscon::new(), busy));
}

#[test]
fn send_writes_the_first_bytes_of_the_buffer_in_order() {
    let mut usart = idle_usart();
    usart.thr = vec![b'>'];
    assert_eq!(send(&mut usart, Some(b"hello"), 4), Ok(()));
    let mut expected = idle_usart();
    expected.thr = b">hell".to_vec();
    assert_eq!(usart, expected);
    assert_eq!(send(&mut usart, Some(b"o"), 1), Ok(()));
    assert_eq!(usart.thr, b">hello".to_vec());
}

#[test]
fn send_of_no_bytes_sends_nothing() {
    let mut usart = Usart::new();
    assert_eq!(send(&mut usart, Some(b"hello"), 0), Ok(()));
    assert_eq!(send(&mut usart, Some(b"hello"), -3), Ok(()));
    assert_eq!(send(&mut usart, Some(b""), 0), Ok(()));
    assert_eq!(usart, Usart::new());
}

#[test]
fn send_without_a_buffer_is_refused() {
    let mut usart = idle_usart();
    assert_eq!(send(&mut usart, None, 0), Err(DriverError::NullBuffer));
    assert_eq!(send(&mut usart, None, 5), Err(DriverError::NullBuffer));
    assert_eq!(usart, idle_usart());
}

#[test]
fn send_to_a_full_transmitter_is_not_ready() {
    let mut usart = Usart::new();
    usart.lsr = 0x40;
    let before = usart.clone();
    assert_eq!(send(&mut usart, Some(b"hello"), 5), Err(DriverError::NotReady));
    assert_eq!(usart, before);
    assert_eq!(send_byte(&mut usart, b'x'), Err(DriverError::NotReady));
    assert_eq!(usart, before);
}

#[test]
fn send_byte_writes_one_byte() {
    let mut usart = idle_usart();
    assert_eq!(send_byte(&mut usart, 0x41), Ok(()));
    assert_eq!(send_byte(&mut usart, 0x42), Ok(()));
    let mut expected = idle_usart();
    expected.thr = vec![0x41, 0x42];
    assert_eq!(usart, expected);
}

fn interrupted(iir: u32, lsr: u32) -> Pcb {
    let mut usart = Usart::new();
    usart.iir = iir;
    usart.lsr = lsr;
    let mut pcb = Pcb::new(9600);
    pcb.status = 0x3;
    pcb.tx_data = 7;
    write_buffer(&mut pcb, 1);
    handle_interrupt(&usart, &mut pcb);
    assert_eq!((pcb.rxfifo.length, pcb.rxfifo.rptr, pcb.rxfifo.wptr), (1, 0, 1));
    assert_eq!(pcb.baud_rate, 9600);
    pcb
}

#[test]
fn line_status_interrupt_with_an_error_records_the_line_status() {
    for lsr in [0x02u32, 0x04, 0x08, 0x10, 0x80, 0x9E, 0xFFFF_FF02] {
        let pcb = interrupted(0b101 << 1, lsr);
        assert_eq!((pcb.status, pcb.tx_data), (lsr, 7));
    }
}

#[test]
fn line_status_interrupt_without_an_error_records_nothing() {
    for lsr in [0x00u32, 0x01, 0x20, 0x40, 0x61] {
        let pcb = interrupted(0b101 << 1, lsr);
        assert_eq!((pcb.status, pcb.tx_data), (0x3, 7));
    }
}

#[test]
fn time_out_interrupt_adds_its_flag_to_the_status() {
    let pcb = interrupted(0b110 << 1, 0x02);
    assert_eq!((pcb.status, pcb.tx_data), (0x103, 7));
    // Bit 0 of the register is not part of the identification.
    let pcb = interrupted((0b110 << 1) | 1, 0x02);
    assert_eq!((pcb.status, pcb.tx_data), (0x103, 7));
}

#[test]
fn transmitter_interrupt_updates_the_transmission_flag() {
    let pcb = interrupted(0b1 << 1, 0x20);
    assert_eq!((pcb.status, pcb.tx_data), (0x3, 0));
    let pcb = interrupted(0b1 << 1, 0xDF);
    assert_eq!((pcb.status, pcb.tx_data), (0x3, 1));
}

#[test]
fn other_interrupts_change_nothing() {
    for id in [0b000u32, 0b010, 0b011, 0b100, 0b111] {
        let pcb = interrupted(id << 1, 0xFF);
        assert_eq!((pcb.status, pcb.tx_data), (0x3, 7));
    }
}

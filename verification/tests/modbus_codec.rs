//! Round trips through the remaining request encoders and response
//! decoders, each against the library's own slave frame processor.

use plc_runtime::clock::clock_now_ns;
use plc_runtime::modbus::actions::ActionHandler;
use plc_runtime::modbus::actions::Acton;
use plc_runtime::modbus::master::response_frame_len;
use plc_runtime::modbus::master::ModbusMaster;
use plc_runtime::modbus::slave::ModbusSlave;
use rmodbus::server::context::ModbusContext;
use rmodbus::ModbusProto;

const MS: u64 = 1_000_000;

struct Fixture {
    bits: Vec<bool>,
    words: Vec<u16>,
    bits_to_send: Vec<bool>,
    words_to_send: Vec<u16>,
}

impl ActionHandler for Fixture {
    fn on_bits(&mut self, _context: &mut ModbusContext, data: &Vec<bool>) {
        self.bits = data.clone();
    }

    fn on_words(&mut self, _context: &mut ModbusContext, data: &Vec<u16>) {
        self.words = data.clone();
    }

    fn get_bit(&mut self, _context: &mut ModbusContext) -> bool {
        true
    }

    fn get_bits(&mut self, _context: &mut ModbusContext) -> Vec<bool> {
        self.bits_to_send.clone()
    }

    fn get_word(&mut self, _context: &mut ModbusContext) -> u16 {
        0
    }

    fn get_words(&mut self, _context: &mut ModbusContext) -> Vec<u16> {
        self.words_to_send.clone()
    }
}

fn fixture() -> Fixture {
    Fixture {
        bits: Vec::new(),
        words: Vec::new(),
        bits_to_send: Vec::new(),
        words_to_send: Vec::new(),
    }
}

fn exchange(request: &[u8], peer_context: &mut ModbusContext) -> Vec<u8> {
    let slave = ModbusSlave::new(1, ModbusProto::TcpUdp);
    let mut buf = [0u8; 256];
    buf[..request.len()].copy_from_slice(request);
    slave.handle_frame(&buf, peer_context).unwrap().expect("a response is due")
}

fn run_action(
    master: &ModbusMaster,
    action: &mut Acton<Fixture>,
    local: &mut ModbusContext,
    peer: &mut ModbusContext,
    now: u64,
) {
    assert!(action.need_run(local, now).unwrap());
    let (request, _) = master.build_request(action, local).unwrap();
    let response = exchange(&request, peer);
    master.apply_response(action, local, &response).unwrap();
}

#[test]
fn read_coils_and_discretes_round_trip() {
    let t0 = clock_now_ns();
    let master = ModbusMaster::new(1, ModbusProto::TcpUdp);
    let mut local = ModbusContext::new();
    let mut peer = ModbusContext::new();
    peer.set_coil(2, true).unwrap();
    peer.set_coil(4, true).unwrap();
    peer.set_discrete(1, true).unwrap();

    let mut coils = Acton::cycle_read_colis(0, 5, 10 * MS, t0, fixture());
    run_action(&master, &mut coils, &mut local, &mut peer, t0 + 10 * MS);
    match &coils {
        Acton::ReadCoils(d) => assert_eq!(d.handler.bits, vec![false, false, true, false, true]),
        _ => panic!("the action kind changed"),
    }

    let mut discretes = Acton::cycle_read_discretes(0, 3, 10 * MS, t0, fixture());
    run_action(&master, &mut discretes, &mut local, &mut peer, t0 + 10 * MS);
    match &discretes {
        Acton::ReadDiscretes(d) => assert_eq!(d.handler.bits, vec![false, true, false]),
        _ => panic!("the action kind changed"),
    }
}

#[test]
fn read_inputs_round_trip() {
    let t0 = clock_now_ns();
    let master = ModbusMaster::new(1, ModbusProto::TcpUdp);
    let mut local = ModbusContext::new();
    let mut peer = ModbusContext::new();
    peer.set_input(10, 111).unwrap();
    peer.set_input(11, 222).unwrap();

    let mut inputs = Acton::cycle_read_inputs(10, 2, 10 * MS, t0, fixture());
    run_action(&master, &mut inputs, &mut local, &mut peer, t0 + 10 * MS);
    match &inputs {
        Acton::ReadInputs(d) => assert_eq!(d.handler.words, vec![111, 222]),
        _ => panic!("the action kind changed"),
    }
}

#[test]
fn bulk_writes_round_trip() {
    let t0 = clock_now_ns();
    let master = ModbusMaster::new(1, ModbusProto::TcpUdp);
    let mut local = ModbusContext::new();
    let mut peer = ModbusContext::new();

    let mut h = fixture();
    h.bits_to_send = vec![true, false, true];
    let mut write_bits = Acton::cycle_write_coils(20, 10 * MS, t0, h);
    run_action(&master, &mut write_bits, &mut local, &mut peer, t0 + 10 * MS);
    assert!(peer.get_coil(20).unwrap());
    assert!(!peer.get_coil(21).unwrap());
    assert!(peer.get_coil(22).unwrap());

    let mut h = fixture();
    h.words_to_send = vec![700, 800];
    let mut write_words = Acton::cycle_write_holdings(30, 10 * MS, t0, h);
    run_action(&master, &mut write_words, &mut local, &mut peer, t0 + 10 * MS);
    assert_eq!(peer.get_holding(30).unwrap(), 700);
    assert_eq!(peer.get_holding(31).unwrap(), 800);

    let mut write_bit = Acton::cycle_write_coil(40, 10 * MS, t0, fixture());
    run_action(&master, &mut write_bit, &mut local, &mut peer, t0 + 10 * MS);
    assert!(peer.get_coil(40).unwrap());
}

/// A bulk-coil payload too long for the codec's frame buffer is turned
/// away with an error before the codec sees it.
#[test]
fn overlong_bulk_coil_payload_is_rejected() {
    let t0 = clock_now_ns();
    let master = ModbusMaster::new(1, ModbusProto::TcpUdp);
    let mut local = ModbusContext::new();

    let mut h = fixture();
    h.bits_to_send = vec![true; 3000];
    let mut action = Acton::cycle_write_coils(0, 10 * MS, t0, h);
    assert!(action.need_run(&local, t0 + 10 * MS).unwrap());
    assert!(master.build_request(&mut action, &mut local).is_err());
}

/// An RTU bulk-write frame whose byte count reaches past the 256-byte
/// frame buffer is rejected before the parser runs; a plausible count
/// with a bad checksum is rejected by the parser itself.
#[test]
fn oversized_rtu_bulk_write_frame_is_rejected() {
    let slave = ModbusSlave::new(1, ModbusProto::Rtu);
    let mut ctx = ModbusContext::new();

    let mut buf = [0u8; 256];
    buf[0] = 1; // unit id
    buf[1] = 16; // FC16, bulk holding write
    buf[6] = 250;
    assert!(slave.handle_frame(&buf, &mut ctx).is_err());
    buf[6] = 248;
    assert!(slave.handle_frame(&buf, &mut ctx).is_err());
    buf[6] = 247; // inside the frame, but the checksum is noise
    assert!(slave.handle_frame(&buf, &mut ctx).is_err());
    assert_eq!(ctx.get_holding(0).unwrap(), 0);

    // A function code with the exception bit set is never a request.
    buf[1] = 0x83;
    assert!(slave.handle_frame(&buf, &mut ctx).is_err());
}

#[test]
fn response_length_guesses_match_the_wire_format() {
    // A Modbus TCP response advertises its tail length in the MBAP
    // header: bytes 4..6 say 5 more after the first 6.
    let tcp_head: [u8; 6] = [0, 1, 0, 0, 0, 5];
    assert_eq!(response_frame_len(&tcp_head, ModbusProto::TcpUdp).unwrap(), 11);

    // An RTU FC3 response with 4 data bytes: 3 + 4 bytes + 2 CRC.
    let rtu_head: [u8; 6] = [1, 3, 4, 0, 0, 0];
    assert_eq!(response_frame_len(&rtu_head, ModbusProto::Rtu).unwrap(), 9);
}

#[test]
fn clock_reads_nanoseconds_since_the_epoch() {
    let a = clock_now_ns();
    let b = clock_now_ns();
    // A real reading, well past the epoch.
    assert!(a > 1_000_000_000_000_000_000);
    assert!(b > 1_000_000_000_000_000_000);
}

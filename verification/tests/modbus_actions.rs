//! Master actions against a local peer: the peer is the library's own
//! slave frame processor, run over a second register context.

use plc_runtime::clock::clock_now_ns;
use plc_runtime::modbus::actions::ActionHandler;
use plc_runtime::modbus::actions::Acton;
use plc_runtime::modbus::actions::TypeAction;
use plc_runtime::modbus::error::IoErrorKind;
use plc_runtime::modbus::error::ModbusErr;
use plc_runtime::modbus::master::ActionPayload;
use plc_runtime::modbus::master::ModbusMaster;
use plc_runtime::modbus::slave::ModbusSlave;
use rmodbus::server::context::ModbusContext;
use rmodbus::ModbusProto;

const MS: u64 = 1_000_000;

/// Records what the wire handed back, and serves fixed write payloads.
struct Recorder {
    bits: Vec<bool>,
    words: Vec<u16>,
    word_to_send: u16,
}

impl ActionHandler for Recorder {
    fn on_bits(&mut self, _context: &mut ModbusContext, data: &Vec<bool>) {
        self.bits = data.clone();
    }

    fn on_words(&mut self, _context: &mut ModbusContext, data: &Vec<u16>) {
        self.words = data.clone();
    }

    fn get_bit(&mut self, _context: &mut ModbusContext) -> bool {
        false
    }

    fn get_bits(&mut self, _context: &mut ModbusContext) -> Vec<bool> {
        Vec::new()
    }

    fn get_word(&mut self, _context: &mut ModbusContext) -> u16 {
        self.word_to_send
    }

    fn get_words(&mut self, _context: &mut ModbusContext) -> Vec<u16> {
        Vec::new()
    }
}

fn recorder() -> Recorder {
    Recorder { bits: Vec::new(), words: Vec::new(), word_to_send: 0 }
}

/// Run one request frame through the slave against `peer_context` and
/// return the response bytes.
fn exchange(request: &[u8], peer_context: &mut ModbusContext) -> Vec<u8> {
    let slave = ModbusSlave::new(1, ModbusProto::TcpUdp);
    let mut buf = [0u8; 256];
    buf[..request.len()].copy_from_slice(request);
    slave.handle_frame(&buf, peer_context).unwrap().expect("a response is due")
}

/// S-scenario: a cycle-triggered holding read deposits the peer's two
/// registers with the handler; a timed-out exchange is absorbed without
/// invoking the handler.
#[test]
fn cycle_read_holdings_action_round_trip() {
    let t0 = clock_now_ns();
    let master = ModbusMaster::new(1, ModbusProto::TcpUdp);
    let mut local = ModbusContext::new();
    let mut peer = ModbusContext::new();
    peer.set_holding(33, 0x0009).unwrap();
    peer.set_holding(34, 0x3017).unwrap();

    let mut action = Acton::cycle_read_holdings(33, 2, 10 * MS, t0, recorder());

    // Not yet due.
    assert!(!action.need_run(&local, t0 + 5 * MS).unwrap());
    // Due after the period.
    assert!(action.need_run(&local, t0 + 10 * MS).unwrap());

    let (request, _) = master.build_request(&mut action, &mut local).unwrap();
    let response = exchange(&request, &mut peer);
    match master.apply_response(&mut action, &mut local, &response).unwrap() {
        ActionPayload::Words(w) => assert_eq!(w, vec![0x0009, 0x3017]),
        _ => panic!("a word payload is due"),
    }

    match &action {
        Acton::ReadHoldings(data) => assert_eq!(data.handler.words, vec![0x0009, 0x3017]),
        _ => panic!("the action kind changed"),
    }

    // A peer timeout is skipped silently: that error class is tolerated
    // and the handler sees nothing.
    assert!(ModbusErr::Io(IoErrorKind::TimedOut).is_timeout_class());
    assert!(ModbusErr::Io(IoErrorKind::WouldBlock).is_timeout_class());
    assert!(!ModbusErr::Io(IoErrorKind::Other).is_timeout_class());
}

/// A write action harvests its payload through the handler and the peer
/// applies it.
#[test]
fn cycle_write_holding_action_updates_peer() {
    let t0 = clock_now_ns();
    let master = ModbusMaster::new(1, ModbusProto::TcpUdp);
    let mut local = ModbusContext::new();
    let mut peer = ModbusContext::new();

    let mut handler = recorder();
    handler.word_to_send = 0x00AB;
    let mut action = Acton::cycle_write_holding(7, 10 * MS, t0, handler);

    assert!(action.need_run(&local, t0 + 10 * MS).unwrap());
    let (request, payload) = master.build_request(&mut action, &mut local).unwrap();
    assert!(matches!(payload, ActionPayload::Word(0x00AB)));
    let response = exchange(&request, &mut peer);
    master.apply_response(&mut action, &mut local, &response).unwrap();

    assert_eq!(peer.get_holding(7).unwrap(), 0x00AB);
}

/// A coil-edge trigger fires once per rising edge of the local coil.
#[test]
fn front_coil_trigger_fires_on_rising_edges_only() {
    let mut local = ModbusContext::new();
    let mut trigger = TypeAction::FrontColi(4, false);

    let pattern = [false, true, true, false, true];
    let expected = [false, true, false, false, true];
    for (k, (bit, exp)) in pattern.iter().zip(expected.iter()).enumerate() {
        local.set_coil(4, *bit).unwrap();
        let fired = trigger.need_run(&local, k as u64).unwrap();
        assert_eq!(fired, *exp);
    }
}

/// A cycle trigger restarts its measurement when it fires.
#[test]
fn cycle_trigger_interval_is_at_least_the_period() {
    let local = ModbusContext::new();
    let mut trigger = TypeAction::Cycle(10 * MS, 0);

    assert!(trigger.need_run(&local, 10 * MS).unwrap());
    assert!(!trigger.need_run(&local, 15 * MS).unwrap());
    assert!(!trigger.need_run(&local, 19 * MS).unwrap());
    assert!(trigger.need_run(&local, 20 * MS).unwrap());
}

/// An edge trigger watching an address outside the tables fails.
#[test]
fn out_of_range_trigger_address_fails() {
    let local = ModbusContext::new();
    let mut trigger = TypeAction::FrontDiscrete(60000, false);
    assert!(trigger.need_run(&local, 0).is_err());
}

/// The slave answers a read request with the registers the request
/// names; a frame for another unit draws no response.
#[test]
fn slave_answers_reads_and_ignores_other_units() {
    let mut peer = ModbusContext::new();
    peer.set_holding(5, 1234).unwrap();

    // Build an FC3 request for unit 1 with the client codec.
    let mut mreq = rmodbus::client::ModbusRequest::new(1, ModbusProto::TcpUdp);
    let mut request: Vec<u8> = Vec::new();
    mreq.generate_get_holdings(5, 1, &mut request).unwrap();

    let slave = ModbusSlave::new(1, ModbusProto::TcpUdp);
    let mut buf = [0u8; 256];
    buf[..request.len()].copy_from_slice(&request);
    let response = slave.handle_frame(&buf, &mut peer).unwrap().expect("a response is due");

    let mut words: Vec<u16> = Vec::new();
    mreq.parse_u16(&response, &mut words).unwrap();
    assert_eq!(words, vec![1234]);

    // The same bytes offered to a slave with another unit id: no reply.
    let other = ModbusSlave::new(9, ModbusProto::TcpUdp);
    assert!(other.handle_frame(&buf, &mut peer).unwrap().is_none());
}

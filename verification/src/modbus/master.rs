//! The Modbus master: request encoding and response decoding through the
//! `rmodbus` client codec, and the verified half of action execution.
//!
//! The embedding program owns the transport.  For one action it asks
//! `build_request` for the frame to send (and, for a write, the payload
//! that was harvested into it), performs the exchange, and hands the
//! reply to `apply_response`, which decodes it, gives it to the action's
//! handler, and returns the decoded payload.

use vstd::prelude::*;

use crate::modbus::actions::ActionHandler;
use crate::modbus::actions::Acton;
use crate::modbus::error::ModbusErr;
use rmodbus::client::ModbusRequest;
use rmodbus::server::context::ModbusContext;
use rmodbus::ErrorKind;
use rmodbus::ModbusProto;

verus! {

/// A plain code for the protocol variant, so that specifications can
/// speak of it: 0 for RTU, 1 for ASCII, 2 for TCP/UDP.
pub open spec fn proto_code(p: ModbusProto) -> int {
    match p {
        ModbusProto::Rtu => 0,
        ModbusProto::Ascii => 1,
        ModbusProto::TcpUdp => 2,
    }
}

/// The FC1 request frame for `count` coils at `offset`, as
/// `rmodbus` encodes it for unit `id` under protocol `proto`.
pub uninterp spec fn read_coils_frame(id: u8, proto: int, offset: u16, count: u16) -> Seq<u8>;

/// The FC2 request frame, as `rmodbus` encodes it.
pub uninterp spec fn read_discretes_frame(id: u8, proto: int, offset: u16, count: u16) -> Seq<u8>;

/// The FC3 request frame, as `rmodbus` encodes it.
pub uninterp spec fn read_holdings_frame(id: u8, proto: int, offset: u16, count: u16) -> Seq<u8>;

/// The FC4 request frame, as `rmodbus` encodes it.
pub uninterp spec fn read_inputs_frame(id: u8, proto: int, offset: u16, count: u16) -> Seq<u8>;

/// The FC5 request frame writing `value` to the coil at `offset`.
pub uninterp spec fn write_coil_frame(id: u8, proto: int, offset: u16, value: bool) -> Seq<u8>;

/// The FC6 request frame writing `value` to the holding at `offset`.
pub uninterp spec fn write_holding_frame(id: u8, proto: int, offset: u16, value: u16) -> Seq<u8>;

/// The FC15 request frame writing `values` to the coils at `offset`.
pub uninterp spec fn write_coils_frame(id: u8, proto: int, offset: u16, values: Seq<bool>) -> Seq<
    u8,
>;

/// The FC16 request frame writing `values` to the holdings at `offset`.
pub uninterp spec fn write_holdings_frame(id: u8, proto: int, offset: u16, values: Seq<u16>) -> Seq<
    u8,
>;

/// Whether `rmodbus` accepts `response` as a valid reply to a request of
/// `count` bits at `offset` with function code `func` (frame checks,
/// unit and function match, no Modbus exception).
pub uninterp spec fn bits_ok(
    id: u8,
    proto: int,
    func: u8,
    offset: u16,
    count: u16,
    response: Seq<u8>,
) -> bool;

/// The bit payload `rmodbus` decodes out of an accepted `response`.
pub uninterp spec fn parsed_bits(
    id: u8,
    proto: int,
    func: u8,
    offset: u16,
    count: u16,
    response: Seq<u8>,
) -> Seq<bool>;

/// Whether `rmodbus` accepts `response` as a valid word-read reply.
pub uninterp spec fn words_ok(
    id: u8,
    proto: int,
    func: u8,
    offset: u16,
    count: u16,
    response: Seq<u8>,
) -> bool;

/// The word payload `rmodbus` decodes out of an accepted `response`.
pub uninterp spec fn parsed_words(
    id: u8,
    proto: int,
    func: u8,
    offset: u16,
    count: u16,
    response: Seq<u8>,
) -> Seq<u16>;

/// Whether `rmodbus` accepts `response` as the acknowledgement of the
/// write request with these parameters.
pub uninterp spec fn ack_ok(
    id: u8,
    proto: int,
    func: u8,
    offset: u16,
    count: u16,
    response: Seq<u8>,
) -> bool;

/// Whether `rmodbus` can estimate a response frame length from this
/// six-byte head (a recognizable function code, and a total length that
/// fits one frame).
pub uninterp spec fn frame_len_ok(head: Seq<u8>, proto: int) -> bool;

/// The total response frame length `rmodbus` estimates from the first
/// six bytes of a response.
pub uninterp spec fn guessed_frame_len(head: Seq<u8>, proto: int) -> int;

/// Relies on rmodbus `ModbusRequest::generate_get_coils`: encodes an FC1
/// read request; for a plain `Vec` buffer the encoder cannot fail.
#[verifier::external_body]
fn encode_read_coils(id: u8, proto: ModbusProto, offset: u16, count: u16) -> (r: Vec<u8>)
    ensures
        r@ == read_coils_frame(id, proto_code(proto), offset, count),
{
    let mut mreq = ModbusRequest::new(id, proto);
    let mut request: Vec<u8> = Vec::new();
    match mreq.generate_get_coils(offset, count, &mut request) {
        Ok(()) => request,
        Err(_) => Vec::new(),
    }
}

/// Relies on rmodbus `ModbusRequest::generate_get_discretes` (FC2).
#[verifier::external_body]
fn encode_read_discretes(id: u8, proto: ModbusProto, offset: u16, count: u16) -> (r: Vec<u8>)
    ensures
        r@ == read_discretes_frame(id, proto_code(proto), offset, count),
{
    let mut mreq = ModbusRequest::new(id, proto);
    let mut request: Vec<u8> = Vec::new();
    match mreq.generate_get_discretes(offset, count, &mut request) {
        Ok(()) => request,
        Err(_) => Vec::new(),
    }
}

/// Relies on rmodbus `ModbusRequest::generate_get_holdings` (FC3).
#[verifier::external_body]
fn encode_read_holdings(id: u8, proto: ModbusProto, offset: u16, count: u16) -> (r: Vec<u8>)
    ensures
        r@ == read_holdings_frame(id, proto_code(proto), offset, count),
{
    let mut mreq = ModbusRequest::new(id, proto);
    let mut request: Vec<u8> = Vec::new();
    match mreq.generate_get_holdings(offset, count, &mut request) {
        Ok(()) => request,
        Err(_) => Vec::new(),
    }
}

/// Relies on rmodbus `ModbusRequest::generate_get_inputs` (FC4).
#[verifier::external_body]
fn encode_read_inputs(id: u8, proto: ModbusProto, offset: u16, count: u16) -> (r: Vec<u8>)
    ensures
        r@ == read_inputs_frame(id, proto_code(proto), offset, count),
{
    let mut mreq = ModbusRequest::new(id, proto);
    let mut request: Vec<u8> = Vec::new();
    match mreq.generate_get_inputs(offset, count, &mut request) {
        Ok(()) => request,
        Err(_) => Vec::new(),
    }
}

/// Relies on rmodbus `ModbusRequest::generate_set_coil` (FC5).
#[verifier::external_body]
fn encode_write_coil(id: u8, proto: ModbusProto, offset: u16, value: bool) -> (r: Vec<u8>)
    ensures
        r@ == write_coil_frame(id, proto_code(proto), offset, value),
{
    let mut mreq = ModbusRequest::new(id, proto);
    let mut request: Vec<u8> = Vec::new();
    match mreq.generate_set_coil(offset, value, &mut request) {
        Ok(()) => request,
        Err(_) => Vec::new(),
    }
}

/// Relies on rmodbus `ModbusRequest::generate_set_holding` (FC6).
#[verifier::external_body]
fn encode_write_holding(id: u8, proto: ModbusProto, offset: u16, value: u16) -> (r: Vec<u8>)
    ensures
        r@ == write_holding_frame(id, proto_code(proto), offset, value),
{
    let mut mreq = ModbusRequest::new(id, proto);
    let mut request: Vec<u8> = Vec::new();
    match mreq.generate_set_holding(offset, value, &mut request) {
        Ok(()) => request,
        Err(_) => Vec::new(),
    }
}

/// Relies on rmodbus `ModbusRequest::generate_set_coils_bulk` (FC15).
/// The codec rejects more than 2040 packed coils with an error, but
/// beyond 2048 it would overrun its fixed 256-byte scratch buffer, so
/// those lengths are excluded here and checked by the caller.
#[verifier::external_body]
fn encode_write_coils(id: u8, proto: ModbusProto, offset: u16, values: &Vec<bool>) -> (r: Result<
    Vec<u8>,
    ErrorKind,
>)
    requires
        values@.len() <= 2048,
    ensures
        r is Ok ==> (r->Ok_0)@ == write_coils_frame(id, proto_code(proto), offset, values@),
{
    let mut mreq = ModbusRequest::new(id, proto);
    let mut request: Vec<u8> = Vec::new();
    mreq.generate_set_coils_bulk(offset, values.as_slice(), &mut request)?;
    Ok(request)
}

/// Relies on rmodbus `ModbusRequest::generate_set_holdings_bulk` (FC16):
/// more than 125 registers are rejected with an error before the
/// codec's scratch buffer is touched.
#[verifier::external_body]
fn encode_write_holdings(id: u8, proto: ModbusProto, offset: u16, values: &Vec<u16>) -> (r: Result<
    Vec<u8>,
    ErrorKind,
>)
    ensures
        r is Ok ==> (r->Ok_0)@ == write_holdings_frame(id, proto_code(proto), offset, values@),
{
    let mut mreq = ModbusRequest::new(id, proto);
    let mut request: Vec<u8> = Vec::new();
    mreq.generate_set_holdings_bulk(offset, values.as_slice(), &mut request)?;
    Ok(request)
}

/// Relies on rmodbus `ModbusRequest::parse_bool`: accepts the response
/// exactly when its frame checks pass against the request parameters,
/// and then decodes the bit payload.  The request object is rebuilt from
/// the same parameters that produced the request frame.
#[verifier::external_body]
fn decode_bits(id: u8, proto: ModbusProto, func: u8, offset: u16, count: u16, response: &Vec<
    u8,
>) -> (r: Result<Vec<bool>, ErrorKind>)
    ensures
        r is Ok <==> bits_ok(id, proto_code(proto), func, offset, count, response@),
        r is Ok ==> (r->Ok_0)@ == parsed_bits(
            id,
            proto_code(proto),
            func,
            offset,
            count,
            response@,
        ),
{
    let mut mreq = ModbusRequest::new(id, proto);
    mreq.reg = offset;
    mreq.count = count;
    mreq.func = func;
    let mut data: Vec<bool> = Vec::new();
    mreq.parse_bool(response.as_slice(), &mut data)?;
    Ok(data)
}

/// Relies on rmodbus `ModbusRequest::parse_u16`: accepts the response
/// exactly when its frame checks pass against the request parameters,
/// and then decodes the word payload.  The request object is rebuilt
/// from the same parameters that produced the request frame.
#[verifier::external_body]
fn decode_words(id: u8, proto: ModbusProto, func: u8, offset: u16, count: u16, response: &Vec<
    u8,
>) -> (r: Result<Vec<u16>, ErrorKind>)
    ensures
        r is Ok <==> words_ok(id, proto_code(proto), func, offset, count, response@),
        r is Ok ==> (r->Ok_0)@ == parsed_words(
            id,
            proto_code(proto),
            func,
            offset,
            count,
            response@,
        ),
{
    let mut mreq = ModbusRequest::new(id, proto);
    mreq.reg = offset;
    mreq.count = count;
    mreq.func = func;
    let mut data: Vec<u16> = Vec::new();
    mreq.parse_u16(response.as_slice(), &mut data)?;
    Ok(data)
}

/// Relies on rmodbus `ModbusRequest::parse_ok`: succeeds exactly when
/// the response acknowledges the request without a Modbus exception.
/// The request object is rebuilt from the same parameters that produced
/// the request frame.
#[verifier::external_body]
fn decode_ack(id: u8, proto: ModbusProto, func: u8, offset: u16, count: u16, response: &Vec<
    u8,
>) -> (r: Result<(), ErrorKind>)
    ensures
        r is Ok <==> ack_ok(id, proto_code(proto), func, offset, count, response@),
{
    let mut mreq = ModbusRequest::new(id, proto);
    mreq.reg = offset;
    mreq.count = count;
    mreq.func = func;
    mreq.parse_ok(response.as_slice())
}

/// Relies on rmodbus `guess_response_frame_len`: estimates the total
/// response length from its first six bytes.  For the TCP variant the
/// estimator adds 6 to the advertised MBAP length in 16 bits, so heads
/// advertising more than 65529 are excluded and must be rejected by the
/// caller.
#[verifier::external_body]
pub fn response_frame_len(head: &[u8; 6], proto: ModbusProto) -> (r: Result<u8, ErrorKind>)
    requires
        proto is TcpUdp ==> (head@[4] as int) * 256 + (head@[5] as int) <= 65529,
    ensures
        r is Ok <==> frame_len_ok(head@, proto_code(proto)),
        r is Ok ==> r->Ok_0 as int == guessed_frame_len(head@, proto_code(proto)),
{
    rmodbus::guess_response_frame_len(head, proto)
}

/// The payload that moved through one action: what a write harvested
/// from its handler, or what a read decoded off the wire and handed to
/// its handler.
pub enum ActionPayload {
    Nothing,
    Bit(bool),
    Word(u16),
    Bits(Vec<bool>),
    Words(Vec<u16>),
}

/// A Modbus master bound to one remote unit over one protocol variant.
pub struct ModbusMaster {
    pub id: u8,
    pub proto: ModbusProto,
}

impl ModbusMaster {
    pub fn new(id: u8, proto: ModbusProto) -> (r: Self)
        ensures
            r.id == id,
            r.proto == proto,
    {
        Self { id, proto }
    }

    /// The request frame for one action, together with the payload it
    /// carries.  A read action's frame asks for exactly the action's
    /// register window; a write action's frame carries exactly the
    /// payload harvested from the handler, which is returned beside it.
    /// Only a bulk write whose payload is too long for the codec fails.
    pub fn build_request<H: ActionHandler>(
        &self,
        action: &mut Acton<H>,
        context: &mut ModbusContext,
    ) -> (r: Result<(Vec<u8>, ActionPayload), ModbusErr>)
        ensures
            crate::modbus::actions::acton_kind(*final(action)) == crate::modbus::actions::acton_kind(*old(action)),
            crate::modbus::actions::acton_data(*final(action)).offset == crate::modbus::actions::acton_data(*old(action)).offset,
            crate::modbus::actions::acton_data(*final(action)).count == crate::modbus::actions::acton_data(*old(action)).count,
            crate::modbus::actions::acton_data(*final(action)).type_action == crate::modbus::actions::acton_data(*old(action)).type_action,
            *old(action) matches Acton::ReadCoils(d) ==> r is Ok && (r->Ok_0).0@
                == read_coils_frame(self.id, proto_code(self.proto), d.offset, d.count) && (r->Ok_0).1
                is Nothing && *final(action) == *old(action),
            *old(action) matches Acton::ReadDiscretes(d) ==> r is Ok && (r->Ok_0).0@
                == read_discretes_frame(self.id, proto_code(self.proto), d.offset, d.count) && (
            r->Ok_0).1 is Nothing && *final(action) == *old(action),
            *old(action) matches Acton::ReadHoldings(d) ==> r is Ok && (r->Ok_0).0@
                == read_holdings_frame(self.id, proto_code(self.proto), d.offset, d.count) && (
            r->Ok_0).1 is Nothing && *final(action) == *old(action),
            *old(action) matches Acton::ReadInputs(d) ==> r is Ok && (r->Ok_0).0@
                == read_inputs_frame(self.id, proto_code(self.proto), d.offset, d.count) && (
            r->Ok_0).1 is Nothing && *final(action) == *old(action),
            *old(action) matches Acton::WriteCoil(d) ==> r is Ok && ((r->Ok_0).1 matches
                ActionPayload::Bit(v) && (r->Ok_0).0@ == write_coil_frame(
                self.id,
                proto_code(self.proto),
                d.offset,
                v,
            )),
            *old(action) matches Acton::WriteHolding(d) ==> r is Ok && ((r->Ok_0).1 matches
                ActionPayload::Word(v) && (r->Ok_0).0@ == write_holding_frame(
                self.id,
                proto_code(self.proto),
                d.offset,
                v,
            )),
            *old(action) matches Acton::WriteCoils(d) ==> (r is Ok ==> ((r->Ok_0).1 matches
                ActionPayload::Bits(v) && v@.len() <= 2048 && (r->Ok_0).0@ == write_coils_frame(
                self.id,
                proto_code(self.proto),
                d.offset,
                v@,
            ))),
            *old(action) matches Acton::WriteHoldings(d) ==> (r is Ok ==> ((r->Ok_0).1 matches
                ActionPayload::Words(v) && (r->Ok_0).0@ == write_holdings_frame(
                self.id,
                proto_code(self.proto),
                d.offset,
                v@,
            ))),
            r is Err ==> r->Err_0 is Rmodbus,
    {
        match action {
            Acton::ReadCoils(data) => Ok(
                (
                    encode_read_coils(self.id, self.proto, data.offset, data.count),
                    ActionPayload::Nothing,
                ),
            ),
            Acton::ReadDiscretes(data) => Ok(
                (
                    encode_read_discretes(self.id, self.proto, data.offset, data.count),
                    ActionPayload::Nothing,
                ),
            ),
            Acton::ReadHoldings(data) => Ok(
                (
                    encode_read_holdings(self.id, self.proto, data.offset, data.count),
                    ActionPayload::Nothing,
                ),
            ),
            Acton::ReadInputs(data) => Ok(
                (
                    encode_read_inputs(self.id, self.proto, data.offset, data.count),
                    ActionPayload::Nothing,
                ),
            ),
            Acton::WriteCoil(data) => {
                let value = data.handler.get_bit(context);
                let frame = encode_write_coil(self.id, self.proto, data.offset, value);
                Ok((frame, ActionPayload::Bit(value)))
            },
            Acton::WriteHolding(data) => {
                let value = data.handler.get_word(context);
                let frame = encode_write_holding(self.id, self.proto, data.offset, value);
                Ok((frame, ActionPayload::Word(value)))
            },
            Acton::WriteCoils(data) => {
                let values = data.handler.get_bits(context);
                if values.len() > 2048 {
                    return Err(ModbusErr::Rmodbus(ErrorKind::OOB));
                }
                match encode_write_coils(self.id, self.proto, data.offset, &values) {
                    Ok(frame) => Ok((frame, ActionPayload::Bits(values))),
                    Err(e) => Err(ModbusErr::Rmodbus(e)),
                }
            },
            Acton::WriteHoldings(data) => {
                let values = data.handler.get_words(context);
                match encode_write_holdings(self.id, self.proto, data.offset, &values) {
                    Ok(frame) => Ok((frame, ActionPayload::Words(values))),
                    Err(e) => Err(ModbusErr::Rmodbus(e)),
                }
            },
        }
    }

    /// Complete one action with the response frame the peer sent.  A
    /// read action succeeds exactly when the codec accepts the response
    /// for the action's function code and register window; the decoded
    /// payload is handed to the action's handler to deposit and is also
    /// returned.  A write action succeeds exactly when the codec
    /// accepts the response as the acknowledgement of the write.  A
    /// rejected response surfaces as a codec error and the handler is
    /// not invoked.
    pub fn apply_response<H: ActionHandler>(
        &self,
        action: &mut Acton<H>,
        context: &mut ModbusContext,
        response: &Vec<u8>,
    ) -> (r: Result<ActionPayload, ModbusErr>)
        ensures
            crate::modbus::actions::acton_kind(*final(action)) == crate::modbus::actions::acton_kind(*old(action)),
            crate::modbus::actions::acton_data(*final(action)).offset == crate::modbus::actions::acton_data(*old(action)).offset,
            crate::modbus::actions::acton_data(*final(action)).count == crate::modbus::actions::acton_data(*old(action)).count,
            crate::modbus::actions::acton_data(*final(action)).type_action == crate::modbus::actions::acton_data(*old(action)).type_action,
            r is Err ==> r->Err_0 is Rmodbus,
            *old(action) matches Acton::ReadCoils(d) ==> (r is Ok <==> bits_ok(
                self.id,
                proto_code(self.proto),
                1,
                d.offset,
                d.count,
                response@,
            )) && (r is Ok ==> (r->Ok_0 matches ActionPayload::Bits(v) && v@ == parsed_bits(
                self.id,
                proto_code(self.proto),
                1,
                d.offset,
                d.count,
                response@,
            ))),
            *old(action) matches Acton::ReadDiscretes(d) ==> (r is Ok <==> bits_ok(
                self.id,
                proto_code(self.proto),
                2,
                d.offset,
                d.count,
                response@,
            )) && (r is Ok ==> (r->Ok_0 matches ActionPayload::Bits(v) && v@ == parsed_bits(
                self.id,
                proto_code(self.proto),
                2,
                d.offset,
                d.count,
                response@,
            ))),
            *old(action) matches Acton::ReadHoldings(d) ==> (r is Ok <==> words_ok(
                self.id,
                proto_code(self.proto),
                3,
                d.offset,
                d.count,
                response@,
            )) && (r is Ok ==> (r->Ok_0 matches ActionPayload::Words(v) && v@ == parsed_words(
                self.id,
                proto_code(self.proto),
                3,
                d.offset,
                d.count,
                response@,
            ))),
            *old(action) matches Acton::ReadInputs(d) ==> (r is Ok <==> words_ok(
                self.id,
                proto_code(self.proto),
                4,
                d.offset,
                d.count,
                response@,
            )) && (r is Ok ==> (r->Ok_0 matches ActionPayload::Words(v) && v@ == parsed_words(
                self.id,
                proto_code(self.proto),
                4,
                d.offset,
                d.count,
                response@,
            ))),
            *old(action) matches Acton::WriteCoil(d) ==> (r is Ok <==> ack_ok(
                self.id,
                proto_code(self.proto),
                5,
                d.offset,
                1,
                response@,
            )) && (r is Ok ==> r->Ok_0 is Nothing),
            *old(action) matches Acton::WriteHolding(d) ==> (r is Ok <==> ack_ok(
                self.id,
                proto_code(self.proto),
                6,
                d.offset,
                1,
                response@,
            )) && (r is Ok ==> r->Ok_0 is Nothing),
            *old(action) matches Acton::WriteCoils(d) ==> (r is Ok <==> ack_ok(
                self.id,
                proto_code(self.proto),
                15,
                d.offset,
                d.count,
                response@,
            )) && (r is Ok ==> r->Ok_0 is Nothing),
            *old(action) matches Acton::WriteHoldings(d) ==> (r is Ok <==> ack_ok(
                self.id,
                proto_code(self.proto),
                16,
                d.offset,
                d.count,
                response@,
            )) && (r is Ok ==> r->Ok_0 is Nothing),
    {
        match action {
            Acton::ReadCoils(data) => {
                match decode_bits(self.id, self.proto, 1, data.offset, data.count, response) {
                    Ok(bits) => {
                        data.handler.on_bits(context, &bits);
                        Ok(ActionPayload::Bits(bits))
                    },
                    Err(e) => Err(ModbusErr::Rmodbus(e)),
                }
            },
            Acton::ReadDiscretes(data) => {
                match decode_bits(self.id, self.proto, 2, data.offset, data.count, response) {
                    Ok(bits) => {
                        data.handler.on_bits(context, &bits);
                        Ok(ActionPayload::Bits(bits))
                    },
                    Err(e) => Err(ModbusErr::Rmodbus(e)),
                }
            },
            Acton::ReadHoldings(data) => {
                match decode_words(self.id, self.proto, 3, data.offset, data.count, response) {
                    Ok(words) => {
                        data.handler.on_words(context, &words);
                        Ok(ActionPayload::Words(words))
                    },
                    Err(e) => Err(ModbusErr::Rmodbus(e)),
                }
            },
            Acton::ReadInputs(data) => {
                match decode_words(self.id, self.proto, 4, data.offset, data.count, response) {
                    Ok(words) => {
                        data.handler.on_words(context, &words);
                        Ok(ActionPayload::Words(words))
                    },
                    Err(e) => Err(ModbusErr::Rmodbus(e)),
                }
            },
            Acton::WriteCoil(data) => {
                match decode_ack(self.id, self.proto, 5, data.offset, 1, response) {
                    Ok(()) => Ok(ActionPayload::Nothing),
                    Err(e) => Err(ModbusErr::Rmodbus(e)),
                }
            },
            Acton::WriteHolding(data) => {
                match decode_ack(self.id, self.proto, 6, data.offset, 1, response) {
                    Ok(()) => Ok(ActionPayload::Nothing),
                    Err(e) => Err(ModbusErr::Rmodbus(e)),
                }
            },
            Acton::WriteCoils(data) => {
                match decode_ack(self.id, self.proto, 15, data.offset, data.count, response) {
                    Ok(()) => Ok(ActionPayload::Nothing),
                    Err(e) => Err(ModbusErr::Rmodbus(e)),
                }
            },
            Acton::WriteHoldings(data) => {
                match decode_ack(self.id, self.proto, 16, data.offset, data.count, response) {
                    Ok(()) => Ok(ActionPayload::Nothing),
                    Err(e) => Err(ModbusErr::Rmodbus(e)),
                }
            },
        }
    }
}

} // verus!

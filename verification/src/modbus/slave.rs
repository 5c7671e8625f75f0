//! The Modbus slave: one request frame processed against the register
//! context through the `rmodbus` server codec.
//!
//! The embedding program owns the transport: it reads a frame buffer,
//! hands it to `handle_frame`, and sends back the response bytes if any
//! are returned.  `rmodbus`'s frame processor borrows the buffer and the
//! response vector, so each trusted call below rebuilds it from the same
//! buffer — `parse` is a deterministic function of the buffer, unit id
//! and protocol, so the rebuilt processor is in the state the previous
//! call left behind.

use vstd::prelude::*;

use crate::modbus::error::ModbusErr;
use crate::modbus::master::proto_code;
use rmodbus::server::context::ModbusContext;
use rmodbus::server::ModbusFrame;
use rmodbus::ErrorKind;
use rmodbus::ModbusProto;

verus! {

/// The buffers `rmodbus`'s frame processor handles without touching
/// memory past its 256-byte frame or overflowing a length byte.  Two
/// exclusions, both read off the codec source: a function code with the
/// exception bit set (128 and above, never a request) would overflow
/// the `func + 0x80` of an error reply; and for an RTU or ASCII bulk
/// write (function code 15 or 16) the parser checks a frame of
/// `7 + byte count` bytes, so a byte count over 247 would reach past
/// the buffer or overflow the length byte.
pub open spec fn frame_parse_safe(proto: ModbusProto, buf: Seq<u8>) -> bool {
    if proto is TcpUdp {
        buf[7] < 128
    } else {
        buf[1] < 128 && ((buf[1] == 15 || buf[1] == 16) ==> buf[6] <= 247)
    }
}

/// Whether `rmodbus` parses the frame in `buf` without a frame or CRC
/// error, for a slave with this unit id under this protocol.
pub uninterp spec fn slave_parse_ok(id: u8, proto: int, buf: Seq<u8>) -> bool;

/// The flags `rmodbus`'s parser reports for the frame in `buf`:
/// `(processing_required, readonly, response_required)`.
pub uninterp spec fn slave_parse_flags(id: u8, proto: int, buf: Seq<u8>) -> (bool, bool, bool);

/// The finished reply `rmodbus` produces for the frame in `buf` when it
/// is served read-only against the given register tables.
pub uninterp spec fn slave_read_reply(
    id: u8,
    proto: int,
    buf: Seq<u8>,
    coils: Seq<bool>,
    discretes: Seq<bool>,
    inputs: Seq<u16>,
    holdings: Seq<u16>,
) -> Seq<u8>;

/// What serving the write frame in `buf` against the given register
/// tables produces: the finished reply and the four tables afterwards.
pub uninterp spec fn slave_write_result(
    id: u8,
    proto: int,
    buf: Seq<u8>,
    coils: Seq<bool>,
    discretes: Seq<bool>,
    inputs: Seq<u16>,
    holdings: Seq<u16>,
) -> (Seq<u8>, Seq<bool>, Seq<bool>, Seq<u16>, Seq<u16>);

/// Relies on rmodbus `ModbusFrame::new` and `parse`: reads the request
/// head and reports `(processing_required, readonly,
/// response_required)` for the received frame.
#[verifier::external_body]
fn slave_parse(id: u8, proto: ModbusProto, buf: &[u8; 256]) -> (r: Result<
    (bool, bool, bool),
    ErrorKind,
>)
    requires
        frame_parse_safe(proto, buf@),
    ensures
        r is Ok <==> slave_parse_ok(id, proto_code(proto), buf@),
        r is Ok ==> r->Ok_0 == slave_parse_flags(id, proto_code(proto), buf@),
{
    let mut response: Vec<u8> = Vec::new();
    let mut frame = ModbusFrame::new(id, buf, proto, &mut response);
    frame.parse()?;
    Ok((frame.processing_required, frame.readonly, frame.response_required))
}

/// Relies on rmodbus `ModbusFrame::process_read` and
/// `finalize_response`: answers the read request in `buf` from the
/// register context and returns the finished response frame.  For a
/// frame the parser accepts, neither call can fail on a `Vec` buffer
/// (the parse-time count bounds keep every reply within one frame), so
/// success is exactly the parser's acceptance.
#[verifier::external_body]
fn slave_answer_read(id: u8, proto: ModbusProto, buf: &[u8; 256], context: &ModbusContext) -> (r:
    Result<Vec<u8>, ErrorKind>)
    requires
        frame_parse_safe(proto, buf@),
    ensures
        r is Ok <==> slave_parse_ok(id, proto_code(proto), buf@),
        r is Ok ==> (r->Ok_0)@ == slave_read_reply(
            id,
            proto_code(proto),
            buf@,
            context.coils@,
            context.discretes@,
            context.inputs@,
            context.holdings@,
        ),
{
    let mut response: Vec<u8> = Vec::new();
    let mut frame = ModbusFrame::new(id, buf, proto, &mut response);
    frame.parse()?;
    if frame.processing_required {
        frame.process_read(context)?;
    }
    frame.finalize_response()?;
    Ok(response)
}

/// Relies on rmodbus `ModbusFrame::process_write` and
/// `finalize_response`: applies the write request in `buf` to the
/// register context and returns the finished response frame.  For a
/// frame the parser accepts, neither call can fail on a `Vec` buffer
/// (the parse-time byte-count bound keeps the write slice and the reply
/// within one frame), so success is exactly the parser's acceptance.
#[verifier::external_body]
fn slave_apply_write(
    id: u8,
    proto: ModbusProto,
    buf: &[u8; 256],
    context: &mut ModbusContext,
) -> (r: Result<Vec<u8>, ErrorKind>)
    requires
        frame_parse_safe(proto, buf@),
    ensures
        r is Ok <==> slave_parse_ok(id, proto_code(proto), buf@),
        r is Ok ==> ({
            let w = slave_write_result(
                id,
                proto_code(proto),
                buf@,
                old(context).coils@,
                old(context).discretes@,
                old(context).inputs@,
                old(context).holdings@,
            );
            &&& (r->Ok_0)@ == w.0
            &&& final(context).coils@ == w.1
            &&& final(context).discretes@ == w.2
            &&& final(context).inputs@ == w.3
            &&& final(context).holdings@ == w.4
        }),
{
    let mut response: Vec<u8> = Vec::new();
    let mut frame = ModbusFrame::new(id, buf, proto, &mut response);
    frame.parse()?;
    if frame.processing_required {
        frame.process_write(context)?;
    }
    frame.finalize_response()?;
    Ok(response)
}

/// A Modbus slave answering for one unit id over one protocol variant.
pub struct ModbusSlave {
    pub id: u8,
    pub proto: ModbusProto,
}

impl ModbusSlave {
    pub fn new(id: u8, proto: ModbusProto) -> (r: Self)
        ensures
            r.id == id,
            r.proto == proto,
    {
        Self { id, proto }
    }

    /// Process one received frame buffer.
    ///
    /// A frame the parser could not handle safely, or does not accept,
    /// is rejected with a codec error and the context is untouched.
    /// Otherwise the parser's flags decide: a read request (or a frame
    /// that only needs a reply, such as an unsupported function) is
    /// answered from the context without changing it; a write request is
    /// applied to the context.  The reply bytes are returned exactly
    /// when the frame requires a response (`None` for a broadcast or a
    /// frame meant for another unit).
    pub fn handle_frame(&self, buf: &[u8; 256], context: &mut ModbusContext) -> (r: Result<
        Option<Vec<u8>>,
        ModbusErr,
    >)
        ensures
            r is Err ==> r->Err_0 is Rmodbus,
            !frame_parse_safe(self.proto, buf@) ==> r == Err::<Option<Vec<u8>>, ModbusErr>(
                ModbusErr::Rmodbus(ErrorKind::FrameBroken),
            ) && *final(context) == *old(context),
            frame_parse_safe(self.proto, buf@) && !slave_parse_ok(
                self.id,
                proto_code(self.proto),
                buf@,
            ) ==> r is Err && *final(context) == *old(context),
            frame_parse_safe(self.proto, buf@) ==> (r is Ok <==> slave_parse_ok(
                self.id,
                proto_code(self.proto),
                buf@,
            )),
            frame_parse_safe(self.proto, buf@) ==> ({
                let flags = slave_parse_flags(self.id, proto_code(self.proto), buf@);
                &&& (r is Ok ==> (r->Ok_0 is Some <==> flags.2))
                &&& (!flags.0 || flags.1) ==> *final(context) == *old(context)
                &&& ((!flags.0 || flags.1) && r is Ok && flags.2 ==> (r->Ok_0 matches Some(v)
                    && v@ == slave_read_reply(
                    self.id,
                    proto_code(self.proto),
                    buf@,
                    old(context).coils@,
                    old(context).discretes@,
                    old(context).inputs@,
                    old(context).holdings@,
                )))
                &&& (flags.0 && !flags.1 && r is Ok ==> ({
                    let w = slave_write_result(
                        self.id,
                        proto_code(self.proto),
                        buf@,
                        old(context).coils@,
                        old(context).discretes@,
                        old(context).inputs@,
                        old(context).holdings@,
                    );
                    &&& final(context).coils@ == w.1
                    &&& final(context).discretes@ == w.2
                    &&& final(context).inputs@ == w.3
                    &&& final(context).holdings@ == w.4
                    &&& (flags.2 ==> (r->Ok_0 matches Some(v) && v@ == w.0))
                }))
            }),
    {
        let is_tcp = match self.proto {
            ModbusProto::TcpUdp => true,
            _ => false,
        };
        let func = if is_tcp {
            buf[7]
        } else {
            buf[1]
        };
        if func >= 128 {
            return Err(ModbusErr::Rmodbus(ErrorKind::FrameBroken));
        }
        if !is_tcp && (buf[1] == 15 || buf[1] == 16) && buf[6] > 247 {
            return Err(ModbusErr::Rmodbus(ErrorKind::FrameBroken));
        }

        let flags = match slave_parse(self.id, self.proto, buf) {
            Ok(f) => f,
            Err(e) => {
                return Err(ModbusErr::Rmodbus(e));
            },
        };
        let (processing_required, readonly, response_required) = flags;

        if processing_required && !readonly {
            let answer = match slave_apply_write(self.id, self.proto, buf, context) {
                Ok(a) => a,
                Err(e) => {
                    return Err(ModbusErr::Rmodbus(e));
                },
            };
            if response_required {
                return Ok(Some(answer));
            }
            return Ok(None);
        }

        if response_required {
            let answer = match slave_answer_read(self.id, self.proto, buf, context) {
                Ok(a) => a,
                Err(e) => {
                    return Err(ModbusErr::Rmodbus(e));
                },
            };
            return Ok(Some(answer));
        }

        Ok(None)
    }
}

} // verus!

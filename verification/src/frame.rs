//! Modbus RTU framing: the CRC16 checksum, the "read registers" request
//! frame, the parser for its response, and the decoding of register values.

use vstd::prelude::*;

verus! {

/// Slave id of the inverter on the RS-485 bus.
pub const SLAVE_ID: u8 = 247;

/// Function code used to read registers.
pub const FUNCTION_READ_HOLDING: u8 = 0x04;

/// Errors found while decoding a Modbus response or its registers.
#[derive(Debug, Clone, Copy, PartialEq, Eq, Structural)]
pub enum ModbusError {
    /// The frame holds fewer than five bytes.
    FrameTooShort,
    /// The trailing checksum does not match the checksum of the payload.
    CrcMismatch { received: u16, calculated: u16 },
    /// The frame comes from another slave.
    UnexpectedSlave { slave: u8, expected: u8 },
    /// The slave answered with an exception.
    Exception { function: u8, code: u8 },
    /// The function code is not the one that was sent.
    UnexpectedFunction { function: u8 },
    /// The byte count does not match the number of registers asked for.
    UnexpectedByteCount { count: u8, expected_bytes: usize },
    /// The frame length does not match its byte count.
    UnexpectedFrameLength { length: usize },
    /// Fewer registers than the value type needs.
    NotEnoughRegisters { needed: u16 },
}

// ---------------------------------------------------------------------------
// CRC16 (Modbus variant: reflected polynomial 0xA001, initial value 0xFFFF)
// ---------------------------------------------------------------------------

/// One shift of the CRC register.
pub open spec fn crc_shift(crc: u16) -> u16 {
    if crc & 1 != 0 {
        (crc >> 1) ^ 0xA001
    } else {
        crc >> 1
    }
}

/// `n` shifts of the CRC register.
pub open spec fn crc_shifts(crc: u16, n: nat) -> u16
    decreases n,
{
    if n == 0 {
        crc
    } else {
        crc_shift(crc_shifts(crc, (n - 1) as nat))
    }
}

/// The CRC register after absorbing one byte.
pub open spec fn crc_absorb(crc: u16, byte: u8) -> u16 {
    crc_shifts(crc ^ (byte as u16), 8)
}

/// The Modbus CRC16 of a byte sequence.
pub open spec fn crc16(data: Seq<u8>) -> u16
    decreases data.len(),
{
    if data.len() == 0 {
        0xFFFF
    } else {
        crc_absorb(crc16(data.drop_last()), data.last())
    }
}

/// Calculates the Modbus RTU CRC16 checksum of `data`.
pub fn modbus_crc16(data: &[u8]) -> (crc: u16)
    ensures
        crc == crc16(data@),
{
    let mut crc: u16 = 0xFFFF;
    let mut i: usize = 0;
    while i < data.len()
        invariant
            i <= data@.len(),
            crc == crc16(data@.take(i as int)),
        decreases data@.len() - i,
    {
        let start: u16 = crc ^ (data[i] as u16);
        crc = start;
        let mut k: u32 = 0;
        while k < 8
            invariant
                k <= 8,
                crc == crc_shifts(start, k as nat),
            decreases 8 - k,
        {
            let lsb: u16 = crc & 1;
            let shifted: u16 = crc >> 1;
            if lsb != 0 {
                crc = shifted ^ 0xA001;
            } else {
                crc = shifted;
            }
            k = k + 1;
        }
        assert(data@.take(i + 1).drop_last() =~= data@.take(i as int));
        i = i + 1;
    }
    assert(data@.take(data@.len() as int) =~= data@);
    crc
}

// ---------------------------------------------------------------------------
// Byte helpers
// ---------------------------------------------------------------------------

/// High byte of a 16-bit word.
pub open spec fn hi_byte(v: u16) -> u8 {
    (v / 256) as u8
}

/// Low byte of a 16-bit word.
pub open spec fn lo_byte(v: u16) -> u8 {
    (v % 256) as u8
}

/// The 16-bit word made of a high and a low byte.
pub open spec fn word(hi: u8, lo: u8) -> u16 {
    (hi as int * 256 + lo as int) as u16
}

pub(crate) fn high_byte(v: u16) -> (b: u8)
    ensures
        b == hi_byte(v),
{
    assert((v >> 8) as u8 == (v / 256) as u8) by (bit_vector);
    (v >> 8) as u8
}

pub(crate) fn low_byte(v: u16) -> (b: u8)
    ensures
        b == lo_byte(v),
{
    assert((v & 0xFF) as u8 == (v % 256) as u8) by (bit_vector);
    (v & 0xFF) as u8
}

pub(crate) fn make_word(hi: u8, lo: u8) -> (w: u16)
    ensures
        w == word(hi, lo),
        w as int == hi as int * 256 + lo as int,
{
    assert((((hi as u16) << 8) | (lo as u16)) == (hi as int * 256 + lo as int) as u16)
        by (bit_vector);
    assert(hi as int * 256 + lo as int <= 0xFFFF) by (nonlinear_arith)
        requires
            hi <= 255,
            lo <= 255,
    ;
    ((hi as u16) << 8) | (lo as u16)
}

// ---------------------------------------------------------------------------
// Request frame
// ---------------------------------------------------------------------------

/// The six payload bytes of a "read registers" request.
pub open spec fn request_payload(slave: u8, start: u16, count: u16) -> Seq<u8> {
    seq![
        slave,
        FUNCTION_READ_HOLDING,
        hi_byte(start),
        lo_byte(start),
        hi_byte(count),
        lo_byte(count),
    ]
}

/// A payload followed by its CRC, low byte first.
pub open spec fn with_crc(payload: Seq<u8>) -> Seq<u8> {
    payload + seq![lo_byte(crc16(payload)), hi_byte(crc16(payload))]
}

/// The complete "read registers" request frame.
pub open spec fn read_request_frame(slave: u8, start: u16, count: u16) -> Seq<u8> {
    with_crc(request_payload(slave, start, count))
}

/// Builds a Modbus RTU "read registers" request frame.
pub fn build_read_holding_request(slave: u8, start: u16, count: u16) -> (frame: Vec<u8>)
    ensures
        frame@ == read_request_frame(slave, start, count),
{
    let mut frame: Vec<u8> = vec![
        slave,
        FUNCTION_READ_HOLDING,
        high_byte(start),
        low_byte(start),
        high_byte(count),
        low_byte(count),
    ];
    assert(frame@ =~= request_payload(slave, start, count));
    let crc = modbus_crc16(frame.as_slice());
    frame.push(low_byte(crc));
    frame.push(high_byte(crc));
    assert(frame@ =~= read_request_frame(slave, start, count));
    frame
}

// ---------------------------------------------------------------------------
// Response frame
// ---------------------------------------------------------------------------

/// The registers carried by `count` data bytes starting at offset 3.
pub open spec fn frame_registers(frame: Seq<u8>, count: nat) -> Seq<u16> {
    Seq::new(count / 2, |i: int| word(frame[3 + 2 * i], frame[4 + 2 * i]))
}

/// What parsing a "read registers" response yields.
pub open spec fn parse_response(frame: Seq<u8>, expected_slave: u8, expected_regs: u16) -> Result<
    Seq<u16>,
    ModbusError,
> {
    let n = frame.len();
    if n < 5 {
        Err(ModbusError::FrameTooShort)
    } else {
        let received = word(frame[n - 1], frame[n - 2]);
        let calculated = crc16(frame.take(n - 2));
        if received != calculated {
            Err(ModbusError::CrcMismatch { received, calculated })
        } else if frame[0] != expected_slave {
            Err(ModbusError::UnexpectedSlave { slave: frame[0], expected: expected_slave })
        } else if frame[1] >= 0x80 {
            Err(ModbusError::Exception { function: frame[1], code: frame[2] })
        } else if frame[1] != FUNCTION_READ_HOLDING {
            Err(ModbusError::UnexpectedFunction { function: frame[1] })
        } else if frame[2] as int != 2 * expected_regs {
            Err(
                ModbusError::UnexpectedByteCount {
                    count: frame[2],
                    expected_bytes: (2 * expected_regs) as usize,
                },
            )
        } else if n != 3 + frame[2] + 2 {
            Err(ModbusError::UnexpectedFrameLength { length: n as usize })
        } else {
            Ok(frame_registers(frame, frame[2] as nat))
        }
    }
}

/// Parses a Modbus RTU "read registers" response frame.
pub fn parse_read_holding_response(frame: &[u8], expected_slave: u8, expected_regs: u16) -> (res:
    Result<Vec<u16>, ModbusError>)
    ensures
        match res {
            Ok(regs) => parse_response(frame@, expected_slave, expected_regs) == Ok::<
                Seq<u16>,
                ModbusError,
            >(regs@),
            Err(e) => parse_response(frame@, expected_slave, expected_regs) == Err::<
                Seq<u16>,
                ModbusError,
            >(e),
        },
{
    let n = frame.len();
    if n < 5 {
        return Err(ModbusError::FrameTooShort);
    }
    let payload_len = n - 2;
    let received = make_word(frame[payload_len + 1], frame[payload_len]);
    let calculated = modbus_crc16(slice_prefix(frame, payload_len));
    if received != calculated {
        return Err(ModbusError::CrcMismatch { received, calculated });
    }
    let slave = frame[0];
    let function = frame[1];
    if slave != expected_slave {
        return Err(ModbusError::UnexpectedSlave { slave, expected: expected_slave });
    }
    assert((function & 0x80 != 0) == (function >= 0x80)) by (bit_vector);
    if function & 0x80 != 0 {
        return Err(ModbusError::Exception { function, code: frame[2] });
    }
    if function != FUNCTION_READ_HOLDING {
        return Err(ModbusError::UnexpectedFunction { function });
    }
    let byte_count = frame[2];
    let expected_bytes: usize = expected_regs as usize * 2;
    if byte_count as usize != expected_bytes {
        return Err(ModbusError::UnexpectedByteCount { count: byte_count, expected_bytes });
    }
    if n != 3 + byte_count as usize + 2 {
        return Err(ModbusError::UnexpectedFrameLength { length: n });
    }
    let half: usize = byte_count as usize / 2;
    let mut regs: Vec<u16> = Vec::with_capacity(expected_regs as usize);
    let mut i: usize = 0;
    while i < half
        invariant
            n == frame@.len(),
            n == 3 + byte_count as usize + 2,
            half == byte_count as nat / 2,
            i <= half,
            regs@ =~= frame_registers(frame@, byte_count as nat).take(i as int),
        decreases half - i,
    {
        let w = make_word(frame[3 + 2 * i], frame[4 + 2 * i]);
        regs.push(w);
        i = i + 1;
    }
    assert(frame_registers(frame@, byte_count as nat).take(half as int) =~= frame_registers(
        frame@,
        byte_count as nat,
    ));
    Ok(regs)
}

/// The first `len` elements of a slice.
fn slice_prefix(s: &[u8], len: usize) -> (r: &[u8])
    requires
        len <= s@.len(),
    ensures
        r@ == s@.take(len as int),
{
    vstd::slice::slice_subrange(s, 0, len)
}

// ---------------------------------------------------------------------------
// Register values
// ---------------------------------------------------------------------------

/// A 32-bit word from two registers, high word first.
pub open spec fn double_word(hi: u16, lo: u16) -> u32 {
    (hi as int * 65536 + lo as int) as u32
}

/// The signed reading of a 32-bit word (two's complement).
pub open spec fn signed32(v: u32) -> i32 {
    if v >= 0x8000_0000 {
        (v as int - 0x1_0000_0000) as i32
    } else {
        v as i32
    }
}

/// Types that can be read from Modbus registers.
pub trait ModbusRead: Sized {
    /// The number of registers that hold one value.
    fn reg_count() -> (n: u16)
        ensures
            n == Self::spec_reg_count(),
    ;

    /// The number of registers that hold one value.
    spec fn spec_reg_count() -> u16;

    /// The value that a sequence of registers holds.
    spec fn spec_from_registers(regs: Seq<u16>) -> Result<Self, ModbusError>;

    /// Combines registers read from the device into a value.
    fn from_registers(regs: &[u16]) -> (res: Result<Self, ModbusError>)
        ensures
            res == Self::spec_from_registers(regs@),
    ;
}

impl ModbusRead for u16 {
    fn reg_count() -> (n: u16) {
        1
    }

    open spec fn spec_reg_count() -> u16 {
        1
    }

    open spec fn spec_from_registers(regs: Seq<u16>) -> Result<u16, ModbusError> {
        if regs.len() >= 1 {
            Ok(regs[0])
        } else {
            Err(ModbusError::NotEnoughRegisters { needed: 1 })
        }
    }

    fn from_registers(regs: &[u16]) -> (res: Result<u16, ModbusError>) {
        if regs.len() >= 1 {
            Ok(regs[0])
        } else {
            Err(ModbusError::NotEnoughRegisters { needed: 1 })
        }
    }
}

fn combine_words(hi: u16, lo: u16) -> (v: u32)
    ensures
        v == double_word(hi, lo),
        v as int == hi as int * 65536 + lo as int,
{
    assert((((hi as u32) << 16) | (lo as u32)) == (hi as int * 65536 + lo as int) as u32)
        by (bit_vector);
    assert(hi as int * 65536 + lo as int <= 0xFFFF_FFFF) by (nonlinear_arith)
        requires
            hi <= 0xFFFF,
            lo <= 0xFFFF,
    ;
    ((hi as u32) << 16) | (lo as u32)
}

impl ModbusRead for u32 {
    fn reg_count() -> (n: u16) {
        2
    }

    open spec fn spec_reg_count() -> u16 {
        2
    }

    open spec fn spec_from_registers(regs: Seq<u16>) -> Result<u32, ModbusError> {
        if regs.len() >= 2 {
            Ok(double_word(regs[0], regs[1]))
        } else {
            Err(ModbusError::NotEnoughRegisters { needed: 2 })
        }
    }

    fn from_registers(regs: &[u16]) -> (res: Result<u32, ModbusError>) {
        if regs.len() < 2 {
            return Err(ModbusError::NotEnoughRegisters { needed: 2 });
        }
        Ok(combine_words(regs[0], regs[1]))
    }
}

fn to_signed(v: u32) -> (r: i32)
    ensures
        r == signed32(v),
{
    assert(v >= 0x8000_0000 ==> (v as i32) as int == v as int - 0x1_0000_0000) by (bit_vector);
    assert(v < 0x8000_0000 ==> (v as i32) as int == v as int) by (bit_vector);
    v as i32
}

impl ModbusRead for i32 {
    fn reg_count() -> (n: u16) {
        2
    }

    open spec fn spec_reg_count() -> u16 {
        2
    }

    open spec fn spec_from_registers(regs: Seq<u16>) -> Result<i32, ModbusError> {
        if regs.len() >= 2 {
            Ok(signed32(double_word(regs[0], regs[1])))
        } else {
            Err(ModbusError::NotEnoughRegisters { needed: 2 })
        }
    }

    fn from_registers(regs: &[u16]) -> (res: Result<i32, ModbusError>) {
        if regs.len() < 2 {
            return Err(ModbusError::NotEnoughRegisters { needed: 2 });
        }
        Ok(to_signed(combine_words(regs[0], regs[1])))
    }
}

/// A value read from Modbus registers.
#[derive(Debug, Clone, PartialEq, Eq)]
pub enum RegisterValue {
    /// A 16-bit unsigned integer.
    U16(u16),
    /// A 32-bit unsigned integer (two registers).
    U32(u32),
    /// A 32-bit signed integer (two registers).
    I32(i32),
    /// A text held in consecutive registers.
    String(String),
}

/// The bytes of a sequence of registers, each register high byte first.
pub open spec fn registers_bytes(regs: Seq<u16>) -> Seq<u8> {
    Seq::new(
        2 * regs.len(),
        |i: int|
            if i % 2 == 0 {
                hi_byte(regs[i / 2])
            } else {
                lo_byte(regs[i / 2])
            },
    )
}

/// Splits registers into bytes, each register high byte first.
pub fn registers_to_bytes(regs: &[u16]) -> (bytes: Vec<u8>)
    requires
        2 * regs@.len() <= usize::MAX,
    ensures
        bytes@ == registers_bytes(regs@),
{
    let mut bytes: Vec<u8> = Vec::new();
    let mut i: usize = 0;
    while i < regs.len()
        invariant
            i <= regs@.len(),
            2 * regs@.len() <= usize::MAX,
            bytes@ =~= registers_bytes(regs@).take(2 * i),
        decreases regs@.len() - i,
    {
        bytes.push(high_byte(regs[i]));
        bytes.push(low_byte(regs[i]));
        i = i + 1;
    }
    bytes
}

} // verus!

verus! {

/// Splitting a word into its bytes and joining them gives the word back.
pub proof fn lemma_word_of_bytes(v: u16)
    ensures
        word(hi_byte(v), lo_byte(v)) == v,
{
}

/// A frame that carries its own checksum passes the checksum test: the last
/// two bytes, read low byte first, equal the CRC of everything before them.
pub proof fn lemma_with_crc_checks(payload: Seq<u8>)
    ensures
        with_crc(payload).len() == payload.len() + 2,
        with_crc(payload).take(payload.len() as int) == payload,
        word(
            with_crc(payload)[payload.len() as int + 1],
            with_crc(payload)[payload.len() as int],
        ) == crc16(payload),
{
    let f = with_crc(payload);
    assert(f.take(payload.len() as int) =~= payload);
    lemma_word_of_bytes(crc16(payload));
}

proof fn lemma_crc_shifts_8(c: u16)
    ensures
        crc_shifts(c, 8) == crc_shift(
            crc_shift(crc_shift(crc_shift(crc_shift(crc_shift(crc_shift(crc_shift(c))))))),
        ),
{
    reveal_with_fuel(crc_shifts, 9);
}

/// Absorbing a CRC's own two bytes, low byte first, leaves zero.
proof fn lemma_crc_absorbs_itself(c: u16)
    ensures
        crc_absorb(crc_absorb(c, lo_byte(c)), hi_byte(c)) == 0,
{
    let a0 = c ^ (lo_byte(c) as u16);
    let a1 = crc_shift(a0);
    let a2 = crc_shift(a1);
    let a3 = crc_shift(a2);
    let a4 = crc_shift(a3);
    let a5 = crc_shift(a4);
    let a6 = crc_shift(a5);
    let a7 = crc_shift(a6);
    let a8 = crc_shift(a7);
    let b0 = a8 ^ (hi_byte(c) as u16);
    let b1 = crc_shift(b0);
    let b2 = crc_shift(b1);
    let b3 = crc_shift(b2);
    let b4 = crc_shift(b3);
    let b5 = crc_shift(b4);
    let b6 = crc_shift(b5);
    let b7 = crc_shift(b6);
    let b8 = crc_shift(b7);
    lemma_crc_shifts_8(a0);
    lemma_crc_shifts_8(b0);
    assert(b8 == 0) by (bit_vector)
        requires
            a0 == c ^ ((c % 256) as u8 as u16),
            a1 == (if a0 & 1 != 0 { (a0 >> 1) ^ 0xA001 } else { a0 >> 1 }),
            a2 == (if a1 & 1 != 0 { (a1 >> 1) ^ 0xA001 } else { a1 >> 1 }),
            a3 == (if a2 & 1 != 0 { (a2 >> 1) ^ 0xA001 } else { a2 >> 1 }),
            a4 == (if a3 & 1 != 0 { (a3 >> 1) ^ 0xA001 } else { a3 >> 1 }),
            a5 == (if a4 & 1 != 0 { (a4 >> 1) ^ 0xA001 } else { a4 >> 1 }),
            a6 == (if a5 & 1 != 0 { (a5 >> 1) ^ 0xA001 } else { a5 >> 1 }),
            a7 == (if a6 & 1 != 0 { (a6 >> 1) ^ 0xA001 } else { a6 >> 1 }),
            a8 == (if a7 & 1 != 0 { (a7 >> 1) ^ 0xA001 } else { a7 >> 1 }),
            b0 == a8 ^ ((c / 256) as u8 as u16),
            b1 == (if b0 & 1 != 0 { (b0 >> 1) ^ 0xA001 } else { b0 >> 1 }),
            b2 == (if b1 & 1 != 0 { (b1 >> 1) ^ 0xA001 } else { b1 >> 1 }),
            b3 == (if b2 & 1 != 0 { (b2 >> 1) ^ 0xA001 } else { b2 >> 1 }),
            b4 == (if b3 & 1 != 0 { (b3 >> 1) ^ 0xA001 } else { b3 >> 1 }),
            b5 == (if b4 & 1 != 0 { (b4 >> 1) ^ 0xA001 } else { b4 >> 1 }),
            b6 == (if b5 & 1 != 0 { (b5 >> 1) ^ 0xA001 } else { b5 >> 1 }),
            b7 == (if b6 & 1 != 0 { (b6 >> 1) ^ 0xA001 } else { b6 >> 1 }),
            b8 == (if b7 & 1 != 0 { (b7 >> 1) ^ 0xA001 } else { b7 >> 1 }),
    ;
}

/// A frame followed by its own CRC, low byte first, has CRC zero: the
/// receiver's check over the whole frame comes out as zero.
pub proof fn lemma_crc_of_checked_frame(payload: Seq<u8>)
    ensures
        crc16(with_crc(payload)) == 0,
{
    let c = crc16(payload);
    let f = with_crc(payload);
    assert(f.drop_last() =~= payload.push(lo_byte(c)));
    assert(f.drop_last().drop_last() =~= payload);
    assert(f.drop_last().last() == lo_byte(c));
    assert(f.last() == hi_byte(c));
    assert(crc16(f.drop_last()) == crc_absorb(c, lo_byte(c)));
    assert(crc16(f) == crc_absorb(crc16(f.drop_last()), hi_byte(c)));
    lemma_crc_absorbs_itself(c);
}

/// Decoding register values: a `u16` is the first register; a `u32` is the
/// first register times 65536 plus the second (high word first); an `i32`
/// is that 32-bit value read in two's complement. Too few registers are an
/// error, and registers after those needed are ignored.
pub proof fn lemma_register_values(regs: Seq<u16>)
    ensures
        regs.len() >= 1 ==> (<u16 as ModbusRead>::spec_from_registers(regs) matches Ok(v) && v
            == regs[0]),
        regs.len() == 0 ==> <u16 as ModbusRead>::spec_from_registers(regs) is Err,
        regs.len() >= 2 ==> (<u32 as ModbusRead>::spec_from_registers(regs) matches Ok(v) && v as int
            == regs[0] as int * 65536 + regs[1] as int),
        regs.len() >= 2 ==> (<i32 as ModbusRead>::spec_from_registers(regs) matches Ok(v) && v as int
            == (if regs[0] as int * 65536 + regs[1] as int >= 0x8000_0000 {
            regs[0] as int * 65536 + regs[1] as int - 0x1_0000_0000
        } else {
            regs[0] as int * 65536 + regs[1] as int
        })),
        regs.len() < 2 ==> <u32 as ModbusRead>::spec_from_registers(regs) is Err
            && <i32 as ModbusRead>::spec_from_registers(regs) is Err,
{
    if regs.len() >= 2 {
        let hi = regs[0];
        let lo = regs[1];
        assert(0 <= hi as int * 65536 + lo as int <= 0xFFFF_FFFF) by (nonlinear_arith)
            requires
                hi <= 0xFFFF,
                lo <= 0xFFFF,
        ;
    }
}

/// Register text is the decoded text with only NULs and white space cut
/// from its ends: it is a contiguous part of the decoded registers, all
/// that was cut is NUL or white space, and it neither starts nor ends with
/// white space.
pub proof fn lemma_register_text_trimmed(regs: Seq<u16>)
    ensures
        ({
            let d = crate::text::utf8_lossy(registers_bytes(regs));
            let r = register_text(regs);
            &&& exists|a: int, b: int|
                {
                    &&& 0 <= a <= b <= d.len()
                    &&& r == d.subrange(a, b)
                    &&& forall|j: int|
                        0 <= j < a ==> #[trigger] d[j] == '\0' || crate::text::is_whitespace(d[j])
                    &&& forall|j: int|
                        b <= j < d.len() ==> #[trigger] d[j] == '\0' || crate::text::is_whitespace(d[j])
                }
            &&& r.len() > 0 ==> !crate::text::is_whitespace(r[0]) && !crate::text::is_whitespace(
                r.last(),
            )
        }),
{
    let d = crate::text::utf8_lossy(registers_bytes(regs));
    let nul = crate::text::CharClass::Exactly('\0');
    let ws = crate::text::CharClass::Whitespace;
    let a1 = crate::text::lemma_trim_start_at(d, nul);
    let b1 = crate::text::lemma_trim_end_at(d.skip(a1), nul);
    let m = crate::text::trim_by(d, nul);
    assert(m == d.skip(a1).take(b1));
    assert(m =~= d.subrange(a1, a1 + b1));
    crate::text::lemma_trim_by(m, ws);
    let (a2, b2) = choose|a: int, b: int|
        {
            &&& 0 <= a <= b <= m.len()
            &&& crate::text::trim_by(m, ws) == m.subrange(a, b)
            &&& forall|j: int| 0 <= j < a ==> crate::text::in_class(ws, #[trigger] m[j])
            &&& forall|j: int| b <= j < m.len() ==> crate::text::in_class(ws, #[trigger] m[j])
        };
    let r = register_text(regs);
    assert(r =~= d.subrange(a1 + a2, a1 + b2));
    assert forall|j: int| 0 <= j < a1 + a2 implies #[trigger] d[j] == '\0' || crate::text::is_whitespace(
        d[j],
    ) by {
        if j >= a1 {
            assert(d[j] == m[j - a1]);
            assert(crate::text::in_class(ws, m[j - a1]));
        } else {
            assert(crate::text::in_class(nul, d[j]));
        }
    }
    assert forall|j: int| a1 + b2 <= j < d.len() implies #[trigger] d[j] == '\0' || crate::text::is_whitespace(
        d[j],
    ) by {
        if j < a1 + b1 {
            assert(d[j] == m[j - a1]);
            assert(crate::text::in_class(ws, m[j - a1]));
        } else {
            assert(d[j] == d.skip(a1)[j - a1]);
            assert(crate::text::in_class(nul, d.skip(a1)[j - a1]));
        }
    }
}

/// The response a slave sends to a read of the registers `regs`.
pub open spec fn response_frame(slave: u8, regs: Seq<u16>) -> Seq<u8> {
    with_crc(seq![slave, FUNCTION_READ_HOLDING, (2 * regs.len()) as u8] + registers_bytes(regs))
}

/// A read response parses back to exactly the registers it carries.
pub proof fn lemma_parse_response_frame(slave: u8, regs: Seq<u16>)
    requires
        2 * regs.len() <= 255,
    ensures
        parse_response(response_frame(slave, regs), slave, regs.len() as u16) == Ok::<
            Seq<u16>,
            ModbusError,
        >(regs),
{
    let count = regs.len();
    let body = seq![slave, FUNCTION_READ_HOLDING, (2 * count) as u8] + registers_bytes(regs);
    let reply = response_frame(slave, regs);
    lemma_with_crc_checks(body);
    let n = reply.len();
    assert(n == 3 + 2 * count + 2);
    assert(reply.take(n - 2) == body);
    assert(reply[0] == slave);
    assert(reply[1] == FUNCTION_READ_HOLDING);
    assert(reply[2] == 2 * count);
    assert forall|i: int| 0 <= i < count implies word(reply[3 + 2 * i], reply[4 + 2 * i])
        == #[trigger] regs[i] by {
        assert(reply[3 + 2 * i] == body[3 + 2 * i]);
        assert(reply[4 + 2 * i] == body[4 + 2 * i]);
        assert(body[3 + 2 * i] == registers_bytes(regs)[2 * i]);
        assert(body[4 + 2 * i] == registers_bytes(regs)[2 * i + 1]);
        lemma_word_of_bytes(regs[i]);
    }
    assert(frame_registers(reply, reply[2] as nat) =~= regs);
}

} // verus!

verus! {

/// The text held in registers: their bytes decoded as UTF-8 (invalid
/// sequences replaced), NUL characters trimmed from both ends, then white
/// space trimmed from both ends.
pub open spec fn register_text(regs: Seq<u16>) -> Seq<char> {
    crate::text::trim(
        crate::text::trim_by(
            crate::text::utf8_lossy(registers_bytes(regs)),
            crate::text::CharClass::Exactly('\0'),
        ),
    )
}

/// Interprets registers as a text, as the inverter stores strings: two
/// characters per register, padded with NULs or spaces.
pub fn registers_to_string(regs: &[u16]) -> (s: String)
    requires
        2 * regs@.len() <= usize::MAX,
    ensures
        s@ == register_text(regs@),
{
    let bytes = registers_to_bytes(regs);
    let decoded = crate::text::decode_utf8_lossy(bytes.as_slice());
    let chars = crate::text::chars_of(decoded.as_str());
    let no_nul = crate::text::trim_chars(chars.as_slice(), crate::text::CharClass::Exactly('\0'));
    let trimmed = crate::text::trim_chars(no_nul.as_slice(), crate::text::CharClass::Whitespace);
    crate::text::string_of(trimmed.as_slice())
}

} // verus!

verus! {

/// A request for one register value, sent to the Modbus worker.
#[derive(Debug, Clone, PartialEq, Eq)]
pub enum RegisterRequest {
    /// A register named by its unique id in the register table.
    UniqueId(String),
    /// A register named by its raw address, as text.
    Raw(String),
}

} // verus!

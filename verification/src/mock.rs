//! An in-memory Modbus slave that answers "read registers" requests from a
//! register map, used in place of the serial line when no inverter is
//! attached.

use std::collections::HashMap;
use vstd::prelude::*;
use vstd::string::StringSliceAdditionalSpecFns;
use crate::frame::{
    crc16, double_word, hi_byte, lo_byte, modbus_crc16, registers_bytes, with_crc, word,
    FUNCTION_READ_HOLDING, SLAVE_ID,
};

verus! {

broadcast use vstd::std_specs::hash::group_hash_axioms;

/// The value a register map gives an address: unset registers read as zero.
pub open spec fn register_value(regs: Map<u16, u16>, address: u16) -> u16 {
    if regs.contains_key(address) {
        regs[address]
    } else {
        0
    }
}

/// The map after storing `words` at consecutive addresses from `address`.
pub open spec fn store_words(regs: Map<u16, u16>, address: int, words: Seq<u16>) -> Map<u16, u16>
    decreases words.len(),
{
    if words.len() == 0 {
        regs
    } else {
        store_words(regs, address, words.drop_last()).insert(
            (address + words.len() - 1) as u16,
            words.last(),
        )
    }
}

/// The registers that hold a text: its UTF-8 bytes padded with zeros (or
/// cut) to two bytes per register, each register high byte first.
pub open spec fn text_words(bytes: Seq<u8>, count: nat) -> Seq<u16> {
    Seq::new(count, |i: int| word(padded_byte(bytes, 2 * i), padded_byte(bytes, 2 * i + 1)))
}

/// The `j`th byte of `bytes`, or zero past its end.
pub open spec fn padded_byte(bytes: Seq<u8>, j: int) -> u8 {
    if j < bytes.len() {
        bytes[j]
    } else {
        0
    }
}

/// The registers that a fresh mock holds.
pub open spec fn default_registers() -> Map<u16, u16> {
    map![
        0u16 => 1234u16,
        1u16 => 0x1234u16,
        2u16 => 0x5678u16,
        10u16 => 42u16,
        100u16 => 2300u16,
        101u16 => 500u16,
        102u16 => 1200u16,
        32000u16 => 0u16,
        32001u16 => 20000u16,
        32009u16 => 0u16,
        32010u16 => 10000u16,
        32021u16 => 0u16,
        32022u16 => 30000u16
    ]
}

/// An exception frame: the function code with its high bit set, then the code.
pub open spec fn exception_frame(slave: u8, function: u8, code: u8) -> Seq<u8> {
    with_crc(seq![slave, function | 0x80, code])
}

/// The registers that a read of `count` registers from `start` returns.
pub open spec fn read_words(regs: Map<u16, u16>, start: u16, count: u16) -> Seq<u16> {
    Seq::new(count as nat, |i: int| register_value(regs, (start + i) as u16))
}

/// The frame that answers a valid read of `count` registers from `start`.
pub open spec fn read_reply(regs: Map<u16, u16>, slave: u8, function: u8, start: u16, count: u16) -> Seq<
    u8,
> {
    with_crc(seq![slave, function, (2 * count) as u8] + registers_bytes(read_words(regs, start, count)))
}

/// Start address of a request frame.
pub open spec fn request_start(request: Seq<u8>) -> u16 {
    word(request[2], request[3])
}

/// Register count of a request frame.
pub open spec fn request_count(request: Seq<u8>) -> u16 {
    word(request[4], request[5])
}

/// Whether a request passes the length, checksum, slave and function checks
/// and asks for between 1 and 125 registers.
pub open spec fn is_valid_read(request: Seq<u8>) -> bool {
    let n = request.len();
    &&& n >= 8
    &&& word(request[n - 1], request[n - 2]) == crc16(request.take(n - 2))
    &&& request[0] == SLAVE_ID
    &&& request[1] == FUNCTION_READ_HOLDING
    &&& 1 <= request_count(request) <= 125
}

/// Whether a valid read asks for addresses past 0xFFFF.
pub open spec fn reads_past_last_address(request: Seq<u8>) -> bool {
    is_valid_read(request) && request_start(request) + request_count(request) > 0x1_0000
}

/// The frame the mock slave answers a request with (empty: no answer).
pub open spec fn mock_reply(regs: Map<u16, u16>, request: Seq<u8>) -> Seq<u8> {
    let n = request.len();
    if n < 8 {
        exception_frame(SLAVE_ID, FUNCTION_READ_HOLDING, 0x03)
    } else if word(request[n - 1], request[n - 2]) != crc16(request.take(n - 2)) {
        exception_frame(SLAVE_ID, FUNCTION_READ_HOLDING, 0x03)
    } else if request[0] != SLAVE_ID {
        Seq::empty()
    } else if request[1] != FUNCTION_READ_HOLDING {
        exception_frame(request[0], request[1], 0x01)
    } else if request_count(request) == 0 || request_count(request) > 125 {
        exception_frame(request[0], request[1], 0x03)
    } else {
        read_reply(regs, request[0], request[1], request_start(request), request_count(request))
    }
}

/// In-memory Modbus RTU slave: a register map and the reply waiting to be read.
#[derive(Debug, Clone)]
pub struct MockSerialPort {
    registers: HashMap<u16, u16>,
    pending_response: Vec<u8>,
}

impl MockSerialPort {
    /// The register map.
    pub closed spec fn register_map(&self) -> Map<u16, u16> {
        self.registers@
    }

    /// The reply bytes not read yet.
    pub closed spec fn pending(&self) -> Seq<u8> {
        self.pending_response@
    }

    /// Creates a mock with a few example registers and the three energy
    /// totals (pv, feed-in, load) set.
    pub fn new() -> (port: Self)
        ensures
            port.register_map() == default_registers(),
            port.pending() == Seq::<u8>::empty(),
    {
        let mut registers: HashMap<u16, u16> = HashMap::new();
        registers.insert(0, 1234);
        registers.insert(1, 0x1234);
        registers.insert(2, 0x5678);
        registers.insert(10, 42);
        registers.insert(100, 2300);
        registers.insert(101, 500);
        registers.insert(102, 1200);
        let mut port = MockSerialPort { registers, pending_response: Vec::new() };
        port.set_i32(32000, 20000);
        port.set_i32(32009, 10000);
        port.set_i32(32021, 30000);
        assert(port.register_map() =~= default_registers());
        port
    }

    /// Creates a mock holding exactly the given address/value pairs; a later
    /// pair overrides an earlier one with the same address.
    pub fn with_registers(registers: &[(u16, u16)]) -> (port: Self)
        ensures
            port.register_map() == pairs_map(registers@),
            port.pending() == Seq::<u8>::empty(),
    {
        let mut map: HashMap<u16, u16> = HashMap::new();
        let mut i: usize = 0;
        while i < registers.len()
            invariant
                i <= registers@.len(),
                map@ == pairs_map(registers@.take(i as int)),
            decreases registers@.len() - i,
        {
            let (address, value) = registers[i];
            map.insert(address, value);
            assert(registers@.take(i + 1).drop_last() =~= registers@.take(i as int));
            i = i + 1;
        }
        assert(registers@.take(registers@.len() as int) =~= registers@);
        MockSerialPort { registers: map, pending_response: Vec::new() }
    }

    /// Sets or replaces one register.
    pub fn set_register(&mut self, address: u16, value: u16)
        ensures
            final(self).register_map() == old(self).register_map().insert(address, value),
            final(self).pending() == old(self).pending(),
    {
        self.registers.insert(address, value);
    }

    /// Stores a `u32` in two consecutive registers, high word first.
    pub fn set_u32(&mut self, address: u16, value: u32)
        requires
            address < 0xFFFF,
        ensures
            final(self).register_map() == old(self).register_map().insert(
                address,
                (value / 65536) as u16,
            ).insert((address + 1) as u16, (value % 65536) as u16),
            double_word((value / 65536) as u16, (value % 65536) as u16) == value,
            final(self).pending() == old(self).pending(),
    {
        assert((value >> 16) as u16 == (value / 65536) as u16) by (bit_vector);
        assert((value & 0xFFFF) as u16 == (value % 65536) as u16) by (bit_vector);
        self.registers.insert(address, (value >> 16) as u16);
        self.registers.insert(address + 1, (value & 0xFFFF) as u16);
    }

    /// Stores an `i32` (its two's complement bits) in two consecutive
    /// registers, high word first.
    pub fn set_i32(&mut self, address: u16, value: i32)
        requires
            address < 0xFFFF,
        ensures
            final(self).register_map() == old(self).register_map().insert(
                address,
                ((value as u32) / 65536) as u16,
            ).insert((address + 1) as u16, ((value as u32) % 65536) as u16),
            final(self).pending() == old(self).pending(),
    {
        self.set_u32(address, value as u32);
    }

    /// Stores a text in `register_count` registers from `address`: its UTF-8
    /// bytes, cut or padded with zeros to two bytes per register.
    pub fn set_string(&mut self, address: u16, value: &str, register_count: u16)
        requires
            address + register_count <= 0x1_0000,
        ensures
            final(self).register_map() == store_words(
                old(self).register_map(),
                address as int,
                text_words(value.spec_bytes(), register_count as nat),
            ),
            final(self).pending() == old(self).pending(),
    {
        let bytes = value.as_bytes();
        let ghost words = text_words(bytes@, register_count as nat);
        let mut index: u16 = 0;
        while index < register_count
            invariant
                index <= register_count,
                address + register_count <= 0x1_0000,
                bytes@ == value.spec_bytes(),
                words == text_words(bytes@, register_count as nat),
                self.pending() == old(self).pending(),
                self.register_map() == store_words(
                    old(self).register_map(),
                    address as int,
                    words.take(index as int),
                ),
            decreases register_count - index,
        {
            let j: usize = index as usize * 2;
            let hi: u8 = if j < bytes.len() {
                bytes[j]
            } else {
                0
            };
            let lo: u8 = if j + 1 < bytes.len() {
                bytes[j + 1]
            } else {
                0
            };
            let reg = crate::frame::make_word(hi, lo);
            self.registers.insert(address + index, reg);
            assert(words.take(index + 1).drop_last() =~= words.take(index as int));
            index = index + 1;
        }
        assert(words.take(register_count as int) =~= words);
    }

    /// Builds an exception frame for `function` with `code`.
    fn exception_response(slave: u8, function: u8, code: u8) -> (response: Vec<u8>)
        ensures
            response@ == exception_frame(slave, function, code),
    {
        let mut response: Vec<u8> = vec![slave, function | 0x80, code];
        let crc = modbus_crc16(response.as_slice());
        response.push(crate::frame::low_byte(crc));
        response.push(crate::frame::high_byte(crc));
        assert(response@ =~= exception_frame(slave, function, code));
        response
    }

    /// Answers a request frame: the reply waits in the pending buffer.
    pub fn handle_request(&mut self, request: &[u8])
        requires
            !reads_past_last_address(request@),
        ensures
            final(self).register_map() == old(self).register_map(),
            final(self).pending() == mock_reply(old(self).register_map(), request@),
    {
        self.pending_response = Vec::new();
        let n = request.len();
        if n < 8 {
            self.pending_response = Self::exception_response(
                SLAVE_ID,
                FUNCTION_READ_HOLDING,
                0x03,
            );
            return ;
        }
        let payload_len = n - 2;
        let received = crate::frame::make_word(request[payload_len + 1], request[payload_len]);
        let calculated = modbus_crc16(vstd::slice::slice_subrange(request, 0, payload_len));
        if received != calculated {
            self.pending_response = Self::exception_response(
                SLAVE_ID,
                FUNCTION_READ_HOLDING,
                0x03,
            );
            return ;
        }
        let slave = request[0];
        let function = request[1];
        let start = crate::frame::make_word(request[2], request[3]);
        let count = crate::frame::make_word(request[4], request[5]);
        if slave != SLAVE_ID {
            return ;
        }
        if function != FUNCTION_READ_HOLDING {
            self.pending_response = Self::exception_response(slave, function, 0x01);
            return ;
        }
        if count == 0 || count > 125 {
            self.pending_response = Self::exception_response(slave, function, 0x03);
            return ;
        }
        let ghost regs = self.registers@;
        let ghost words = read_words(regs, start, count);
        let mut response: Vec<u8> = Vec::with_capacity(3 + count as usize * 2 + 2);
        response.push(slave);
        response.push(function);
        response.push((count * 2) as u8);
        let ghost header = response@;
        assert(header =~= seq![slave, function, (2 * count) as u8]);
        let mut offset: u16 = 0;
        while offset < count
            invariant
                offset <= count,
                count <= 125,
                start + count <= 0x1_0000,
                self.registers@ == regs,
                words == read_words(regs, start, count),
                header.len() == 3,
                response@ =~= header + registers_bytes(words.take(offset as int)),
            decreases count - offset,
        {
            let value: u16 = match self.registers.get(&(start + offset)) {
                Some(v) => *v,
                None => 0,
            };
            assert(value == words[offset as int]);
            response.push(crate::frame::high_byte(value));
            response.push(crate::frame::low_byte(value));
            assert(registers_bytes(words.take(offset + 1)) =~= registers_bytes(
                words.take(offset as int),
            ) + seq![hi_byte(value), lo_byte(value)]);
            offset = offset + 1;
        }
        assert(words.take(count as int) =~= words);
        let ghost body = response@;
        assert(body =~= seq![slave, function, (2 * count) as u8] + registers_bytes(words));
        let crc = modbus_crc16(response.as_slice());
        response.push(crate::frame::low_byte(crc));
        response.push(crate::frame::high_byte(crc));
        assert(response@ =~= read_reply(regs, slave, function, start, count));
        self.pending_response = response;
    }

    /// Takes up to `max_len` bytes of the pending reply; `None` when nothing
    /// is pending (the serial line would time out).
    pub fn read(&mut self, max_len: usize) -> (bytes: Option<Vec<u8>>)
        ensures
            final(self).register_map() == old(self).register_map(),
            old(self).pending().len() == 0 ==> bytes is None && final(self).pending()
                == old(self).pending(),
            old(self).pending().len() > 0 ==> {
                let k = if max_len < old(self).pending().len() {
                    max_len as int
                } else {
                    old(self).pending().len() as int
                };
                &&& bytes matches Some(b) && b@ == old(self).pending().take(k)
                &&& final(self).pending() == old(self).pending().skip(k)
            },
    {
        let len = self.pending_response.len();
        if len == 0 {
            return None;
        }
        let k: usize = if max_len < len {
            max_len
        } else {
            len
        };
        let mut taken: Vec<u8> = Vec::new();
        let mut rest: Vec<u8> = Vec::new();
        let mut i: usize = 0;
        while i < len
            invariant
                len == self.pending_response@.len(),
                k <= len,
                i <= len,
                i <= k ==> taken@ =~= self.pending_response@.take(i as int) && rest@.len() == 0,
                i > k ==> taken@ =~= self.pending_response@.take(k as int) && rest@
                    =~= self.pending_response@.subrange(k as int, i as int),
            decreases len - i,
        {
            if i < k {
                taken.push(self.pending_response[i]);
            } else {
                rest.push(self.pending_response[i]);
            }
            i = i + 1;
        }
        self.pending_response = rest;
        Some(taken)
    }

    /// Feeds a request frame to the mock; returns the number of bytes taken.
    pub fn write(&mut self, buf: &[u8]) -> (written: usize)
        requires
            !reads_past_last_address(buf@),
        ensures
            written == buf@.len(),
            final(self).register_map() == old(self).register_map(),
            final(self).pending() == mock_reply(old(self).register_map(), buf@),
    {
        self.handle_request(buf);
        buf.len()
    }

    /// Number of reply bytes waiting to be read (truncated to 32 bits).
    pub fn bytes_to_read(&self) -> (n: u32)
        ensures
            n == self.pending().len() as u32,
    {
        self.pending_response.len() as u32
    }
}

/// The map that collecting address/value pairs builds: later pairs win.
pub open spec fn pairs_map(pairs: Seq<(u16, u16)>) -> Map<u16, u16>
    decreases pairs.len(),
{
    if pairs.len() == 0 {
        Map::empty()
    } else {
        pairs_map(pairs.drop_last()).insert(pairs.last().0, pairs.last().1)
    }
}

} // verus!

verus! {

/// A read request built by this library, for the mock's slave id and a
/// count the mock accepts, is answered with a frame that the response
/// parser accepts and that carries exactly the registers asked for.
pub proof fn lemma_mock_answers_read_request(regs: Map<u16, u16>, start: u16, count: u16)
    requires
        1 <= count <= 125,
        start + count <= 0x1_0000,
    ensures
        !reads_past_last_address(crate::frame::read_request_frame(SLAVE_ID, start, count)),
        crate::frame::parse_response(
            mock_reply(regs, crate::frame::read_request_frame(SLAVE_ID, start, count)),
            SLAVE_ID,
            count,
        ) == Ok::<Seq<u16>, crate::frame::ModbusError>(read_words(regs, start, count)),
{
    let payload = crate::frame::request_payload(SLAVE_ID, start, count);
    let request = crate::frame::read_request_frame(SLAVE_ID, start, count);
    crate::frame::lemma_with_crc_checks(payload);
    crate::frame::lemma_word_of_bytes(start);
    crate::frame::lemma_word_of_bytes(count);
    assert(request.len() == 8);
    assert(request.take(6) == payload);
    assert(request_start(request) == start);
    assert(request_count(request) == count);
    let words = read_words(regs, start, count);
    assert(mock_reply(regs, request) == crate::frame::response_frame(SLAVE_ID, words));
    crate::frame::lemma_parse_response_frame(SLAVE_ID, words);
}

/// What a read gives back of a write: once a register is set, a read of
/// that register is answered with a frame that parses to the value set.
pub proof fn lemma_mock_reads_back_register(regs: Map<u16, u16>, address: u16, value: u16)
    ensures
        crate::frame::parse_response(
            mock_reply(regs.insert(address, value), crate::frame::read_request_frame(SLAVE_ID, address, 1)),
            SLAVE_ID,
            1,
        ) == Ok::<Seq<u16>, crate::frame::ModbusError>(seq![value]),
{
    lemma_mock_answers_read_request(regs.insert(address, value), address, 1);
    assert(read_words(regs.insert(address, value), address, 1) =~= seq![value]);
}

} // verus!

verus! {

/// Tests whether a request is a valid read that reaches past address 0xFFFF
/// (which the mock does not answer).
pub fn request_reads_past_last_address(request: &[u8]) -> (r: bool)
    ensures
        r == reads_past_last_address(request@),
{
    let n = request.len();
    if n < 8 {
        return false;
    }
    let received = crate::frame::make_word(request[n - 1], request[n - 2]);
    let calculated = modbus_crc16(vstd::slice::slice_subrange(request, 0, n - 2));
    if received != calculated || request[0] != SLAVE_ID || request[1] != FUNCTION_READ_HOLDING {
        return false;
    }
    let start = crate::frame::make_word(request[2], request[3]);
    let count = crate::frame::make_word(request[4], request[5]);
    1 <= count && count <= 125 && start as u32 + count as u32 > 0x1_0000
}

} // verus!

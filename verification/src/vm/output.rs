//! The bytes that a relocated trace and a relocated memory are written down
//! as.
//!
//! A trace is a run of records of three numbers of 64 bits each, `ap`, `fp`
//! and `pc`, least significant byte first. A memory is a run of records of
//! an address of 64 bits, least significant byte first, and the value held
//! there in 32 bytes, most significant byte first; the records stand in the
//! order of their addresses, and an empty cell has none.

use crate::types::field_int::FieldInt;
use crate::vm::trace::trace_entry::RelocatedTraceEntry;
use crate::vm::vm_memory::memory::flat_view;
use vstd::arithmetic::power::pow;
use vstd::bytes::{spec_u64_to_le_bytes, u64_to_le_bytes};
use vstd::prelude::*;

verus! {

/// The number of bytes that the value of a memory cell is written down in.
pub const VALUE_BYTES: usize = 32;

/// The bytes of one record of a trace.
pub open spec fn encode_entry_spec(entry: RelocatedTraceEntry) -> Seq<u8> {
    spec_u64_to_le_bytes(entry.ap as u64) + spec_u64_to_le_bytes(entry.fp as u64)
        + spec_u64_to_le_bytes(entry.pc as u64)
}

/// The bytes of the first `count` records of a trace.
pub open spec fn encode_trace_spec(trace: Seq<RelocatedTraceEntry>, count: int) -> Seq<u8>
    decreases count,
{
    if count <= 0 {
        Seq::empty()
    } else {
        encode_trace_spec(trace, count - 1) + encode_entry_spec(trace[count - 1])
    }
}

/// The bytes of a trace.
pub fn encode_trace(trace: &Vec<RelocatedTraceEntry>) -> (r: Vec<u8>)
    ensures
        r@ == encode_trace_spec(trace@, trace@.len() as int),
{
    let mut bytes: Vec<u8> = Vec::new();
    let mut i: usize = 0;
    while i < trace.len()
        invariant
            i <= trace.len(),
            bytes@ == encode_trace_spec(trace@, i as int),
        decreases trace.len() - i,
    {
        let entry = trace[i];
        let ghost before = bytes@;
        let mut ap = u64_to_le_bytes(entry.ap as u64);
        let mut fp = u64_to_le_bytes(entry.fp as u64);
        let mut pc = u64_to_le_bytes(entry.pc as u64);
        bytes.append(&mut ap);
        bytes.append(&mut fp);
        bytes.append(&mut pc);
        proof {
            assert(bytes@ =~= before + encode_entry_spec(trace@[i as int]));
        }
        i += 1;
    }
    bytes
}

/// Whether `value` can be written down in `width` bytes without sign.
pub open spec fn fits_bytes(value: int, width: nat) -> bool {
    0 <= value < pow(256, width)
}

/// The `width` bytes of `value`, most significant byte first.
pub open spec fn be_bytes_spec(value: int, width: nat) -> Seq<u8> {
    Seq::new(width, |k: int| ((value / pow(256, (width - 1 - k) as nat)) % 256) as u8)
}

/// A number that is not negative is below `d` just where its quotient by `d`
/// is zero.
proof fn lemma_quotient_is_zero(value: int, d: int)
    requires
        value >= 0,
        d > 0,
    ensures
        value / d == 0 <==> value < d,
        value / d >= 0,
{
    vstd::arithmetic::div_mod::lemma_fundamental_div_mod(value, d);
    vstd::arithmetic::div_mod::lemma_mod_bound(value, d);
    vstd::arithmetic::div_mod::lemma_div_pos_is_pos(value, d);
    if value >= d {
        vstd::arithmetic::div_mod::lemma_div_is_ordered(d, value, d);
        vstd::arithmetic::div_mod::lemma_div_by_self(d);
    } else {
        vstd::arithmetic::div_mod::lemma_basic_div(value, d);
    }
}

/// The quotient by one more power of 256 is the quotient by 256 of the
/// quotient by the power.
proof fn lemma_next_quotient(value: int, k: nat)
    requires
        value >= 0,
    ensures
        pow(256, k) > 0,
        (value / pow(256, k)) / 256 == value / pow(256, k + 1),
        value / pow(256, k) >= 0,
{
    vstd::arithmetic::power::lemma_pow_positive(256, k);
    vstd::arithmetic::power::lemma_pow_adds(256, k, 1);
    vstd::arithmetic::power::lemma_pow1(256);
    vstd::arithmetic::div_mod::lemma_div_denominator(value, pow(256, k), 256);
    vstd::arithmetic::div_mod::lemma_div_pos_is_pos(value, pow(256, k));
}

/// The 32 bytes of `value`, most significant byte first, where it is not
/// negative and they hold it.
pub fn value_be_bytes(value: &FieldInt) -> (r: Option<Vec<u8>>)
    ensures
        match r {
            Some(bytes) => fits_bytes(value@, VALUE_BYTES as nat) && bytes@ == be_bytes_spec(
                value@,
                VALUE_BYTES as nat,
            ),
            None => !fits_bytes(value@, VALUE_BYTES as nat),
        },
{
    if value.is_negative() {
        return None;
    }
    let base = FieldInt::from_i64(256);
    let mut rest = value.clone();
    let mut low_first: Vec<u8> = Vec::new();
    let mut k: usize = 0;
    proof {
        vstd::arithmetic::power::lemma_pow0(256);
    }
    while k < VALUE_BYTES
        invariant
            k <= VALUE_BYTES,
            value@ >= 0,
            base@ == 256,
            rest@ == value@ / pow(256, k as nat),
            low_first@.len() == k,
            forall|j: int|
                0 <= j < k ==> #[trigger] low_first@[j] == ((value@ / pow(256, j as nat)) % 256) as u8,
        decreases VALUE_BYTES - k,
    {
        proof {
            lemma_next_quotient(value@, k as nat);
        }
        let (quotient, digit) = rest.div_mod_floor(&base);
        let digit: usize = match digit.to_usize() {
            Some(digit) => digit,
            None => {
                return None;
            },
        };
        low_first.push(digit as u8);
        rest = quotient;
        k += 1;
    }
    proof {
        vstd::arithmetic::power::lemma_pow_positive(256, VALUE_BYTES as nat);
        lemma_quotient_is_zero(value@, pow(256, VALUE_BYTES as nat));
    }
    if !rest.is_zero() {
        return None;
    }
    let mut bytes: Vec<u8> = Vec::new();
    let mut j: usize = VALUE_BYTES;
    while j > 0
        invariant
            j <= VALUE_BYTES,
            low_first@.len() == VALUE_BYTES,
            bytes@.len() == VALUE_BYTES - j,
            forall|i: int|
                0 <= i < bytes@.len() ==> #[trigger] bytes@[i] == low_first@[VALUE_BYTES - 1 - i],
        decreases j,
    {
        j -= 1;
        bytes.push(low_first[j]);
    }
    proof {
        assert(bytes@ =~= be_bytes_spec(value@, VALUE_BYTES as nat));
    }
    Some(bytes)
}

/// The bytes of the records of the first `count` cells of a memory. There
/// are none where one of the cells holds a value that 32 bytes do not hold.
pub open spec fn encode_memory_spec(memory: Seq<Option<int>>, count: int) -> Option<Seq<u8>>
    decreases count,
{
    if count <= 0 {
        Some(Seq::empty())
    } else {
        match encode_memory_spec(memory, count - 1) {
            None => None,
            Some(before) => match memory[count - 1] {
                None => Some(before),
                Some(value) => if fits_bytes(value, VALUE_BYTES as nat) {
                    Some(
                        before + spec_u64_to_le_bytes((count - 1) as u64) + be_bytes_spec(
                            value,
                            VALUE_BYTES as nat,
                        ),
                    )
                } else {
                    None
                },
            },
        }
    }
}

/// Once the first cells of a memory cannot be written down, no longer run of
/// its cells can.
pub proof fn lemma_encode_memory_failure(memory: Seq<Option<int>>, failed: int, count: int)
    requires
        failed <= count,
        encode_memory_spec(memory, failed) is None,
    ensures
        encode_memory_spec(memory, count) is None,
    decreases count - failed,
{
    if failed < count {
        lemma_encode_memory_failure(memory, failed, count - 1);
    }
}

/// The bytes of a relocated memory.
pub fn encode_memory(memory: &Vec<Option<FieldInt>>) -> (r: Option<Vec<u8>>)
    ensures
        match r {
            Some(bytes) => encode_memory_spec(flat_view(*memory), memory@.len() as int) == Some(
                bytes@,
            ),
            None => encode_memory_spec(flat_view(*memory), memory@.len() as int) is None,
        },
{
    let mut bytes: Vec<u8> = Vec::new();
    let mut i: usize = 0;
    while i < memory.len()
        invariant
            i <= memory.len(),
            encode_memory_spec(flat_view(*memory), i as int) == Some(bytes@),
        decreases memory.len() - i,
    {
        if let Some(value) = &memory[i] {
            let ghost before = bytes@;
            match value_be_bytes(value) {
                Some(held) => {
                    let mut held = held;
                    let mut address = u64_to_le_bytes(i as u64);
                    bytes.append(&mut address);
                    bytes.append(&mut held);
                    proof {
                        assert(bytes@ =~= before + spec_u64_to_le_bytes(i as u64) + be_bytes_spec(
                            value@,
                            VALUE_BYTES as nat,
                        ));
                    }
                },
                None => {
                    proof {
                        assert(encode_memory_spec(flat_view(*memory), i + 1) is None);
                        lemma_encode_memory_failure(
                            flat_view(*memory),
                            i + 1,
                            memory@.len() as int,
                        );
                    }
                    return None;
                },
            }
        }
        i += 1;
    }
    Some(bytes)
}

} // verus!

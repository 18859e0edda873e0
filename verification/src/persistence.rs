//! The binary format of the sample files.
//!
//! A file starts with the 8-byte magic `MYMODB01`, followed by records of
//! 32 bytes: the timestamp and the three readings, each a little-endian
//! 64-bit word. A partial last record (left by a crash while writing) is
//! ignored when the file is read back. Files are named
//! `samples-<unix ts>.bin`, or `samples-<unix ts>-<n>.bin` when that name
//! is taken.

use vstd::prelude::*;
use vstd::bytes::{spec_u64_from_le_bytes, spec_u64_to_le_bytes, u64_from_le_bytes, u64_to_le_bytes};
use crate::history::{sort_by_ts, sort_samples, sorted_by_ts, DataSample};

verus! {

/// Size of one record in bytes.
pub const RECORD_SIZE: usize = 32;

/// The file magic, `MYMODB01`.
pub open spec fn file_magic() -> Seq<u8> {
    seq![0x4Du8, 0x59u8, 0x4Du8, 0x4Fu8, 0x44u8, 0x42u8, 0x30u8, 0x31u8]
}

/// The bytes of one record.
pub open spec fn record_bytes(s: DataSample) -> Seq<u8> {
    spec_u64_to_le_bytes(s.ts) + spec_u64_to_le_bytes(s.production_bits) + spec_u64_to_le_bytes(
        s.consumption_bits,
    ) + spec_u64_to_le_bytes(s.batt_soc_bits)
}

/// The sample that 32 record bytes hold.
pub open spec fn decode_record(r: Seq<u8>) -> DataSample {
    DataSample {
        ts: spec_u64_from_le_bytes(r.subrange(0, 8)),
        production_bits: spec_u64_from_le_bytes(r.subrange(8, 16)),
        consumption_bits: spec_u64_from_le_bytes(r.subrange(16, 24)),
        batt_soc_bits: spec_u64_from_le_bytes(r.subrange(24, 32)),
    }
}

/// The samples of the complete records in `b`; a partial tail is ignored.
pub open spec fn decode_records(b: Seq<u8>) -> Seq<DataSample>
    decreases b.len(),
{
    if b.len() < RECORD_SIZE {
        Seq::empty()
    } else {
        seq![decode_record(b.take(RECORD_SIZE as int))] + decode_records(b.skip(RECORD_SIZE as int))
    }
}

/// Why a file cannot be read.
#[derive(Debug, Clone, Copy, PartialEq, Eq, Structural)]
pub enum PersistenceError {
    /// The file ends before its 8-byte magic.
    TruncatedHeader,
}

/// What reading a file's bytes yields: an error when it is shorter than the
/// magic, nothing when the magic differs, else the complete records.
pub open spec fn decode_file(bytes: Seq<u8>) -> Result<Seq<DataSample>, PersistenceError> {
    if bytes.len() < 8 {
        Err(PersistenceError::TruncatedHeader)
    } else if bytes.take(8) != file_magic() {
        Ok(Seq::empty())
    } else {
        Ok(decode_records(bytes.skip(8)))
    }
}

/// The header every sample file starts with.
pub fn file_header() -> (h: Vec<u8>)
    ensures
        h@ == file_magic(),
{
    let h: Vec<u8> = vec![0x4D, 0x59, 0x4D, 0x4F, 0x44, 0x42, 0x30, 0x31];
    assert(h@ =~= file_magic());
    h
}

/// Encodes one sample as a record.
pub fn encode_sample(sample: DataSample) -> (bytes: Vec<u8>)
    ensures
        bytes@ == record_bytes(sample),
        bytes@.len() == RECORD_SIZE,
{
    let mut bytes = u64_to_le_bytes(sample.ts);
    let mut p = u64_to_le_bytes(sample.production_bits);
    let mut c = u64_to_le_bytes(sample.consumption_bits);
    let mut b = u64_to_le_bytes(sample.batt_soc_bits);
    bytes.append(&mut p);
    bytes.append(&mut c);
    bytes.append(&mut b);
    bytes
}

/// Decodes one record.
pub fn decode_sample(record: &[u8]) -> (s: DataSample)
    requires
        record@.len() == RECORD_SIZE,
    ensures
        s == decode_record(record@),
{
    DataSample {
        ts: u64_from_le_bytes(vstd::slice::slice_subrange(record, 0, 8)),
        production_bits: u64_from_le_bytes(vstd::slice::slice_subrange(record, 8, 16)),
        consumption_bits: u64_from_le_bytes(vstd::slice::slice_subrange(record, 16, 24)),
        batt_soc_bits: u64_from_le_bytes(vstd::slice::slice_subrange(record, 24, 32)),
    }
}

/// Reads the samples of a file's bytes.
pub fn decode_samples(bytes: &[u8]) -> (r: Result<Vec<DataSample>, PersistenceError>)
    ensures
        match r {
            Ok(v) => decode_file(bytes@) == Ok::<Seq<DataSample>, PersistenceError>(v@),
            Err(e) => decode_file(bytes@) == Err::<Seq<DataSample>, PersistenceError>(e),
        },
{
    let n = bytes.len();
    if n < 8 {
        return Err(PersistenceError::TruncatedHeader);
    }
    let magic = file_header();
    let mut k: usize = 0;
    while k < 8
        invariant
            k <= 8,
            n == bytes@.len(),
            n >= 8,
            magic@ == file_magic(),
            forall|j: int| 0 <= j < k ==> bytes@[j] == magic@[j],
        decreases 8 - k,
    {
        if bytes[k] != magic[k] {
            assert(bytes@.take(8)[k as int] != file_magic()[k as int]);
            return Ok(Vec::new());
        }
        k = k + 1;
    }
    assert(bytes@.take(8) =~= file_magic());
    let mut samples: Vec<DataSample> = Vec::new();
    let mut pos: usize = 8;
    while n - pos >= RECORD_SIZE
        invariant
            8 <= pos <= n,
            n == bytes@.len(),
            decode_records(bytes@.skip(8)) == samples@ + decode_records(bytes@.skip(pos as int)),
        decreases n - pos,
    {
        let record = vstd::slice::slice_subrange(bytes, pos, pos + RECORD_SIZE);
        let s = decode_sample(record);
        proof {
            let rest = bytes@.skip(pos as int);
            assert(rest.take(RECORD_SIZE as int) =~= record@);
            assert(rest.skip(RECORD_SIZE as int) =~= bytes@.skip(pos + RECORD_SIZE));
        }
        samples.push(s);
        pos = pos + RECORD_SIZE;
    }
    assert(decode_records(bytes@.skip(pos as int)) =~= Seq::<DataSample>::empty());
    assert(samples@ + Seq::<DataSample>::empty() =~= samples@);
    Ok(samples)
}

/// The samples of several files, read in order, that are not older than
/// `cutoff_ts`; the first unreadable file stops with its index.
pub open spec fn collect_since(files: Seq<Seq<u8>>, cutoff_ts: u64) -> Result<Seq<DataSample>, (usize, PersistenceError)>
    decreases files.len(),
{
    if files.len() == 0 {
        Ok(Seq::empty())
    } else {
        match collect_since(files.drop_last(), cutoff_ts) {
            Err(e) => Err(e),
            Ok(before) => match decode_file(files.last()) {
                Err(e) => Err(((files.len() - 1) as usize, e)),
                Ok(ss) => Ok(before + ss.filter(|s: DataSample| s.ts >= cutoff_ts)),
            },
        }
    }
}

proof fn lemma_collect_error_stays(files: Seq<Seq<u8>>, k: int, cutoff_ts: u64)
    requires
        0 <= k <= files.len(),
        collect_since(files.take(k), cutoff_ts) is Err,
    ensures
        collect_since(files, cutoff_ts) == collect_since(files.take(k), cutoff_ts),
    decreases files.len() - k,
{
    if k == files.len() {
        assert(files.take(k) =~= files);
    } else {
        assert(files.drop_last().take(k) =~= files.take(k));
        lemma_collect_error_stays(files.drop_last(), k, cutoff_ts);
    }
}

/// Loads the samples not older than `cutoff_ts` from the contents of the
/// sample files (in file-name order), sorted by timestamp.
pub fn samples_since(files: &[Vec<u8>], cutoff_ts: u64) -> (r: Result<Vec<DataSample>, (usize, PersistenceError)>)
    ensures
        match r {
            Ok(v) => collect_since(files@.map_values(|f: Vec<u8>| f@), cutoff_ts) matches Ok(all)
                && v@ == sort_by_ts(all) && sorted_by_ts(v@),
            Err(e) => collect_since(files@.map_values(|f: Vec<u8>| f@), cutoff_ts) == Err::<
                Seq<DataSample>,
                (usize, PersistenceError),
            >(e),
        },
{
    let ghost contents = files@.map_values(|f: Vec<u8>| f@);
    let mut all: Vec<DataSample> = Vec::new();
    let mut i: usize = 0;
    while i < files.len()
        invariant
            i <= files@.len(),
            contents == files@.map_values(|f: Vec<u8>| f@),
            collect_since(contents.take(i as int), cutoff_ts) == Ok::<
                Seq<DataSample>,
                (usize, PersistenceError),
            >(all@),
        decreases files@.len() - i,
    {
        assert(contents.take(i + 1).drop_last() =~= contents.take(i as int));
        assert(contents.take(i + 1).last() == files@[i as int]@);
        let decoded = match decode_samples(files[i].as_slice()) {
            Ok(v) => v,
            Err(e) => {
                proof {
                    lemma_collect_error_stays(contents, i + 1, cutoff_ts);
                }
                return Err((i, e));
            },
        };
        let ghost before = all@;
        let mut j: usize = 0;
        while j < decoded.len()
            invariant
                j <= decoded@.len(),
                all@ == before + decoded@.take(j as int).filter(|s: DataSample| s.ts >= cutoff_ts),
            decreases decoded@.len() - j,
        {
            proof {
                reveal(Seq::filter);
                assert(decoded@.take(j + 1).drop_last() =~= decoded@.take(j as int));
            }
            if decoded[j].ts >= cutoff_ts {
                all.push(decoded[j]);
            }
            j = j + 1;
        }
        assert(decoded@.take(decoded@.len() as int) =~= decoded@);
        i = i + 1;
    }
    assert(contents.take(files@.len() as int) =~= contents);
    let sorted = sort_samples(all.as_slice());
    proof {
        crate::history::lemma_sort_by_ts(all@);
    }
    Ok(sorted)
}

/// Whether the current file holds its maximum number of samples, so that
/// the next sample starts a new file.
pub fn needs_rotation(samples_in_file: u64, max_samples_per_file: u64) -> (r: bool)
    ensures
        r == (samples_in_file >= max_samples_per_file),
{
    samples_in_file >= max_samples_per_file
}

/// Whether a file name is one of a sample file.
pub open spec fn is_sample_file_name(name: Seq<char>) -> bool {
    crate::text::starts_with(name, "samples-"@) && crate::text::ends_with(name, ".bin"@)
}

/// Tests whether a file name is one of a sample file.
pub fn is_persistence_file(name: &str) -> (r: bool)
    ensures
        r == is_sample_file_name(name@),
{
    let n = crate::text::chars_of(name);
    crate::text::starts_with_chars(n.as_slice(), crate::text::chars_of("samples-").as_slice())
        && crate::text::ends_with_chars(n.as_slice(), crate::text::chars_of(".bin").as_slice())
}

/// The name of a new sample file created at `ts`; `suffix` tells apart
/// files created in the same second.
pub open spec fn sample_file_name(ts: u64, suffix: u32) -> Seq<char> {
    if suffix == 0 {
        "samples-"@ + crate::number::decimal(ts as nat) + ".bin"@
    } else {
        "samples-"@ + crate::number::decimal(ts as nat) + "-"@ + crate::number::decimal(
            suffix as nat,
        ) + ".bin"@
    }
}

/// Names a new sample file.
pub fn persistence_file_name(ts: u64, suffix: u32) -> (name: String)
    ensures
        name@ == sample_file_name(ts, suffix),
{
    let mut name = String::new();
    crate::text::push_str(&mut name, "samples-");
    crate::text::push_chars(&mut name, crate::number::decimal_chars(ts).as_slice());
    if suffix != 0 {
        crate::text::push_str(&mut name, "-");
        crate::text::push_chars(&mut name, crate::number::decimal_chars(suffix as u64).as_slice());
    }
    crate::text::push_str(&mut name, ".bin");
    name
}

// ---------------------------------------------------------------------------
// Round trip
// ---------------------------------------------------------------------------

/// The records of a sequence of samples, in order.
pub open spec fn encode_records(samples: Seq<DataSample>) -> Seq<u8>
    decreases samples.len(),
{
    if samples.len() == 0 {
        Seq::empty()
    } else {
        record_bytes(samples[0]) + encode_records(samples.drop_first())
    }
}

/// A record decodes to the sample it encodes.
pub proof fn lemma_record_round_trip(s: DataSample)
    ensures
        record_bytes(s).len() == RECORD_SIZE,
        decode_record(record_bytes(s)) == s,
{
    vstd::bytes::lemma_auto_spec_u64_to_from_le_bytes();
    let r = record_bytes(s);
    assert(r.subrange(0, 8) =~= spec_u64_to_le_bytes(s.ts));
    assert(r.subrange(8, 16) =~= spec_u64_to_le_bytes(s.production_bits));
    assert(r.subrange(16, 24) =~= spec_u64_to_le_bytes(s.consumption_bits));
    assert(r.subrange(24, 32) =~= spec_u64_to_le_bytes(s.batt_soc_bits));
}

proof fn lemma_records_round_trip(samples: Seq<DataSample>, tail: Seq<u8>)
    requires
        tail.len() < RECORD_SIZE,
    ensures
        decode_records(encode_records(samples) + tail) == samples,
    decreases samples.len(),
{
    if samples.len() == 0 {
        assert(encode_records(samples) + tail =~= tail);
    } else {
        lemma_record_round_trip(samples[0]);
        lemma_records_round_trip(samples.drop_first(), tail);
        let b = encode_records(samples) + tail;
        let r = record_bytes(samples[0]);
        assert(b =~= r + (encode_records(samples.drop_first()) + tail));
        assert(b.take(RECORD_SIZE as int) =~= r);
        assert(b.skip(RECORD_SIZE as int) =~= encode_records(samples.drop_first()) + tail);
        assert(seq![samples[0]] + samples.drop_first() =~= samples);
    }
}

/// What is written is read back: a file made of the magic and the records
/// of some samples, possibly cut inside a last record, reads back exactly
/// those samples.
pub proof fn lemma_file_round_trip(samples: Seq<DataSample>, tail: Seq<u8>)
    requires
        tail.len() < RECORD_SIZE,
    ensures
        decode_file(file_magic() + encode_records(samples) + tail) == Ok::<
            Seq<DataSample>,
            PersistenceError,
        >(samples),
{
    let f = file_magic() + encode_records(samples) + tail;
    assert(f.take(8) =~= file_magic());
    assert(f.skip(8) =~= encode_records(samples) + tail);
    lemma_records_round_trip(samples, tail);
}

/// The samples of several appended runs that are not older than
/// `cutoff_ts`, run after run.
pub open spec fn runs_since(runs: Seq<Seq<DataSample>>, cutoff_ts: u64) -> Seq<DataSample>
    decreases runs.len(),
{
    if runs.len() == 0 {
        Seq::empty()
    } else {
        runs_since(runs.drop_last(), cutoff_ts) + runs.last().filter(
            |s: DataSample| s.ts >= cutoff_ts,
        )
    }
}

/// What is appended is loaded back: when every file holds the magic and the
/// records of one run of appended samples (possibly cut inside a last
/// record), loading succeeds with exactly the samples of all runs that are
/// not older than the cutoff; sorted, they are in time order and are the
/// same samples.
pub proof fn lemma_load_reads_back(
    files: Seq<Seq<u8>>,
    runs: Seq<Seq<DataSample>>,
    tails: Seq<Seq<u8>>,
    cutoff_ts: u64,
)
    requires
        files.len() == runs.len(),
        files.len() == tails.len(),
        forall|i: int|
            0 <= i < files.len() ==> #[trigger] files[i] == file_magic() + encode_records(runs[i])
                + tails[i] && tails[i].len() < RECORD_SIZE,
    ensures
        collect_since(files, cutoff_ts) == Ok::<Seq<DataSample>, (usize, PersistenceError)>(
            runs_since(runs, cutoff_ts),
        ),
        sorted_by_ts(sort_by_ts(runs_since(runs, cutoff_ts))),
        sort_by_ts(runs_since(runs, cutoff_ts)).to_multiset() == runs_since(
            runs,
            cutoff_ts,
        ).to_multiset(),
    decreases files.len(),
{
    crate::history::lemma_sort_by_ts(runs_since(runs, cutoff_ts));
    if files.len() > 0 {
        let n = files.len() - 1;
        assert forall|i: int| 0 <= i < files.drop_last().len() implies #[trigger] files.drop_last()[i]
            == file_magic() + encode_records(runs.drop_last()[i]) + tails.drop_last()[i]
            && tails.drop_last()[i].len() < RECORD_SIZE by {
            assert(files.drop_last()[i] == files[i]);
            assert(files[i] == file_magic() + encode_records(runs[i]) + tails[i]);
        }
        lemma_load_reads_back(files.drop_last(), runs.drop_last(), tails.drop_last(), cutoff_ts);
        assert(files[n] == file_magic() + encode_records(runs[n]) + tails[n]);
        lemma_file_round_trip(runs[n], tails[n]);
        assert(files.last() == files[n]);
        assert(runs.last() == runs[n]);
    }
}

} // verus!

//! The CloudTrail JSON sink: per-(tenant, region) buffers framed as
//! `{"Records":[...]}`, rotated by size, age or close.
use vstd::prelude::*;

use crate::text::{normalize, normalized, owned, str_eq, trim_str, trimmed_of};

verus! {

/// The bytes that open a CloudTrail file: `{"Records":[`.
pub open spec fn records_open() -> Seq<u8> {
    seq![123u8, 34u8, 82u8, 101u8, 99u8, 111u8, 114u8, 100u8, 115u8, 34u8, 58u8, 91u8]
}

/// The bytes that close a CloudTrail file: `]}`.
pub open spec fn records_close() -> Seq<u8> {
    seq![93u8, 125u8]
}

/// The separator between two records: `,`.
pub open spec fn record_separator() -> u8 {
    44u8
}

/// The records joined by the separator.
pub open spec fn join_records(records: Seq<Seq<u8>>) -> Seq<u8>
    decreases records.len(),
{
    if records.len() == 0 {
        Seq::empty()
    } else if records.len() == 1 {
        records[0]
    } else {
        join_records(records.drop_last()).push(record_separator()) + records.last()
    }
}

/// A whole CloudTrail file holding `records`: `{"Records":[r1,r2,...]}`.
pub open spec fn records_file(records: Seq<Seq<u8>>) -> Seq<u8> {
    records_open() + join_records(records) + records_close()
}

/// Appends `other` to `buf`.
fn append_bytes(buf: &mut Vec<u8>, other: &[u8])
    ensures
        final(buf)@ == old(buf)@ + other@,
{
    let mut i: usize = 0;
    while i < other.len()
        invariant
            i <= other@.len(),
            buf@ == old(buf)@ + other@.subrange(0, i as int),
        decreases other@.len() - i,
    {
        buf.push(other[i]);
        i = i + 1;
        assert(other@.subrange(0, i as int) == other@.subrange(0, i - 1 as int).push(other@[i - 1]));
    }
    assert(other@.subrange(0, other@.len() as int) == other@);
}

/// A file is the opening `{"Records":[`, the records joined by commas, and the
/// closing `]}`; one record alone stands between the two as it is.
pub proof fn lemma_records_file_shape(records: Seq<Seq<u8>>)
    ensures
        records_file(records).subrange(0, 12) == records_open(),
        records_file(records).subrange(
            records_file(records).len() - 2,
            records_file(records).len() as int,
        ) == records_close(),
        records.len() == 1 ==> records_file(records) == records_open() + records[0] + records_close(),
        records.len() >= 2 ==> records_file(records) == records_open() + join_records(records.drop_last()).push(
            record_separator(),
        ) + records.last() + records_close(),
{
    let f = records_file(records);
    assert(f.subrange(0, 12) =~= records_open());
    assert(f.subrange(f.len() - 2, f.len() as int) =~= records_close());
}

/// No file exceeds the target size by more than the record that made it reach
/// the target: if the records before the last one made a file below the target
/// (or there were none), the file with the last one is at most the target plus
/// that record, for any target of at least fourteen bytes (an empty frame).
pub proof fn lemma_rotation_bound(records: Seq<Seq<u8>>, target: int)
    requires
        records.len() > 0,
        target >= 14,
        records.len() == 1 || records_file(records.drop_last()).len() < target,
    ensures
        records_file(records).len() <= target + records.last().len(),
{
    if records.len() > 1 {
        assert(join_records(records) == join_records(records.drop_last()).push(record_separator())
            + records.last());
    }
}

/// The records buffered for one (tenant, region) file that has not been written yet.
pub struct RegionBuffer {
    buffer: Vec<u8>,
    record_count: u64,
    current_size: u64,
    records: Ghost<Seq<Seq<u8>>>,
}

impl RegionBuffer {
    /// The records buffered so far, in order of arrival.
    pub closed spec fn records(&self) -> Seq<Seq<u8>> {
        self.records@
    }

    /// The size the file would have if written now: zero when empty.
    pub closed spec fn size(&self) -> int {
        self.current_size as int
    }

    /// The buffer holds the opening and the joined records, and the size counts
    /// them with the two closing bytes.
    pub closed spec fn wf(&self) -> bool {
        &&& self.record_count == self.records@.len()
        &&& self.record_count <= self.current_size
        &&& self.records@.len() == 0 ==> self.buffer@.len() == 0 && self.current_size == 0
        &&& self.records@.len() > 0 ==> {
            &&& self.buffer@ == records_open() + join_records(self.records@)
            &&& self.current_size == self.buffer@.len() + 2
        }
    }

    /// An empty buffer.
    pub fn new() -> (r: Self)
        ensures
            r.wf(),
            r.records() == Seq::<Seq<u8>>::empty(),
            r.size() == 0,
    {
        RegionBuffer {
            buffer: Vec::new(),
            record_count: 0,
            current_size: 0,
            records: Ghost(Seq::empty()),
        }
    }

    /// Number of buffered records.
    pub fn record_count(&self) -> (r: u64)
        requires
            self.wf(),
        ensures
            r == self.records().len(),
    {
        self.record_count
    }

    /// The size of the file if it were written now.
    pub fn current_size(&self) -> (r: u64)
        ensures
            r == self.size(),
    {
        self.current_size
    }

    /// Appends one serialised record: the opening goes before the first record and
    /// a separator before each later one.
    pub fn append_record(&mut self, record: &[u8])
        requires
            old(self).wf(),
            old(self).size() + record@.len() + 14 <= u64::MAX,
        ensures
            final(self).wf(),
            final(self).records() == old(self).records().push(record@),
            old(self).records().len() == 0 ==> final(self).size() == 14 + record@.len(),
            old(self).records().len() > 0 ==> final(self).size() == old(self).size() + 1
                + record@.len(),
            final(self).size() == records_file(final(self).records()).len(),
    {
        let ghost old_records = self.records@;
        let ghost old_len = self.buffer@.len();
        if self.record_count == 0 {
            let opening: Vec<u8> = vec![123u8, 34u8, 82u8, 101u8, 99u8, 111u8, 114u8, 100u8, 115u8, 34u8, 58u8, 91u8];
            assert(opening@ == records_open());
            append_bytes(&mut self.buffer, opening.as_slice());
        } else {
            self.buffer.push(44u8);
        }
        append_bytes(&mut self.buffer, record);
        self.record_count = self.record_count + 1;
        self.records = Ghost(old_records.push(record@));
        proof {
            let recs = self.records@;
            assert(recs.drop_last() == old_records);
            if old_records.len() == 0 {
                assert(join_records(recs) == record@);
                assert(self.buffer@ == records_open() + join_records(recs));
            } else {
                assert(join_records(recs) == join_records(old_records).push(record_separator()) + record@);
                assert(self.buffer@ == records_open() + join_records(recs));
            }
        }
        assert(old_records.len() == 0 ==> self.buffer@.len() == 12 + record@.len());
        assert(old_records.len() > 0 ==> self.buffer@.len() == old_len + 1 + record@.len());
        assert(old_records.len() > 0 ==> old_len + 2 == old(self).size());
        self.current_size = self.buffer.len() as u64 + 2;
    }

    /// Takes the whole file out of the buffer, `{"Records":[...]}`, and leaves the
    /// buffer empty; an empty buffer gives `None`.
    pub fn take_file(&mut self) -> (r: Option<Vec<u8>>)
        requires
            old(self).wf(),
        ensures
            final(self).wf(),
            final(self).records().len() == 0,
            final(self).size() == 0,
            old(self).records().len() == 0 <==> r.is_none(),
            r matches Some(bytes) ==> bytes@ == records_file(old(self).records()) && bytes@.len()
                == old(self).size(),
    {
        if self.record_count == 0 {
            return None;
        }
        let mut bytes = Vec::new();
        std::mem::swap(&mut bytes, &mut self.buffer);
        bytes.push(93u8);
        bytes.push(125u8);
        assert(bytes@ == records_open() + join_records(self.records@) + records_close());
        self.record_count = 0;
        self.current_size = 0;
        self.records = Ghost(Seq::empty());
        Some(bytes)
    }
}

/// The name of a rotated file: `<prefix>_<tenant>_<region>_<stamp>_<unique>.<ext>`
/// with a non-blank prefix, else `<tenant>_CloudTrail_<region>_<stamp>_<unique>.<ext>`.
pub open spec fn file_name_of(
    account_id: Seq<char>,
    region: Seq<char>,
    stamp: Seq<char>,
    unique: Seq<char>,
    ext: Seq<char>,
    prefix: Option<Seq<char>>,
) -> Seq<char> {
    let tail = region + "_"@ + stamp + "_"@ + unique + "."@ + ext;
    match prefix {
        Some(p) if trimmed_of(p).len() > 0 => p + "_"@ + account_id + "_"@ + tail,
        _ => account_id + "_CloudTrail_"@ + tail,
    }
}

/// The name of a rotated file (see `file_name_of`).
pub fn build_file_name(
    account_id: &str,
    region: &str,
    stamp: &str,
    unique: &str,
    ext: &str,
    prefix: Option<&str>,
) -> (r: String)
    ensures
        r@ == file_name_of(
            account_id@,
            region@,
            stamp@,
            unique@,
            ext@,
            match prefix {
                Some(p) => Some(p@),
                None => None,
            },
        ),
{
    let mut name = String::new();
    let mut named = false;
    if let Some(p) = prefix {
        if trim_str(p).unicode_len() > 0 {
            name.append(p);
            name.append("_");
            name.append(account_id);
            name.append("_");
            named = true;
        }
    }
    if !named {
        name.append(account_id);
        name.append("_CloudTrail_");
    }
    name.append(region);
    name.append("_");
    name.append(stamp);
    name.append("_");
    name.append(unique);
    name.append(".");
    name.append(ext);
    proof {
        let tail = region@ + "_"@ + stamp@ + "_"@ + unique@ + "."@ + ext@;
        assert(name@ =~= (if named { prefix.unwrap()@ + "_"@ + account_id@ + "_"@ } else {
            account_id@ + "_CloudTrail_"@
        }) + tail);
    }
    name
}

/// What gzip, at the default level, makes of a byte string.
pub uninterp spec fn gzip_of(bytes: Seq<u8>) -> Seq<u8>;

/// Relies on `flate2::write::GzEncoder` with `Compression::default()`, writing
/// into memory: the encoding depends on the bytes alone, and writing into a `Vec`
/// (whose `io::Write` never fails) never fails.
#[verifier::external_body]
fn gzip_bytes(bytes: &[u8]) -> (r: Option<Vec<u8>>)
    ensures
        r is Some,
        r matches Some(out) ==> out@ == gzip_of(bytes@),
{
    let mut encoder = flate2::write::GzEncoder::new(Vec::new(), flate2::Compression::default());
    match std::io::Write::write_all(&mut encoder, bytes) {
        Ok(()) => encoder.finish().ok(),
        Err(_) => None,
    }
}

/// How finished files are encoded.
#[derive(Debug, Clone, Copy, PartialEq, Eq, Structural)]
pub enum JsonlCompression {
    Plain,
    Gzip,
}

/// The bytes written for a file whose content is `content`.
pub open spec fn encoded(compression: JsonlCompression, content: Seq<u8>) -> Seq<u8> {
    match compression {
        JsonlCompression::Plain => content,
        JsonlCompression::Gzip => gzip_of(content),
    }
}

/// A failure of the JSON sink.
#[derive(Debug, Clone, PartialEq, Eq)]
pub enum SinkError {
    /// The configured compression is not supported; holds the configured value.
    UnsupportedCompression(String),
    /// The encoder failed.
    Compression,
}

/// The compression named by an already trimmed and lower-cased value: none for
/// an empty value, gzip for `gzip` or `gz`.
pub open spec fn compression_named(n: Seq<char>) -> Option<JsonlCompression> {
    if n.len() == 0 {
        Some(JsonlCompression::Plain)
    } else if n == "gzip"@ || n == "gz"@ {
        Some(JsonlCompression::Gzip)
    } else {
        None
    }
}

/// The compression selected by an optional configured value.
pub open spec fn compression_setting(value: Option<&str>) -> Option<JsonlCompression> {
    match value {
        None => Some(JsonlCompression::Plain),
        Some(v) => compression_named(normalized(v@)),
    }
}

/// Reads a compression setting that is already trimmed and lower-cased; `configured`
/// is the value as configured, quoted by the error.
pub fn compression_from_normalized(n: &str, configured: &str) -> (r: Result<JsonlCompression, SinkError>)
    ensures
        compression_named(n@) matches Some(c) ==> r == Ok::<JsonlCompression, SinkError>(c),
        compression_named(n@) is None ==> (r matches Err(SinkError::UnsupportedCompression(v))
            && v@ == configured@),
{
    if n.unicode_len() == 0 {
        Ok(JsonlCompression::Plain)
    } else if str_eq(n, "gzip") || str_eq(n, "gz") {
        Ok(JsonlCompression::Gzip)
    } else {
        Err(SinkError::UnsupportedCompression(owned(configured)))
    }
}

/// Reads the configured compression: none when absent or blank, gzip for `gzip`
/// or `gz` in any case and with surrounding white space; anything else is an error.
pub fn parse_compression(value: Option<&str>) -> (r: Result<JsonlCompression, SinkError>)
    ensures
        value is None ==> r == Ok::<JsonlCompression, SinkError>(JsonlCompression::Plain),
        value matches Some(v) ==> match compression_named(normalized(v@)) {
            Some(c) => r == Ok::<JsonlCompression, SinkError>(c),
            None => r matches Err(SinkError::UnsupportedCompression(e)) && e@ == v@,
        },
{
    match value {
        None => Ok(JsonlCompression::Plain),
        Some(v) => {
            let n = normalize(v);
            compression_from_normalized(n.as_str(), v)
        },
    }
}

/// A finished file for one (tenant, region): its key and the bytes to write.
#[derive(Debug, Clone)]
pub struct RegionFile {
    pub account_id: String,
    pub region: String,
    pub bytes: Vec<u8>,
}

struct RegionSlot {
    account_id: String,
    region: String,
    buffer: RegionBuffer,
    first_event_at: Option<u64>,
}

/// The bytes in a MiB.
pub const MIB: u64 = 1_048_576;

/// The file size target for `mb` MiB, saturating at the largest `u64`.
pub open spec fn target_bytes(mb: u64) -> int {
    if mb * MIB > u64::MAX {
        u64::MAX as int
    } else {
        mb * MIB
    }
}

/// The largest size a file can reach when the record that fills it is `record_len`
/// bytes long: the target plus that record (at least the frame around it).
pub open spec fn rotation_bound(target: int, record_len: int) -> int {
    if target < 14 {
        14 + record_len
    } else {
        target + record_len
    }
}

/// How one write changed the regions: the record went to the region at index `k`
/// (a new one at the end when `k` is the old length), whose buffer became
/// `before` (its old records and the new one) or, when `before` reached the
/// target size, was emptied into the file that `r` hands out.
pub open spec fn written_at(
    old_regions: Seq<(Seq<char>, Seq<char>, Seq<Seq<u8>>)>,
    new_regions: Seq<(Seq<char>, Seq<char>, Seq<Seq<u8>>)>,
    k: int,
    account_id: Seq<char>,
    region: Seq<char>,
    record: Seq<u8>,
    target: int,
    compression: JsonlCompression,
    r: Result<Option<RegionFile>, SinkError>,
) -> bool {
    let found = k < old_regions.len();
    let old_records = if found { old_regions[k].2 } else { Seq::empty() };
    let before = old_records.push(record);
    let full = records_file(before).len() >= target;
    let after = if full { Seq::empty() } else { before };
    &&& found ==> old_regions[k].0 == account_id && old_regions[k].1 == region
    &&& !found ==> forall|j: int|
        0 <= j < old_regions.len() ==> !(#[trigger] old_regions[j].0 == account_id
            && old_regions[j].1 == region)
    &&& new_regions == if found {
        old_regions.update(k, (account_id, region, after))
    } else {
        old_regions.push((account_id, region, after))
    }
    &&& full ==> match r {
        Ok(Some(f)) => {
            &&& f.account_id@ == account_id
            &&& f.region@ == region
            &&& f.bytes@ == encoded(compression, records_file(before))
            &&& records_file(before).len() <= rotation_bound(target, record.len() as int)
        },
        Ok(None) => false,
        Err(_) => false,
    }
    &&& !full ==> r matches Ok(None)
}

/// The file `f` is the whole of the buffer of region `k` of `regions`.
pub open spec fn file_of_region(
    f: RegionFile,
    regions: Seq<(Seq<char>, Seq<char>, Seq<Seq<u8>>)>,
    k: int,
    compression: JsonlCompression,
) -> bool {
    &&& 0 <= k < regions.len()
    &&& f.account_id@ == regions[k].0
    &&& f.region@ == regions[k].1
    &&& regions[k].2.len() > 0
    &&& f.bytes@ == encoded(compression, records_file(regions[k].2))
}

/// How a flush or a close changed the regions, with file `i` taken from region
/// `origins[i]`: the same keys in the same order, each buffer kept or emptied,
/// each file the whole of a buffer that was emptied and was below the target size,
/// and each emptied buffer handed out.
pub open spec fn drained_from(
    old_regions: Seq<(Seq<char>, Seq<char>, Seq<Seq<u8>>)>,
    new_regions: Seq<(Seq<char>, Seq<char>, Seq<Seq<u8>>)>,
    files: Seq<RegionFile>,
    origins: Seq<int>,
    target: int,
    compression: JsonlCompression,
) -> bool {
    &&& new_regions.len() == old_regions.len()
    &&& origins.len() == files.len()
    &&& forall|a: int, b: int| 0 <= a < b < origins.len() ==> #[trigger] origins[a] != #[trigger] origins[b]
    &&& forall|k: int|
        0 <= k < old_regions.len() ==> (#[trigger] new_regions[k]).0 == old_regions[k].0
            && new_regions[k].1 == old_regions[k].1 && (new_regions[k].2 == old_regions[k].2
            || new_regions[k].2.len() == 0)
    &&& forall|i: int|
        0 <= i < files.len() ==> file_of_region(#[trigger] files[i], old_regions, origins[i], compression)
            && new_regions[origins[i]].2.len() == 0 && records_file(old_regions[origins[i]].2).len()
            < target
    &&& forall|k: int|
        0 <= k < old_regions.len() && old_regions[k].2.len() > 0 && (#[trigger] new_regions[k]).2.len()
            == 0 ==> exists|i: int| 0 <= i < origins.len() && origins[i] == k
}

/// How a flush or a close changed the regions: files taken from some regions, as
/// `drained_from` describes.
pub open spec fn drained(
    old_regions: Seq<(Seq<char>, Seq<char>, Seq<Seq<u8>>)>,
    new_regions: Seq<(Seq<char>, Seq<char>, Seq<Seq<u8>>)>,
    files: Seq<RegionFile>,
    target: int,
    compression: JsonlCompression,
) -> bool {
    exists|origins: Seq<int>| drained_from(old_regions, new_regions, files, origins, target, compression)
}

/// CloudTrail JSON writer: buffers records per (tenant, region) and hands out a
/// finished file when a buffer reaches the target size, when it is older than the
/// maximum age at a flush, or at close.
pub struct JsonlWriter {
    target_size_bytes: u64,
    max_age_ms: Option<u64>,
    compression: JsonlCompression,
    slots: Vec<RegionSlot>,
}

impl JsonlWriter {
    /// The buffered regions: tenant, region and the records waiting for each.
    pub closed spec fn regions(&self) -> Seq<(Seq<char>, Seq<char>, Seq<Seq<u8>>)> {
        self.slots@.map_values(
            |s: RegionSlot| (s.account_id@, s.region@, s.buffer.records()),
        )
    }

    /// The size at which a buffer is turned into a file.
    pub closed spec fn target(&self) -> int {
        self.target_size_bytes as int
    }

    /// The maximum age of a buffer at a flush, in milliseconds.
    pub closed spec fn max_age(&self) -> Option<u64> {
        self.max_age_ms
    }

    /// The encoding of finished files.
    pub closed spec fn compression(&self) -> JsonlCompression {
        self.compression
    }

    /// Keys are unique, every buffer is well formed, and every non-empty buffer is
    /// still below the target size.
    pub closed spec fn wf(&self) -> bool {
        &&& forall|i: int| 0 <= i < self.slots@.len() ==> (#[trigger] self.slots@[i]).buffer.wf()
        &&& forall|i: int|
            0 <= i < self.slots@.len() ==> (#[trigger] self.slots@[i]).buffer.records().len() == 0
                || self.slots@[i].buffer.size() < self.target_size_bytes
        &&& forall|i: int, j: int|
            0 <= i < j < self.slots@.len() ==> !(#[trigger] self.slots@[i].account_id@
                == #[trigger] self.slots@[j].account_id@ && self.slots@[i].region@
                == self.slots@[j].region@)
    }

    /// A writer with a size target of `target_size_mb` MiB (saturating), a maximum
    /// age when `max_age_seconds` is positive, and the configured compression.
    pub fn new(target_size_mb: u64, max_age_seconds: Option<u64>, compression: Option<&str>) -> (r:
        Result<Self, SinkError>)
        ensures
            r matches Ok(w) ==> {
                &&& w.wf()
                &&& w.regions().len() == 0
                &&& w.target() == target_bytes(target_size_mb)
                &&& w.max_age() == match max_age_seconds {
                    Some(s) if s > 0 => Some(
                        if s * 1000 > u64::MAX { u64::MAX } else { (s * 1000) as u64 },
                    ),
                    _ => None,
                }
                &&& compression_setting(compression) == Some(w.compression())
            },
            r is Err <==> compression_setting(compression) is None,
    {
        let compression = match parse_compression(compression) {
            Ok(c) => c,
            Err(e) => return Err(e),
        };
        let target: u64 = if target_size_mb > u64::MAX / MIB {
            u64::MAX
        } else {
            target_size_mb * MIB
        };
        let max_age_ms: Option<u64> = match max_age_seconds {
            Some(s) => if s > 0 {
                Some(if s > u64::MAX / 1000 { u64::MAX } else { s * 1000 })
            } else {
                None
            },
            None => None,
        };
        Ok(JsonlWriter { target_size_bytes: target, max_age_ms, compression, slots: Vec::new() })
    }

    /// The encoding of finished files.
    pub fn file_compression(&self) -> (r: JsonlCompression)
        ensures
            r == self.compression(),
    {
        self.compression
    }

    /// The size at which a buffer is turned into a file.
    pub fn target_size_bytes(&self) -> (r: u64)
        ensures
            r == self.target(),
    {
        self.target_size_bytes
    }

    fn slot_index(&self, account_id: &str, region: &str) -> (r: Option<usize>)
        requires
            self.wf(),
        ensures
            r matches Some(k) ==> k < self.slots@.len() && self.slots@[k as int].account_id@
                == account_id@ && self.slots@[k as int].region@ == region@,
            r is None ==> forall|k: int|
                0 <= k < self.slots@.len() ==> !(#[trigger] self.slots@[k].account_id@
                    == account_id@ && self.slots@[k].region@ == region@),
    {
        let mut k: usize = 0;
        while k < self.slots.len()
            invariant
                k <= self.slots@.len(),
                forall|j: int|
                    0 <= j < k ==> !(#[trigger] self.slots@[j].account_id@ == account_id@
                        && self.slots@[j].region@ == region@),
            decreases self.slots@.len() - k,
        {
            if str_eq(self.slots[k].account_id.as_str(), account_id) && str_eq(
                self.slots[k].region.as_str(),
                region,
            ) {
                return Some(k);
            }
            k = k + 1;
        }
        None
    }

    /// Appends one record to the buffer of (`account_id`, `region`), opening the
    /// buffer if there is none. When the buffer reaches the target size its file is
    /// handed out and the buffer emptied; such a file is never larger than the
    /// target plus the record that filled it.
    pub fn write_record(&mut self, account_id: &str, region: &str, record: &[u8], now_ms: u64) -> (r:
        Result<Option<RegionFile>, SinkError>)
        requires
            old(self).wf(),
            record@.len() + old(self).target() + 14 <= u64::MAX,
        ensures
            final(self).wf(),
            final(self).target() == old(self).target(),
            final(self).max_age() == old(self).max_age(),
            final(self).compression() == old(self).compression(),
            exists|k: int|
                0 <= k <= old(self).regions().len() && #[trigger] written_at(
                    old(self).regions(),
                    final(self).regions(),
                    k,
                    account_id@,
                    region@,
                    record@,
                    old(self).target(),
                    old(self).compression(),
                    r,
                ),
    {
        let existing = self.slot_index(account_id, region);
        let idx: usize = match existing {
            Some(k) => k,
            None => {
                let slot = RegionSlot {
                    account_id: owned(account_id),
                    region: owned(region),
                    buffer: RegionBuffer::new(),
                    first_event_at: None,
                };
                self.slots.push(slot);
                proof {
                    assert(self.regions() =~= old(self).regions().push(
                        (account_id@, region@, Seq::<Seq<u8>>::empty()),
                    ));
                }
                self.slots.len() - 1
            },
        };
        let ghost mid = self.regions();
        let ghost mid_slots = self.slots@;
        let ghost found = (idx as int) < old(self).regions().len();
        assert(found ==> mid == old(self).regions());
        assert(!found ==> idx as int == old(self).regions().len());
        assert(mid[idx as int].2 == (if found { old(self).regions()[idx as int].2 } else { Seq::<Seq<u8>>::empty() }));
        let mut slot = self.slots.remove(idx);
        if slot.buffer.current_size() == 0 {
            slot.first_event_at = Some(now_ms);
        }
        let ghost before = slot.buffer.records().push(record@);
        slot.buffer.append_record(record);
        let full = slot.buffer.current_size() >= self.target_size_bytes;
        let content = if full {
            slot.first_event_at = None;
            slot.buffer.take_file()
        } else {
            None
        };
        let ghost new_records = slot.buffer.records();
        self.slots.insert(idx, slot);
        proof {
            assert(self.slots@ =~= mid_slots.update(idx as int, self.slots@[idx as int]));
            assert(self.regions() =~= mid.update(idx as int, (account_id@, region@, new_records)));
            assert forall|i: int, j: int|
                0 <= i < j < self.slots@.len() implies !(#[trigger] self.slots@[i].account_id@
                == #[trigger] self.slots@[j].account_id@ && self.slots@[i].region@
                == self.slots@[j].region@) by {
                assert(self.slots@[i].account_id@ == mid_slots[i].account_id@);
                assert(self.slots@[j].account_id@ == mid_slots[j].account_id@);
                assert(self.slots@[i].region@ == mid_slots[i].region@);
                assert(self.slots@[j].region@ == mid_slots[j].region@);
            }
            assert forall|i: int| 0 <= i < self.slots@.len() implies (#[trigger] self.slots@[i]).buffer.wf() by {
                if i != idx {
                    assert(self.slots@[i] == mid_slots[i]);
                }
            }
        }
        let r = match content {
            None => Ok(None),
            Some(c) => match Self::finish_file(account_id, region, c, self.compression) {
                Ok(f) => Ok(Some(f)),
                Err(e) => Err(e),
            },
        };
        proof {
            assert(before == (if found { old(self).regions()[idx as int].2 } else { Seq::<Seq<u8>>::empty() }).push(record@));
            assert(full == (records_file(before).len() >= old(self).target()));
            assert(found ==> old(self).regions()[idx as int].0 == account_id@ && old(self).regions()[idx as int].1 == region@);
            let after = if full { Seq::<Seq<u8>>::empty() } else { before };
            assert(new_records == after);
            assert(self.regions() == if found {
                old(self).regions().update(idx as int, (account_id@, region@, after))
            } else {
                old(self).regions().push((account_id@, region@, after))
            });
            assert(!full ==> r matches Ok(None));
            if !found {
                assert(existing is None);
                assert forall|j: int| 0 <= j < old(self).regions().len() implies !(#[trigger] old(self).regions()[j].0 == account_id@
                    && old(self).regions()[j].1 == region@) by {
                    assert(old(self).regions()[j].0 == old(self).slots@[j].account_id@);
                }
            }
            assert(full ==> records_file(before).len() <= rotation_bound(old(self).target(), record@.len() as int));
            assert(written_at(
                old(self).regions(),
                self.regions(),
                idx as int,
                account_id@,
                region@,
                record@,
                old(self).target(),
                old(self).compression(),
                r,
            ));
        }
        r
    }

    /// Hands out the file of every buffer that is due: with `everything`, or without
    /// a maximum age, every non-empty buffer; otherwise those whose first record is
    /// at least the maximum age older than `now_ms` (a buffer with no recorded start
    /// starts its clock now).
    fn drain(&mut self, now_ms: u64, everything: bool) -> (r: Result<Vec<RegionFile>, SinkError>)
        requires
            old(self).wf(),
        ensures
            final(self).wf(),
            final(self).target() == old(self).target(),
            final(self).max_age() == old(self).max_age(),
            final(self).compression() == old(self).compression(),
            r is Ok,
            r matches Ok(files) ==> drained(
                old(self).regions(),
                final(self).regions(),
                files@,
                old(self).target(),
                old(self).compression(),
            ),
            r is Ok && (everything || old(self).max_age() is None) ==> forall|k: int|
                0 <= k < final(self).regions().len() ==> (#[trigger] final(self).regions()[k]).2.len() == 0,
    {
        let mut files: Vec<RegionFile> = Vec::new();
        let ghost mut origins: Seq<int> = Seq::empty();
        let n = self.slots.len();
        let mut j: usize = 0;
        while j < n
            invariant
                n == self.slots@.len(),
                n == old(self).slots@.len(),
                j <= n,
                self.wf(),
                self.target_size_bytes == old(self).target_size_bytes,
                self.max_age_ms == old(self).max_age_ms,
                self.compression == old(self).compression,
                forall|k: int| j <= k < n ==> #[trigger] self.regions()[k] == old(self).regions()[k],
                (everything || self.max_age_ms is None) ==> forall|k: int|
                    0 <= k < j ==> (#[trigger] self.regions()[k]).2.len() == 0,
                forall|i: int| 0 <= i < origins.len() ==> #[trigger] origins[i] < j,
                forall|a: int, b: int| 0 <= a < b < origins.len() ==> #[trigger] origins[a] < #[trigger] origins[b],
                drained_from(
                    old(self).regions(),
                    self.regions(),
                    files@,
                    origins,
                    self.target_size_bytes as int,
                    self.compression,
                ),
            decreases n - j,
        {
            let ghost before = self.regions();
            let ghost old_files = files@;
            let ghost old_origins = origins;
            let emitted = self.drain_slot(j, now_ms, everything);
            match emitted {
                Err(e) => return Err(e),
                Ok(None) => {},
                Ok(Some(f)) => {
                    files.push(f);
                    proof {
                        origins = origins.push(j as int);
                    }
                },
            }
            proof {
                assert forall|k: int| 0 <= k < n implies (#[trigger] self.regions()[k]).0 == old(self).regions()[k].0
                    && self.regions()[k].1 == old(self).regions()[k].1 && (self.regions()[k].2
                    == old(self).regions()[k].2 || self.regions()[k].2.len() == 0) by {
                    if k != j {
                        assert(self.regions()[k] == before[k]);
                    }
                }
                assert forall|i: int| 0 <= i < files@.len() implies file_of_region(#[trigger] files@[i], old(self).regions(), origins[i], self.compression)
                    && self.regions()[origins[i]].2.len() == 0 && records_file(old(self).regions()[origins[i]].2).len()
                    < self.target_size_bytes by {
                    if i < old_files.len() {
                        assert(files@[i] == old_files[i]);
                        assert(origins[i] == old_origins[i]);
                        assert(self.regions()[origins[i]] == before[origins[i]]);
                    }
                }
                assert forall|k: int|
                    0 <= k < n && old(self).regions()[k].2.len() > 0 && (#[trigger] self.regions()[k]).2.len()
                        == 0 implies exists|i: int| 0 <= i < origins.len() && origins[i] == k by {
                    if k == j {
                        assert(origins[origins.len() - 1] == k);
                    } else {
                        assert(self.regions()[k] == before[k]);
                        let i = choose|i: int| 0 <= i < old_origins.len() && old_origins[i] == k;
                        assert(origins[i] == k);
                    }
                }
            }
            j = j + 1;
        }
        proof {
            assert(drained_from(old(self).regions(), self.regions(), files@, origins, self.target_size_bytes as int, self.compression));
        }
        Ok(files)
    }

    /// Hands out the file of buffer `j` if it is due (see `drain`).
    fn drain_slot(&mut self, j: usize, now_ms: u64, everything: bool) -> (r: Result<Option<RegionFile>, SinkError>)
        requires
            old(self).wf(),
            j < old(self).regions().len(),
        ensures
            final(self).wf(),
            final(self).target() == old(self).target(),
            final(self).max_age() == old(self).max_age(),
            final(self).compression() == old(self).compression(),
            final(self).slots@.len() == old(self).slots@.len(),
            forall|k: int| 0 <= k < old(self).regions().len() && k != j ==> #[trigger] final(self).regions()[k] == old(self).regions()[k],
            final(self).regions()[j as int].0 == old(self).regions()[j as int].0,
            final(self).regions()[j as int].1 == old(self).regions()[j as int].1,
            r is Ok,
            r matches Ok(None) ==> final(self).regions()[j as int] == old(self).regions()[j as int],
            r matches Ok(None) && (everything || old(self).max_age() is None) ==> old(self).regions()[j as int].2.len() == 0,
            r matches Ok(Some(f)) ==> {
                &&& file_of_region(f, old(self).regions(), j as int, old(self).compression())
                &&& final(self).regions()[j as int].2.len() == 0
                &&& records_file(old(self).regions()[j as int].2).len() < old(self).target()
            },
    {
        let ghost before_slots = self.slots@;
        let mut slot = self.slots.remove(j);
        let mut due = slot.buffer.record_count() > 0;
        if due && !everything {
            if let Some(max_age) = self.max_age_ms {
                match slot.first_event_at {
                    None => {
                        slot.first_event_at = Some(now_ms);
                        due = false;
                    },
                    Some(start) => {
                        let age: u64 = if now_ms > start { now_ms - start } else { 0 };
                        if age < max_age {
                            due = false;
                        }
                    },
                }
            }
        }
        let content = if due {
            slot.first_event_at = None;
            slot.buffer.take_file()
        } else {
            None
        };
        let ghost new_records = slot.buffer.records();
        self.slots.insert(j, slot);
        proof {
            assert(self.slots@ =~= before_slots.update(j as int, self.slots@[j as int]));
            assert(self.regions() =~= old(self).regions().update(j as int, (old(self).regions()[j as int].0, old(self).regions()[j as int].1, new_records)));
            assert forall|a: int, b: int|
                0 <= a < b < self.slots@.len() implies !(#[trigger] self.slots@[a].account_id@
                == #[trigger] self.slots@[b].account_id@ && self.slots@[a].region@
                == self.slots@[b].region@) by {
                assert(self.slots@[a].account_id@ == before_slots[a].account_id@);
                assert(self.slots@[b].account_id@ == before_slots[b].account_id@);
                assert(self.slots@[a].region@ == before_slots[a].region@);
                assert(self.slots@[b].region@ == before_slots[b].region@);
            }
            assert forall|i: int| 0 <= i < self.slots@.len() implies (#[trigger] self.slots@[i]).buffer.wf() by {
                if i != j {
                    assert(self.slots@[i] == before_slots[i]);
                }
            }
        }
        match content {
            None => Ok(None),
            Some(c) => match Self::finish_file(
                self.slots[j].account_id.as_str(),
                self.slots[j].region.as_str(),
                c,
                self.compression,
            ) {
                Ok(f) => Ok(Some(f)),
                Err(e) => Err(e),
            },
        }
    }

    /// Hands out the files of the buffers that are older than the maximum age (all
    /// non-empty buffers when there is no maximum age).
    pub fn flush(&mut self, now_ms: u64) -> (r: Result<Vec<RegionFile>, SinkError>)
        requires
            old(self).wf(),
        ensures
            final(self).wf(),
            final(self).target() == old(self).target(),
            final(self).max_age() == old(self).max_age(),
            final(self).compression() == old(self).compression(),
            r is Ok,
            r matches Ok(files) ==> drained(
                old(self).regions(),
                final(self).regions(),
                files@,
                old(self).target(),
                old(self).compression(),
            ),
            r is Ok && old(self).max_age() is None ==> forall|k: int|
                0 <= k < final(self).regions().len() ==> (#[trigger] final(self).regions()[k]).2.len() == 0,
    {
        self.drain(now_ms, false)
    }

    /// Hands out the file of every non-empty buffer.
    pub fn close(&mut self) -> (r: Result<Vec<RegionFile>, SinkError>)
        requires
            old(self).wf(),
        ensures
            final(self).wf(),
            final(self).target() == old(self).target(),
            final(self).compression() == old(self).compression(),
            r is Ok,
            r matches Ok(files) ==> drained(
                old(self).regions(),
                final(self).regions(),
                files@,
                old(self).target(),
                old(self).compression(),
            ),
            r is Ok ==> forall|k: int|
                0 <= k < final(self).regions().len() ==> (#[trigger] final(self).regions()[k]).2.len() == 0,
    {
        self.drain(0, true)
    }

    fn finish_file(account_id: &str, region: &str, content: Vec<u8>, compression: JsonlCompression) -> (r: Result<RegionFile, SinkError>)
        ensures
            r matches Ok(f) ==> f.account_id@ == account_id@ && f.region@ == region@ && f.bytes@
                == encoded(compression, content@),
            r is Ok,
    {
        let bytes = match compression {
            JsonlCompression::Plain => content,
            JsonlCompression::Gzip => match gzip_bytes(content.as_slice()) {
                Some(b) => b,
                None => return Err(SinkError::Compression),
            },
        };
        Ok(RegionFile { account_id: owned(account_id), region: owned(region), bytes })
    }
}

} // verus!

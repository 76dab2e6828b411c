//! The high-precision table as a JSON document, plain or compressed.
use crate::text::{bool_name, bool_text, decimal, decimal_text};
use crate::transfer_maps::{HighPrecisionData, PositionData};
use vstd::prelude::*;
use vstd::string::{StrSliceExecFns, StringExecFns, StringSliceAdditionalSpecFns};

verus! {

/// The numbers of a disc hit, each already written out as text.
pub struct NumberTexts {
    pub r: String,
    pub theta: String,
    pub phi: String,
    pub energy: String,
    pub angular_momentum: String,
    pub carter_q: String,
    pub impact_parameter: String,
    pub redshift_factor: String,
    pub affine_parameter: String,
    pub phi_wraps: String,
    pub null_invariant_error: String,
}

/// The JSON object of a disc hit.
pub open spec fn hit_text(entry: PositionData, numbers: NumberTexts) -> Seq<char> {
    "    {\"pixel_x\": "@ + decimal_text(entry.pixel_x as int) + ", \"pixel_y\": "@ + decimal_text(
        entry.pixel_y as int,
    ) + ", \"r\": "@ + numbers.r@ + ", \"theta\": "@ + numbers.theta@ + ", \"phi\": "@
        + numbers.phi@ + ", \"energy\": "@ + numbers.energy@ + ", \"angular_momentum\": "@
        + numbers.angular_momentum@ + ", \"carter_q\": "@ + numbers.carter_q@
        + ", \"impact_parameter\": "@ + numbers.impact_parameter@ + ", \"redshift_factor\": "@
        + numbers.redshift_factor@ + ", \"affine_parameter\": "@ + numbers.affine_parameter@
        + ", \"phi_wraps\": "@ + numbers.phi_wraps@ + ", \"order\": "@ + decimal_text(
        entry.order as int,
    ) + ", \"null_invariant_error\": "@ + numbers.null_invariant_error@ + ", \"turns_r\": "@
        + decimal_text(entry.turns_r as int) + ", \"turns_theta\": "@ + decimal_text(
        entry.turns_theta as int,
    ) + ", \"hit\": true}"@
}

/// The JSON object of a ray that made no hit.
pub open spec fn miss_text(entry: PositionData) -> Seq<char> {
    "    {\"pixel_x\": "@ + decimal_text(entry.pixel_x as int) + ", \"pixel_y\": "@ + decimal_text(
        entry.pixel_y as int,
    ) + ", \"hit\": false, \"escaped\": "@ + bool_text(entry.escaped) + ", \"captured\": "@
        + bool_text(entry.captured) + ", \"aborted\": "@ + bool_text(entry.aborted) + "}"@
}

/// The JSON object of an entry.
pub open spec fn record_text(entry: PositionData, numbers: NumberTexts) -> Seq<char> {
    if entry.hit {
        hit_text(entry, numbers)
    } else {
        miss_text(entry)
    }
}

/// One of the first `n` entries was written to.
pub open spec fn written_among(positions: Seq<PositionData>, n: int) -> bool
    decreases n,
{
    if n <= 0 {
        false
    } else {
        written_among(positions, n - 1) || positions[n - 1].written()
    }
}

/// The JSON objects of those of the first `n` entries that were written to,
/// with a comma and a line break between one and the next.
pub open spec fn records_text(
    positions: Seq<PositionData>,
    numbers: Seq<NumberTexts>,
    n: int,
) -> Seq<char>
    decreases n,
{
    if n <= 0 {
        Seq::empty()
    } else if !positions[n - 1].written() {
        records_text(positions, numbers, n - 1)
    } else if written_among(positions, n - 1) {
        records_text(positions, numbers, n - 1) + ",\n"@ + record_text(
            positions[n - 1],
            numbers[n - 1],
        )
    } else {
        records_text(positions, numbers, n - 1) + record_text(positions[n - 1], numbers[n - 1])
    }
}

/// The JSON document of a table: an object whose `positions` are the entries
/// that were written to.
pub open spec fn json_text(positions: Seq<PositionData>, numbers: Seq<NumberTexts>) -> Seq<char> {
    "{\n  \"positions\": [\n"@ + records_text(positions, numbers, positions.len() as int)
        + "\n  ]\n}"@
}

fn write_hit(entry: &PositionData, numbers: &NumberTexts) -> (s: String)
    ensures
        s@ == hit_text(*entry, *numbers),
{
    String::from_str("    {\"pixel_x\": ").concat(decimal(entry.pixel_x as u64).as_str()).concat(
        ", \"pixel_y\": ",
    ).concat(decimal(entry.pixel_y as u64).as_str()).concat(", \"r\": ").concat(
        numbers.r.as_str(),
    ).concat(", \"theta\": ").concat(numbers.theta.as_str()).concat(", \"phi\": ").concat(
        numbers.phi.as_str(),
    ).concat(", \"energy\": ").concat(numbers.energy.as_str()).concat(
        ", \"angular_momentum\": ",
    ).concat(numbers.angular_momentum.as_str()).concat(", \"carter_q\": ").concat(
        numbers.carter_q.as_str(),
    ).concat(", \"impact_parameter\": ").concat(numbers.impact_parameter.as_str()).concat(
        ", \"redshift_factor\": ",
    ).concat(numbers.redshift_factor.as_str()).concat(", \"affine_parameter\": ").concat(
        numbers.affine_parameter.as_str(),
    ).concat(", \"phi_wraps\": ").concat(numbers.phi_wraps.as_str()).concat(", \"order\": ").concat(
        decimal(entry.order as u64).as_str(),
    ).concat(", \"null_invariant_error\": ").concat(numbers.null_invariant_error.as_str()).concat(
        ", \"turns_r\": ",
    ).concat(decimal(entry.turns_r as u64).as_str()).concat(", \"turns_theta\": ").concat(
        decimal(entry.turns_theta as u64).as_str(),
    ).concat(", \"hit\": true}")
}

fn write_miss(entry: &PositionData) -> (s: String)
    ensures
        s@ == miss_text(*entry),
{
    String::from_str("    {\"pixel_x\": ").concat(decimal(entry.pixel_x as u64).as_str()).concat(
        ", \"pixel_y\": ",
    ).concat(decimal(entry.pixel_y as u64).as_str()).concat(
        ", \"hit\": false, \"escaped\": ",
    ).concat(bool_name(entry.escaped)).concat(", \"captured\": ").concat(
        bool_name(entry.captured),
    ).concat(", \"aborted\": ").concat(bool_name(entry.aborted)).concat("}")
}

/// Counts of a table's entries.
#[derive(Debug, Clone, Copy, PartialEq, Eq, Structural)]
pub struct DataStatistics {
    /// Entries in all, written to or not.
    pub total_pixels: usize,
    pub total_hits: usize,
    pub order_0_hits: usize,
    pub order_1_hits: usize,
    pub order_2_plus_hits: usize,
}

/// Number of hits among the first `n` entries whose order is at least `low`
/// and at most `high`.
pub open spec fn hits_of_orders(positions: Seq<PositionData>, low: int, high: int, n: int) -> nat
    decreases n,
{
    if n <= 0 {
        0
    } else {
        hits_of_orders(positions, low, high, n - 1) + if positions[n - 1].hit && low
            <= positions[n - 1].order <= high {
            1nat
        } else {
            0nat
        }
    }
}

impl HighPrecisionData {
    /// Writes the table as a JSON document. `numbers[i]` holds the numbers of
    /// entry `i` as they are to stand in the document; those of entries
    /// without a hit are not read.
    pub fn to_json(&self, numbers: &Vec<NumberTexts>) -> (json: String)
        requires
            numbers@.len() == self.positions@.len(),
        ensures
            json@ == json_text(self.positions@, numbers@),
    {
        let mut json = String::from_str("{\n  \"positions\": [\n");
        let n = self.positions.len();
        let mut any: bool = false;
        let mut i: usize = 0;
        while i < n
            invariant
                i <= n,
                n == self.positions@.len(),
                n == numbers@.len(),
                any == written_among(self.positions@, i as int),
                json@ == "{\n  \"positions\": [\n"@ + records_text(
                    self.positions@,
                    numbers@,
                    i as int,
                ),
            decreases n - i,
        {
            let entry = &self.positions[i];
            if entry.is_written() {
                let ghost before = json@;
                if any {
                    json.append(",\n");
                }
                let record = if entry.hit {
                    write_hit(entry, &numbers[i])
                } else {
                    write_miss(entry)
                };
                json.append(record.as_str());
                any = true;
                assert(json@ =~= "{\n  \"positions\": [\n"@ + records_text(
                    self.positions@,
                    numbers@,
                    i + 1,
                ));
            }
            i = i + 1;
        }
        json.append("\n  ]\n}");
        json
    }

    /// Counts the entries and the hits, in all and by order.
    pub fn statistics(&self) -> (s: DataStatistics)
        ensures
            s.total_pixels == self.positions@.len(),
            s.total_hits == hits_of_orders(self.positions@, 0, 255, self.positions@.len() as int),
            s.order_0_hits == hits_of_orders(self.positions@, 0, 0, self.positions@.len() as int),
            s.order_1_hits == hits_of_orders(self.positions@, 1, 1, self.positions@.len() as int),
            s.order_2_plus_hits == hits_of_orders(
                self.positions@,
                2,
                255,
                self.positions@.len() as int,
            ),
    {
        let n = self.positions.len();
        let mut total_hits: usize = 0;
        let mut order_0_hits: usize = 0;
        let mut order_1_hits: usize = 0;
        let mut order_2_plus_hits: usize = 0;
        let mut i: usize = 0;
        while i < n
            invariant
                i <= n,
                n == self.positions@.len(),
                total_hits == hits_of_orders(self.positions@, 0, 255, i as int),
                order_0_hits == hits_of_orders(self.positions@, 0, 0, i as int),
                order_1_hits == hits_of_orders(self.positions@, 1, 1, i as int),
                order_2_plus_hits == hits_of_orders(self.positions@, 2, 255, i as int),
                total_hits <= i,
                order_0_hits <= i,
                order_1_hits <= i,
                order_2_plus_hits <= i,
            decreases n - i,
        {
            let entry = &self.positions[i];
            if entry.hit {
                total_hits = total_hits + 1;
                if entry.order == 0 {
                    order_0_hits = order_0_hits + 1;
                } else if entry.order == 1 {
                    order_1_hits = order_1_hits + 1;
                } else {
                    order_2_plus_hits = order_2_plus_hits + 1;
                }
            }
            i = i + 1;
        }
        DataStatistics {
            total_pixels: n,
            total_hits,
            order_0_hits,
            order_1_hits,
            order_2_plus_hits,
        }
    }
}

/// What the encoder makes of `data` at its default level: the gzip stream, or
/// nothing where the encoder fails.
pub uninterp spec fn gzip_stream(data: Seq<u8>) -> Option<Seq<u8>>;

/// Compresses `data` with `flate2::write::GzEncoder` at
/// `flate2::Compression::default()`, writing into memory with
/// `std::io::Write::write_all` and `GzEncoder::finish`. The encoder puts no
/// time, name or system into the header and writes to no device, so whether
/// it delivers, and the stream it delivers, depend on `data` alone. Believed,
/// not proved: what comes back is what `gzip_stream` names.
#[verifier::external_body]
fn gzip_compress(data: &[u8]) -> (out: Option<Vec<u8>>)
    ensures
        match out {
            Some(bytes) => gzip_stream(data@) == Some(bytes@),
            None => gzip_stream(data@).is_none(),
        },
{
    let mut encoder = flate2::write::GzEncoder::new(Vec::new(), flate2::Compression::default());
    match std::io::Write::write_all(&mut encoder, data) {
        Ok(()) => encoder.finish().ok(),
        Err(_) => None,
    }
}

/// The file that a high-precision document is written to.
pub struct DocumentFile {
    pub name: &'static str,
    pub bytes: Vec<u8>,
}

/// The name and bytes that `text` is stored under: plain, or compressed when
/// the encoder delivers.
pub open spec fn stored(text: Seq<u8>, compressed: Option<Seq<u8>>) -> (Seq<char>, Seq<u8>) {
    match compressed {
        Some(stream) => ("high_precision.json.gz"@, stream),
        None => ("high_precision.json"@, text),
    }
}

/// Picks the file for a document from what the encoder returned, if it was
/// asked.
pub fn store_document(text: Vec<u8>, compressed: Option<Vec<u8>>) -> (file: DocumentFile)
    ensures
        (file.name@, file.bytes@) == stored(
            text@,
            match compressed {
                Some(stream) => Some(stream@),
                None => None,
            },
        ),
{
    match compressed {
        Some(stream) => DocumentFile { name: "high_precision.json.gz", bytes: stream },
        None => DocumentFile { name: "high_precision.json", bytes: text },
    }
}

/// The file that holds a document of the given bytes: `high_precision.json`
/// with the bytes themselves, or with `gzip` `high_precision.json.gz` with
/// their gzip stream, and then none where the encoder delivers none.
pub open spec fn document_file(text: Seq<u8>, gzip: bool) -> Option<(Seq<char>, Seq<u8>)> {
    if gzip {
        match gzip_stream(text) {
            Some(stream) => Some(stored(text, Some(stream))),
            None => None,
        }
    } else {
        Some(stored(text, None))
    }
}

/// Turns a high-precision document into the file that holds it:
/// `high_precision.json` with the document's bytes, or with `gzip`
/// `high_precision.json.gz` with their gzip stream. A plain document always
/// gets its file; a compressed one gets it exactly when the encoder delivers
/// a stream for its bytes.
pub fn encode_document(json: &str, gzip: bool) -> (file: Option<DocumentFile>)
    ensures
        match document_file(json.spec_bytes(), gzip) {
            Some(named) => file matches Some(f) && (f.name@, f.bytes@) == named,
            None => file.is_none(),
        },
        !gzip ==> file.is_some(),
        gzip ==> file.is_some() == gzip_stream(json.spec_bytes()).is_some(),
{
    let text = json.as_bytes_vec();
    if gzip {
        match gzip_compress(text.as_slice()) {
            Some(stream) => Some(store_document(text, Some(stream))),
            None => None,
        }
    } else {
        Some(store_document(text, None))
    }
}

} // verus!

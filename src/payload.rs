//! Byte payloads: the records a storage blob holds, and the JSON text a
//! cloud-to-device message carries.
use vstd::prelude::*;

verus! {

/// The fields of a stored telemetry record.
#[derive(Clone, Copy, Debug, PartialEq, Eq, Structural)]
pub enum StorageEntryFields {
    ConnectionDeviceId,
    ConnectionAuthMethod,
    ConnectionDeviceGenerationId,
    EnqueuedTime,
    Body,
}

impl StorageEntryFields {
    /// The keys that lead from a record to the field.
    pub open spec fn path(&self) -> Seq<Seq<char>> {
        match self {
            StorageEntryFields::ConnectionDeviceId => seq![
                "SystemProperties"@,
                "connectionDeviceId"@,
            ],
            StorageEntryFields::ConnectionAuthMethod => seq![
                "SystemProperties"@,
                "connectionAuthMethod"@,
            ],
            StorageEntryFields::ConnectionDeviceGenerationId => seq![
                "SystemProperties"@,
                "connectionDeviceGenerationId"@,
            ],
            StorageEntryFields::EnqueuedTime => seq!["SystemProperties"@, "enqueuedTime"@],
            StorageEntryFields::Body => seq!["Body"@],
        }
    }

    pub fn json_path(&self) -> (r: Vec<String>)
        ensures
            r@.len() == self.path().len(),
            forall|i: int| 0 <= i < r@.len() ==> #[trigger] r@[i]@ == self.path()[i],
    {
        match self {
            StorageEntryFields::ConnectionDeviceId => vec![
                String::from_str("SystemProperties"),
                String::from_str("connectionDeviceId"),
            ],
            StorageEntryFields::ConnectionAuthMethod => vec![
                String::from_str("SystemProperties"),
                String::from_str("connectionAuthMethod"),
            ],
            StorageEntryFields::ConnectionDeviceGenerationId => vec![
                String::from_str("SystemProperties"),
                String::from_str("connectionDeviceGenerationId"),
            ],
            StorageEntryFields::EnqueuedTime => vec![
                String::from_str("SystemProperties"),
                String::from_str("enqueuedTime"),
            ],
            StorageEntryFields::Body => vec![String::from_str("Body")],
        }
    }
}

pub const CARRIAGE_RETURN: u8 = 0x0d;

/// A blob's records with their line breaks turned into separators: a carriage
/// return becomes a comma, and the byte after it a space.
pub open spec fn normalized(data: Seq<u8>) -> Seq<u8> {
    Seq::new(
        data.len(),
        |i: int|
            if data[i] == CARRIAGE_RETURN {
                0x2c
            } else if i > 0 && data[i - 1] == CARRIAGE_RETURN {
                0x20
            } else {
                data[i]
            },
    )
}

/// Turns the line breaks between a blob's records into separators.
pub fn normalize_blob_data(data: &Vec<u8>) -> (r: Vec<u8>)
    ensures
        r@ == normalized(data@),
{
    let mut out: Vec<u8> = Vec::new();
    let mut i: usize = 0;
    while i < data.len()
        invariant
            i <= data@.len(),
            out@.len() == i,
            forall|j: int| 0 <= j < i ==> #[trigger] out@[j] == normalized(data@)[j],
        decreases data@.len() - i,
    {
        let b = if data[i] == CARRIAGE_RETURN {
            0x2cu8
        } else if i > 0 && data[i - 1] == CARRIAGE_RETURN {
            0x20u8
        } else {
            data[i]
        };
        out.push(b);
        i = i + 1;
    }
    assert(out@ =~= normalized(data@));
    out
}

/// A blob's records as the text of one JSON array.
pub open spec fn blob_json(data: Seq<u8>) -> Seq<u8> {
    seq![0x5bu8] + normalized(data) + seq![0x5du8]
}

/// The text of the JSON array of a blob's records.
pub fn blob_json_text(data: &Vec<u8>) -> (r: Vec<u8>)
    ensures
        r@ == blob_json(data@),
{
    let body = normalize_blob_data(data);
    let mut r: Vec<u8> = vec![0x5bu8];
    let mut i: usize = 0;
    while i < body.len()
        invariant
            i <= body@.len(),
            r@ == seq![0x5bu8] + body@.subrange(0, i as int),
        decreases body@.len() - i,
    {
        r.push(body[i]);
        i = i + 1;
        assert(r@ =~= seq![0x5bu8] + body@.subrange(0, i as int));
    }
    r.push(0x5du8);
    assert(body@.subrange(0, i as int) =~= body@);
    assert(r@ =~= blob_json(data@));
    r
}

/// The bytes of a message body that are ASCII characters, in order.
pub open spec fn ascii_only(data: Seq<u8>) -> Seq<u8>
    decreases data.len(),
{
    if data.len() == 0 {
        Seq::empty()
    } else {
        let rest = ascii_only(data.drop_last());
        if data.last() < 0x80 {
            rest.push(data.last())
        } else {
            rest
        }
    }
}

/// Whether a JSON object with a quoted first key starts at `i`: `{` then `"`.
pub open spec fn json_start_at(s: Seq<u8>, i: int) -> bool {
    0 <= i && i + 1 < s.len() && s[i] == 0x7b && s[i + 1] == 0x22
}

/// The first position at or after `from` where a JSON object starts, or the length.
pub open spec fn first_json_start(s: Seq<u8>, from: int) -> int
    decreases s.len() - from,
{
    if from < 0 || from >= s.len() {
        s.len() as int
    } else if json_start_at(s, from) {
        from
    } else {
        first_json_start(s, from + 1)
    }
}

/// The JSON text of a message body: its ASCII characters from the first `{"` on, or
/// nothing when no object starts.
pub open spec fn message_json(data: Seq<u8>) -> Seq<u8> {
    let a = ascii_only(data);
    a.subrange(first_json_start(a, 0), a.len() as int)
}

proof fn lemma_first_json_start_bounds(s: Seq<u8>, from: int)
    requires
        0 <= from <= s.len(),
    ensures
        from <= first_json_start(s, from) <= s.len(),
    decreases s.len() - from,
{
    if from < s.len() && !json_start_at(s, from) {
        lemma_first_json_start_bounds(s, from + 1);
    }
}

/// Extracts the JSON text that a cloud-to-device message body carries.
pub fn message_json_text(data: &Vec<u8>) -> (r: Vec<u8>)
    ensures
        r@ == message_json(data@),
{
    let mut ascii: Vec<u8> = Vec::new();
    let mut i: usize = 0;
    while i < data.len()
        invariant
            i <= data@.len(),
            ascii@ == ascii_only(data@.subrange(0, i as int)),
        decreases data@.len() - i,
    {
        let ghost before = data@.subrange(0, i as int);
        assert(data@.subrange(0, i as int + 1).drop_last() =~= before);
        if data[i] < 0x80 {
            ascii.push(data[i]);
        }
        i = i + 1;
    }
    assert(data@.subrange(0, i as int) =~= data@);
    let n = ascii.len();
    let mut k: usize = 0;
    while k < n && !(k + 1 < n && ascii[k] == 0x7b && ascii[k + 1] == 0x22)
        invariant
            n == ascii@.len(),
            k <= n,
            first_json_start(ascii@, 0) == first_json_start(ascii@, k as int),
        decreases n - k,
    {
        k = k + 1;
    }
    proof {
        lemma_first_json_start_bounds(ascii@, k as int);
    }
    let mut r: Vec<u8> = Vec::new();
    let mut j: usize = k;
    while j < n
        invariant
            n == ascii@.len(),
            k <= j <= n,
            r@ == ascii@.subrange(k as int, j as int),
        decreases n - j,
    {
        r.push(ascii[j]);
        j = j + 1;
        assert(r@ =~= ascii@.subrange(k as int, j as int));
    }
    r
}

} // verus!

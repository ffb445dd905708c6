//! Typed scalar values and their byte codec.
//!
//! A scalar is one of five cases: boolean, 64-bit signed integer, 64-bit
//! float (carried as its IEEE 754 bit pattern), timestamp (seconds since the
//! Unix epoch, stored like the integer case), and owned UTF-8 string.
//! Booleans encode as one byte, the 64-bit cases as eight little-endian
//! bytes, and strings as an eight-byte little-endian length prefix followed
//! by the UTF-8 payload.

use vstd::bytes::*;
use vstd::prelude::*;
use vstd::string::*;
use vstd::utf8::*;

verus! {

/// Datatype tags for the five supported scalar cases.
#[derive(Debug, PartialEq, Eq, Copy, Clone, Structural)]
pub enum DataType {
    Bool,
    Int64,
    Float64,
    /// Timestamp since the Unix epoch, in seconds.
    Timestamp,
    String,
}

impl DataType {
    /// The upper-case display of this tag, as shown by `EXPLAIN <table>`.
    pub open spec fn spec_display(self) -> Seq<char> {
        match self {
            DataType::Bool => "BOOL"@,
            DataType::Int64 => "INT64"@,
            DataType::Float64 => "FLOAT64"@,
            DataType::Timestamp => "TIMESTAMP"@,
            DataType::String => "STRING"@,
        }
    }

    /// Render this tag in upper case.
    pub fn display(&self) -> (r: String)
        ensures
            r@ == self.spec_display(),
    {
        match self {
            DataType::Bool => String::from_str("BOOL"),
            DataType::Int64 => String::from_str("INT64"),
            DataType::Float64 => String::from_str("FLOAT64"),
            DataType::Timestamp => String::from_str("TIMESTAMP"),
            DataType::String => String::from_str("STRING"),
        }
    }
}

impl View for DataType {
    type V = DataType;

    open spec fn view(&self) -> DataType {
        *self
    }
}

impl DeepView for DataType {
    type V = DataType;

    open spec fn deep_view(&self) -> DataType {
        *self
    }
}

/// A typed scalar value.
///
/// The float case carries the raw IEEE 754 bit pattern of the 64-bit value;
/// the codec and the comparison below work on that pattern directly.
#[derive(Debug)]
pub enum Data {
    Bool(bool),
    Int64(i64),
    /// A 64-bit IEEE 754 float, held as its bit pattern.
    Float64(u64),
    /// Timestamp since the Unix epoch, in seconds.
    Timestamp(i64),
    String(String),
}

/// The mathematical value of a [`Data`]: strings become character sequences.
pub enum DataVal {
    Bool(bool),
    Int64(i64),
    Float64(u64),
    Timestamp(i64),
    String(Seq<char>),
}

impl View for Data {
    type V = DataVal;

    open spec fn view(&self) -> DataVal {
        match self {
            Data::Bool(b) => DataVal::Bool(*b),
            Data::Int64(i) => DataVal::Int64(*i),
            Data::Float64(bits) => DataVal::Float64(*bits),
            Data::Timestamp(t) => DataVal::Timestamp(*t),
            Data::String(s) => DataVal::String(s@),
        }
    }
}

impl DeepView for Data {
    type V = DataVal;

    open spec fn deep_view(&self) -> DataVal {
        self.view()
    }
}

impl Clone for Data {
    fn clone(&self) -> (r: Self)
        ensures
            r@ == self@,
    {
        match self {
            Data::Bool(b) => Data::Bool(*b),
            Data::Int64(i) => Data::Int64(*i),
            Data::Float64(bits) => Data::Float64(*bits),
            Data::Timestamp(t) => Data::Timestamp(*t),
            Data::String(s) => Data::String(s.clone()),
        }
    }
}

impl PartialEq for Data {
    fn eq(&self, other: &Self) -> (r: bool) {
        match (self, other) {
            (Data::Bool(a), Data::Bool(b)) => *a == *b,
            (Data::Int64(a), Data::Int64(b)) => *a == *b,
            (Data::Float64(a), Data::Float64(b)) => *a == *b,
            (Data::Timestamp(a), Data::Timestamp(b)) => *a == *b,
            (Data::String(a), Data::String(b)) => a.eq(b),
            _ => false,
        }
    }
}

impl vstd::std_specs::cmp::PartialEqSpecImpl for Data {
    open spec fn obeys_eq_spec() -> bool {
        true
    }

    open spec fn eq_spec(&self, other: &Self) -> bool {
        self@ == other@
    }
}

/// The datatype tag of a scalar value.
pub open spec fn spec_datatype(v: DataVal) -> DataType {
    match v {
        DataVal::Bool(_) => DataType::Bool,
        DataVal::Int64(_) => DataType::Int64,
        DataVal::Float64(_) => DataType::Float64,
        DataVal::Timestamp(_) => DataType::Timestamp,
        DataVal::String(_) => DataType::String,
    }
}

/// A scalar fits the codec: a string's UTF-8 payload length fits the
/// eight-byte length prefix.  Every value built on a real machine does.
pub open spec fn data_wf(v: DataVal) -> bool {
    match v {
        DataVal::String(s) => encode_utf8(s).len() <= u64::MAX,
        _ => true,
    }
}

/// The byte encoding of a scalar value.
pub open spec fn spec_encode(v: DataVal) -> Seq<u8> {
    match v {
        DataVal::Bool(b) => seq![if b { 1u8 } else { 0u8 }],
        DataVal::Int64(i) => spec_u64_to_le_bytes(i as u64),
        DataVal::Float64(bits) => spec_u64_to_le_bytes(bits),
        DataVal::Timestamp(t) => spec_u64_to_le_bytes(t as u64),
        DataVal::String(s) => spec_u64_to_le_bytes(encode_utf8(s).len() as u64) + encode_utf8(s),
    }
}

/// How many bytes `spec_encode` produces.
pub open spec fn spec_encoded_len(v: DataVal) -> int {
    match v {
        DataVal::Bool(_) => 1,
        DataVal::Int64(_) => 8,
        DataVal::Float64(_) => 8,
        DataVal::Timestamp(_) => 8,
        DataVal::String(s) => 8 + encode_utf8(s).len() as int,
    }
}

/// Decode one scalar of type `ty` from the front of `b`.  `None` when `b` is
/// too short or, for strings, when the payload is not valid UTF-8.
pub open spec fn spec_decode(b: Seq<u8>, ty: DataType) -> Option<DataVal> {
    match ty {
        DataType::Bool => if b.len() >= 1 {
            Some(DataVal::Bool(b[0] == 1))
        } else {
            None
        },
        DataType::Int64 => if b.len() >= 8 {
            Some(DataVal::Int64(spec_u64_from_le_bytes(b.subrange(0, 8)) as i64))
        } else {
            None
        },
        DataType::Float64 => if b.len() >= 8 {
            Some(DataVal::Float64(spec_u64_from_le_bytes(b.subrange(0, 8))))
        } else {
            None
        },
        DataType::Timestamp => if b.len() >= 8 {
            Some(DataVal::Timestamp(spec_u64_from_le_bytes(b.subrange(0, 8)) as i64))
        } else {
            None
        },
        DataType::String => if b.len() >= 8 {
            let n = spec_u64_from_le_bytes(b.subrange(0, 8)) as int;
            if n + 8 <= b.len() && valid_utf8(b.subrange(8, 8 + n)) {
                Some(DataVal::String(decode_utf8(b.subrange(8, 8 + n))))
            } else {
                None
            }
        } else {
            None
        },
    }
}

/// Decoding reads back exactly what encoding wrote, for every scalar and
/// whatever bytes follow it: the codec round-trips.
pub proof fn lemma_data_round_trip(v: DataVal, rest: Seq<u8>)
    requires
        data_wf(v),
    ensures
        spec_decode(spec_encode(v) + rest, spec_datatype(v)) == Some(v),
        spec_encode(v).len() == spec_encoded_len(v),
{
    lemma_auto_spec_u64_to_from_le_bytes();
    let b = spec_encode(v) + rest;
    match v {
        DataVal::Bool(x) => {
            assert(b[0] == if x { 1u8 } else { 0u8 });
        },
        DataVal::Int64(x) => {
            assert(b.subrange(0, 8) =~= spec_u64_to_le_bytes(x as u64));
            assert(x as u64 as i64 == x) by (bit_vector);
        },
        DataVal::Float64(x) => {
            assert(b.subrange(0, 8) =~= spec_u64_to_le_bytes(x));
        },
        DataVal::Timestamp(x) => {
            assert(b.subrange(0, 8) =~= spec_u64_to_le_bytes(x as u64));
            assert(x as u64 as i64 == x) by (bit_vector);
        },
        DataVal::String(s) => {
            let payload = encode_utf8(s);
            let n = payload.len() as u64;
            assert(b.subrange(0, 8) =~= spec_u64_to_le_bytes(n));
            assert(b.subrange(8, 8 + n as int) =~= payload);
            encode_utf8_valid_utf8(s);
            encode_utf8_decode_utf8(s);
        },
    }
}

/// Relies on `String::from_utf8`: succeeds exactly on valid UTF-8 input and
/// then returns the string whose UTF-8 encoding is the given bytes.
#[verifier::external_body]
pub(crate) fn string_from_utf8(bytes: Vec<u8>) -> (r: Option<String>)
    ensures
        match r {
            Some(s) => valid_utf8(bytes@) && encode_utf8(s@) == bytes@,
            None => !valid_utf8(bytes@),
        },
{
    String::from_utf8(bytes).ok()
}

impl Data {
    /// The datatype tag of this value.
    pub fn datatype(&self) -> (r: DataType)
        ensures
            r == spec_datatype(self@),
    {
        match self {
            Data::Bool(_) => DataType::Bool,
            Data::Int64(_) => DataType::Int64,
            Data::Float64(_) => DataType::Float64,
            Data::String(_) => DataType::String,
            Data::Timestamp(_) => DataType::Timestamp,
        }
    }

    /// How many bytes `encode` writes for this value.
    pub fn encode_size(&self) -> (r: usize)
        requires
            spec_encoded_len(self@) <= usize::MAX,
        ensures
            r == spec_encoded_len(self@),
    {
        match self {
            Data::Bool(_) => 1,
            Data::Int64(_) => 8,
            Data::Float64(_) => 8,
            Data::Timestamp(_) => 8,
            Data::String(raw) => 8 + raw.as_str().len(),
        }
    }

    /// Encode this value into bytes.  Decoding the result with this value's
    /// datatype yields the value back (see [`lemma_data_round_trip`]).
    pub fn encode(&self) -> (r: Vec<u8>)
        ensures
            r@ == spec_encode(self@),
            data_wf(self@),
    {
        match self {
            Data::Bool(raw) => {
                let mut buf: Vec<u8> = Vec::new();
                buf.push(if *raw { 1 } else { 0 });
                assert(buf@ =~= spec_encode(self@));
                buf
            },
            Data::Int64(raw) => u64_to_le_bytes(*raw as u64),
            Data::Float64(raw) => u64_to_le_bytes(*raw),
            Data::Timestamp(raw) => u64_to_le_bytes(*raw as u64),
            Data::String(raw) => {
                let payload = raw.as_str().as_bytes_vec();
                let len = payload.len();
                proof {
                    assert(len == encode_utf8(raw@).len());
                }
                let mut buf = u64_to_le_bytes(len as u64);
                let mut payload = payload;
                buf.append(&mut payload);
                assert(buf@ =~= spec_encode(self@));
                buf
            },
        }
    }

    /// Decode a value of type `ty` from the front of `buf`; extra trailing
    /// bytes are ignored.  `None` exactly when no value can be read.
    pub fn decode(buf: &[u8], ty: &DataType) -> (r: Option<Data>)
        ensures
            r.deep_view() == spec_decode(buf@, *ty),
    {
        match ty {
            DataType::Bool => {
                if buf.len() >= 1 {
                    let byte = *vstd::slice::slice_index_get(buf, 0);
                    Some(Data::Bool(byte == 1))
                } else {
                    None
                }
            },
            DataType::Int64 => {
                if buf.len() >= 8 {
                    let x = u64_from_le_bytes(vstd::slice::slice_subrange(buf, 0, 8));
                    Some(Data::Int64(x as i64))
                } else {
                    None
                }
            },
            DataType::Float64 => {
                if buf.len() >= 8 {
                    let x = u64_from_le_bytes(vstd::slice::slice_subrange(buf, 0, 8));
                    Some(Data::Float64(x))
                } else {
                    None
                }
            },
            DataType::Timestamp => {
                if buf.len() >= 8 {
                    let x = u64_from_le_bytes(vstd::slice::slice_subrange(buf, 0, 8));
                    Some(Data::Timestamp(x as i64))
                } else {
                    None
                }
            },
            DataType::String => {
                if buf.len() >= 8 {
                    let n = u64_from_le_bytes(vstd::slice::slice_subrange(buf, 0, 8));
                    if n <= (buf.len() - 8) as u64 {
                        let payload = vstd::slice::slice_to_vec(
                            vstd::slice::slice_subrange(buf, 8, 8 + n as usize),
                        );
                        match string_from_utf8(payload) {
                            Some(s) => {
                                proof {
                                    encode_utf8_decode_utf8(s@);
                                }
                                Some(Data::String(s))
                            },
                            None => None,
                        }
                    } else {
                        None
                    }
                } else {
                    None
                }
            },
        }
    }
}

} // verus!

//! Rows of scalars and their byte codec.
//!
//! A tuple encodes as the concatenation of its columns' encodings, in schema
//! order; the schema is the out-of-band key for decoding.

use crate::catalog::schema::{ColumnV, Schema};
use crate::data::types::{
    data_wf, spec_datatype, spec_decode, spec_encode, spec_encoded_len, Data, DataType, DataVal,
    lemma_data_round_trip,
};
use vstd::prelude::*;

verus! {

/// An ordered row of scalars.
#[derive(Debug)]
pub struct Tuple(Vec<Data>);

impl View for Tuple {
    type V = Seq<DataVal>;

    closed spec fn view(&self) -> Seq<DataVal> {
        self.0.deep_view()
    }
}

impl DeepView for Tuple {
    type V = Seq<DataVal>;

    open spec fn deep_view(&self) -> Seq<DataVal> {
        self.view()
    }
}

/// The concatenated encodings of a row's scalars.
pub open spec fn spec_tuple_encode(t: Seq<DataVal>) -> Seq<u8>
    decreases t.len(),
{
    if t.len() == 0 {
        Seq::empty()
    } else {
        spec_encode(t[0]) + spec_tuple_encode(t.drop_first())
    }
}

/// How many bytes `spec_tuple_encode` produces.
pub open spec fn spec_tuple_encoded_len(t: Seq<DataVal>) -> int
    decreases t.len(),
{
    if t.len() == 0 {
        0
    } else {
        spec_encoded_len(t[0]) + spec_tuple_encoded_len(t.drop_first())
    }
}

/// The row has one scalar per column, each of the column's datatype.
pub open spec fn tuple_conforms(t: Seq<DataVal>, s: Seq<ColumnV>) -> bool {
    &&& t.len() == s.len()
    &&& forall|i: int| 0 <= i < t.len() ==> spec_datatype(#[trigger] t[i]) == s[i].datatype
}

/// Every scalar of the row fits the codec.
pub open spec fn tuple_wf(t: Seq<DataVal>) -> bool {
    forall|i: int| 0 <= i < t.len() ==> data_wf(#[trigger] t[i])
}

/// Decode one scalar per column of `s` from the front of `b`, advancing by
/// each decoded scalar's encoded size.  Trailing bytes are ignored.
pub open spec fn spec_tuple_decode(b: Seq<u8>, s: Seq<ColumnV>) -> Option<Seq<DataVal>>
    decreases s.len(),
{
    if s.len() == 0 {
        Some(Seq::empty())
    } else {
        match spec_decode(b, s[0].datatype) {
            None => None,
            Some(d) => match spec_tuple_decode(b.skip(spec_encoded_len(d)), s.drop_first()) {
                None => None,
                Some(rest) => Some(seq![d] + rest),
            },
        }
    }
}

/// The encoding of a row extended by one scalar is the row's encoding
/// followed by the scalar's.
pub proof fn lemma_tuple_encode_push(t: Seq<DataVal>, d: DataVal)
    ensures
        spec_tuple_encode(t.push(d)) == spec_tuple_encode(t) + spec_encode(d),
        spec_tuple_encoded_len(t.push(d)) == spec_tuple_encoded_len(t) + spec_encoded_len(d),
    decreases t.len(),
{
    if t.len() == 0 {
        assert(t.push(d)[0] == d);
        assert(t.push(d).drop_first() =~= t);
        assert(spec_tuple_encode(t.push(d)) == spec_encode(d) + spec_tuple_encode(t));
        assert((spec_encode(d) + spec_tuple_encode(t)) =~= (spec_tuple_encode(t) + spec_encode(
            d,
        )));
    } else {
        assert(t.push(d).drop_first() =~= t.drop_first().push(d));
        assert(t.push(d)[0] == t[0]);
        lemma_tuple_encode_push(t.drop_first(), d);
        assert(spec_encode(t[0]) + (spec_tuple_encode(t.drop_first()) + spec_encode(d)) =~= (
        spec_encode(t[0]) + spec_tuple_encode(t.drop_first())) + spec_encode(d));
    }
}

/// `spec_tuple_encode` produces exactly `spec_tuple_encoded_len` bytes.
pub proof fn lemma_tuple_encode_len(t: Seq<DataVal>)
    requires
        tuple_wf(t),
    ensures
        spec_tuple_encode(t).len() == spec_tuple_encoded_len(t),
    decreases t.len(),
{
    if t.len() > 0 {
        lemma_data_round_trip(t[0], Seq::empty());
        assert(tuple_wf(t.drop_first())) by {
            assert(forall|i: int|
                0 <= i < t.drop_first().len() ==> t.drop_first()[i] == t[i + 1]);
        }
        lemma_tuple_encode_len(t.drop_first());
    }
}

/// Decoding reads back exactly what encoding wrote, for every conforming row
/// and whatever bytes follow it: the row codec round-trips.
pub proof fn lemma_tuple_round_trip_rest(t: Seq<DataVal>, s: Seq<ColumnV>, rest: Seq<u8>)
    requires
        tuple_conforms(t, s),
        tuple_wf(t),
    ensures
        spec_tuple_decode(spec_tuple_encode(t) + rest, s) == Some(t),
    decreases s.len(),
{
    if s.len() == 0 {
        assert(t =~= Seq::<DataVal>::empty());
    } else {
        let b = spec_tuple_encode(t) + rest;
        let tail = spec_tuple_encode(t.drop_first()) + rest;
        assert(b =~= spec_encode(t[0]) + tail);
        lemma_data_round_trip(t[0], tail);
        assert(spec_decode(b, s[0].datatype) == Some(t[0]));
        assert(b.skip(spec_encoded_len(t[0])) =~= tail);
        assert(tuple_conforms(t.drop_first(), s.drop_first())) by {
            assert(forall|i: int|
                0 <= i < t.drop_first().len() ==> t.drop_first()[i] == t[i + 1]);
            assert(forall|i: int|
                0 <= i < s.drop_first().len() ==> s.drop_first()[i] == s[i + 1]);
        }
        assert(tuple_wf(t.drop_first())) by {
            assert(forall|i: int|
                0 <= i < t.drop_first().len() ==> t.drop_first()[i] == t[i + 1]);
        }
        lemma_tuple_round_trip_rest(t.drop_first(), s.drop_first(), rest);
        assert(seq![t[0]] + t.drop_first() =~= t);
    }
}

/// The row codec round-trips: decoding an encoded row under its schema
/// yields the row.
pub proof fn lemma_tuple_round_trip(t: Seq<DataVal>, s: Seq<ColumnV>)
    requires
        tuple_conforms(t, s),
        tuple_wf(t),
    ensures
        spec_tuple_decode(spec_tuple_encode(t), s) == Some(t),
{
    assert(spec_tuple_encode(t) + Seq::<u8>::empty() =~= spec_tuple_encode(t));
    lemma_tuple_round_trip_rest(t, s, Seq::empty());
}

/// A decoded row conforms to the schema it was decoded under.
pub proof fn lemma_tuple_decode_conforms(b: Seq<u8>, s: Seq<ColumnV>)
    ensures
        match spec_tuple_decode(b, s) {
            Some(t) => tuple_conforms(t, s),
            None => true,
        },
    decreases s.len(),
{
    if s.len() > 0 {
        match spec_decode(b, s[0].datatype) {
            None => {},
            Some(d) => {
                lemma_tuple_decode_conforms(b.skip(spec_encoded_len(d)), s.drop_first());
                match spec_tuple_decode(b.skip(spec_encoded_len(d)), s.drop_first()) {
                    None => {},
                    Some(rest) => {
                        let t = seq![d] + rest;
                        assert(forall|i: int|
                            0 <= i < rest.len() ==> t[i + 1] == rest[i]);
                        assert(forall|i: int|
                            0 <= i < s.drop_first().len() ==> s.drop_first()[i] == s[i + 1]);
                        assert forall|i: int|
                            0 <= i < t.len() implies spec_datatype(#[trigger] t[i])
                            == s[i].datatype by {
                            if i > 0 {
                                assert(t[i] == rest[i - 1]);
                                assert(spec_datatype(rest[i - 1]) == s.drop_first()[i
                                    - 1].datatype);
                            }
                        }
                    },
                }
            },
        }
    }
}

/// A decoded scalar's encoded size never exceeds the buffer it came from.
pub proof fn lemma_decode_len(b: Seq<u8>, ty: DataType)
    ensures
        match spec_decode(b, ty) {
            Some(d) => 1 <= spec_encoded_len(d) <= b.len() && data_wf(d),
            None => true,
        },
{
    if spec_decode(b, ty) is Some && ty is String {
        let n = vstd::bytes::spec_u64_from_le_bytes(b.subrange(0, 8)) as int;
        let payload = b.subrange(8, 8 + n);
        vstd::utf8::decode_utf8_encode_utf8(payload);
    }
}

impl Clone for Tuple {
    fn clone(&self) -> (r: Self)
        ensures
            r@ == self@,
    {
        let n = self.0.len();
        let mut rows: Vec<Data> = Vec::new();
        for i in 0..n
            invariant
                n == self.0.len(),
                rows.deep_view() == self@.take(i as int),
        {
            proof {
                assert(self@.len() == n);
                assert(rows.deep_view().len() == i);
                assert(rows@.len() == i);
            }
            let d = self.0[i].clone();
            let ghost prev = rows@;
            rows.push(d);
            proof {
                assert(rows@.len() == i + 1);
                assert(forall|j: int| 0 <= j < i ==> rows@[j] == prev[j]);
            }
            assert(rows.deep_view() =~= self@.take(i + 1));
        }
        assert(self@.take(n as int) =~= self@);
        Tuple(rows)
    }
}

impl PartialEq for Tuple {
    fn eq(&self, other: &Self) -> (r: bool) {
        if self.0.len() != other.0.len() {
            assert(self@.len() != other@.len());
            return false;
        }
        let n = self.0.len();
        let mut i: usize = 0;
        while i < n
            invariant
                n == self.0.len(),
                n == other.0.len(),
                n == self@.len(),
                n == other@.len(),
                0 <= i <= n,
                forall|j: int| 0 <= j < i ==> self@[j] == other@[j],
            decreases n - i,
        {
            if !(self.0[i].eq(&other.0[i])) {
                assert(self@[i as int] != other@[i as int]);
                return false;
            }
            i = i + 1;
        }
        proof {
            assert(self@ =~= other@);
        }
        true
    }
}

impl vstd::std_specs::cmp::PartialEqSpecImpl for Tuple {
    open spec fn obeys_eq_spec() -> bool {
        true
    }

    open spec fn eq_spec(&self, other: &Self) -> bool {
        self@ == other@
    }
}

impl Tuple {
    /// Create a tuple from its scalars.
    pub fn new(data: Vec<Data>) -> (r: Self)
        ensures
            r@ == data.deep_view(),
    {
        Tuple(data)
    }

    /// The empty tuple.
    pub fn empty() -> (r: Self)
        ensures
            r@ == Seq::<DataVal>::empty(),
    {
        let t = Tuple(Vec::new());
        proof {
            assert(t@ =~= Seq::<DataVal>::empty());
        }
        t
    }

    /// The scalar at position `idx`, or `None` past the end.
    pub fn get(&self, idx: usize) -> (r: Option<&Data>)
        ensures
            match r {
                Some(d) => idx < self@.len() && d.deep_view() == self@[idx as int],
                None => idx >= self@.len(),
            },
    {
        if idx < self.0.len() {
            Some(&self.0[idx])
        } else {
            None
        }
    }

    /// How many scalars the tuple holds.
    pub fn len(&self) -> (r: usize)
        ensures
            r == self@.len(),
    {
        self.0.len()
    }

    /// The scalars themselves, in order.
    pub fn iter(&self) -> (r: &Vec<Data>)
        ensures
            r.deep_view() == self@,
    {
        &self.0
    }

    /// The datatype tags of the scalars, in order.
    pub fn datatypes(&self) -> (r: Vec<DataType>)
        ensures
            r@ == Seq::new(self@.len(), |i: int| spec_datatype(self@[i])),
    {
        let n = self.0.len();
        let mut dts: Vec<DataType> = Vec::new();
        for i in 0..n
            invariant
                n == self.0.len(),
                n == self@.len(),
                dts@ == Seq::new(self@.len(), |j: int| spec_datatype(self@[j])).take(i as int),
        {
            dts.push(self.0[i].datatype());
            assert(dts@ =~= Seq::new(self@.len(), |j: int| spec_datatype(self@[j])).take(i + 1));
        }
        assert(Seq::new(self@.len(), |j: int| spec_datatype(self@[j])).take(n as int) =~= Seq::new(
            self@.len(),
            |j: int| spec_datatype(self@[j]),
        ));
        dts
    }

    /// Encode this tuple into bytes: each scalar's encoding in order.
    /// Decoding the result under a schema the tuple conforms to yields the
    /// tuple back (see [`lemma_tuple_round_trip`]).
    pub fn encode(&self) -> (r: Vec<u8>)
        ensures
            r@ == spec_tuple_encode(self@),
            tuple_wf(self@),
            spec_tuple_encode(self@).len() <= usize::MAX,
    {
        let n = self.0.len();
        let mut buf: Vec<u8> = Vec::new();
        proof {
            assert(self@.take(0) =~= Seq::<DataVal>::empty());
            assert(self@.skip(0) =~= self@);
            assert(spec_tuple_encode(self@.take(0)) =~= Seq::<u8>::empty());
            assert(spec_tuple_encoded_len(self@.take(0)) == 0);
        }
        for i in 0..n
            invariant
                n == self.0.len(),
                n == self@.len(),
                forall|j: int| 0 <= j < i ==> data_wf(#[trigger] self@[j]),
                buf@ == spec_tuple_encode(self@.take(i as int)),
        {
            let mut piece = self.0[i].encode();
            buf.append(&mut piece);
            proof {
                lemma_tuple_encode_push(self@.take(i as int), self@[i as int]);
                assert(self@.take(i as int).push(self@[i as int]) =~= self@.take(i + 1));
            }
        }
        assert(self@.take(n as int) =~= self@);
        let total = buf.len();
        proof {
            assert(total == spec_tuple_encode(self@).len());
        }
        buf
    }

    /// Decode a tuple from the front of `buf` under `schema`; extra trailing
    /// bytes are ignored.  `None` exactly when some column cannot be read.
    pub fn decode(buf: &[u8], schema: &Schema) -> (r: Option<Tuple>)
        ensures
            r.deep_view() == spec_tuple_decode(buf@, schema@),
    {
        let cols = schema.columns();
        let n = cols.len();
        let mut acc: Vec<Data> = Vec::new();
        let mut start: usize = 0;
        proof {
            assert(buf@.skip(0) =~= buf@);
            assert(schema@.skip(0) =~= schema@);
            assert(acc.deep_view() =~= Seq::<DataVal>::empty());
            match spec_tuple_decode(buf@, schema@) {
                None => {},
                Some(rest) => {
                    assert(acc.deep_view() + rest =~= rest);
                },
            }
        }
        for i in 0..n
            invariant
                n == cols.len(),
                n == schema@.len(),
                cols.deep_view() == schema@,
                0 <= start <= buf@.len(),
                spec_tuple_decode(buf@, schema@) == match spec_tuple_decode(
                    buf@.skip(start as int),
                    schema@.skip(i as int),
                ) {
                    None => None::<Seq<DataVal>>,
                    Some(rest) => Some(acc.deep_view() + rest),
                },
        {
            let ghost rem = buf@.skip(start as int);
            let ghost srem = schema@.skip(i as int);
            proof {
                assert(srem[0] == schema@[i as int]);
                assert(cols.deep_view()[i as int] == schema@[i as int]);
            }
            let dt = cols[i].datatype;
            let piece = vstd::slice::slice_subrange(buf, start, buf.len());
            match Data::decode(piece, &dt) {
                None => {
                    proof {
                        assert(spec_decode(rem, srem[0].datatype) is None);
                        assert(spec_tuple_decode(rem, srem) is None);
                    }
                    return None;
                },
                Some(d) => {
                    proof {
                        lemma_decode_len(rem, dt);
                        assert(spec_decode(rem, srem[0].datatype) == Some(d@));
                        assert(srem.drop_first() =~= schema@.skip(i + 1));
                        assert(rem.skip(spec_encoded_len(d@)) =~= buf@.skip(
                            start + spec_encoded_len(d@),
                        ));
                    }
                    let size = d.encode_size();
                    let ghost prev = acc@;
                    let ghost dv = d@;
                    acc.push(d);
                    proof {
                        assert(acc@.len() == prev.len() + 1);
                        assert(forall|j: int| 0 <= j < prev.len() ==> acc@[j] == prev[j]);
                        let accd = acc.deep_view();
                        assert(accd.len() == prev.len() + 1);
                        assert(accd[prev.len() as int] == dv);
                        assert(accd.drop_last() =~= Seq::new(
                            prev.len() as nat,
                            |j: int| prev[j].deep_view(),
                        ));
                        if spec_tuple_decode(buf@.skip(start + size), schema@.skip(
                            i + 1,
                        )) is Some {
                            let rest2 = spec_tuple_decode(
                                buf@.skip(start + size),
                                schema@.skip(i + 1),
                            )->Some_0;
                            assert((Seq::new(prev.len() as nat, |j: int| prev[j].deep_view())
                                + (seq![dv] + rest2)) =~= (accd + rest2));
                        }
                    }
                    start = start + size;
                },
            }
        }
        proof {
            assert(schema@.skip(n as int) =~= Seq::<ColumnV>::empty());
            assert(spec_tuple_decode(buf@.skip(start as int), schema@.skip(n as int))
                == Some(Seq::<DataVal>::empty()));
            assert(acc.deep_view() + Seq::<DataVal>::empty() =~= acc.deep_view());
        }
        Some(Tuple(acc))
    }
}

/// A one-shot, forward-only cursor over the tuples an operator produced.
#[derive(Debug)]
pub struct TupleStream {
    rows: Vec<Tuple>,
    pos: usize,
}

impl TupleStream {
    /// The cursor has not run past its rows.
    pub closed spec fn wf(&self) -> bool {
        self.pos <= self.rows.len()
    }

    /// The tuples not yet handed out.
    pub closed spec fn remaining(&self) -> Seq<Seq<DataVal>> {
        self.rows.deep_view().skip(self.pos as int)
    }

    /// Create a cursor over `rows`.
    pub fn new(rows: Vec<Tuple>) -> (s: Self)
        ensures
            s.wf(),
            s.remaining() == rows.deep_view(),
    {
        let s = TupleStream { rows, pos: 0 };
        proof {
            assert(s.remaining() =~= s.rows.deep_view());
        }
        s
    }

    /// Hand out the next tuple, or `None` at the end.
    pub fn next(&mut self) -> (r: Option<Tuple>)
        requires
            old(self).wf(),
        ensures
            final(self).wf(),
            match r {
                Some(t) => old(self).remaining().len() > 0 && t@ == old(self).remaining()[0]
                    && final(self).remaining() == old(self).remaining().drop_first(),
                None => old(self).remaining().len() == 0 && final(self).remaining() == old(
                    self,
                ).remaining(),
            },
    {
        proof {
            assert(self.rows.deep_view().len() == self.rows@.len());
        }
        if self.pos < self.rows.len() {
            let t = self.rows[self.pos].clone();
            self.pos = self.pos + 1;
            proof {
                assert(t@ == old(self).remaining()[0]);
                assert(self.remaining() =~= old(self).remaining().drop_first());
            }
            Some(t)
        } else {
            None
        }
    }

    /// Drain the cursor into a vector of the remaining tuples.
    pub fn into_rows(self) -> (r: Vec<Tuple>)
        requires
            self.wf(),
        ensures
            r.deep_view() == self.remaining(),
    {
        let TupleStream { rows, pos } = self;
        let n = rows.len();
        let mut out: Vec<Tuple> = Vec::new();
        let mut i: usize = pos;
        proof {
            assert(rows.deep_view().len() == rows@.len());
            assert(out.deep_view() =~= rows.deep_view().subrange(pos as int, pos as int));
        }
        while i < n
            invariant
                n == rows.len(),
                pos <= i <= n,
                out.deep_view() == rows.deep_view().subrange(pos as int, i as int),
            decreases n - i,
        {
            proof {
                assert(rows.deep_view().len() == rows@.len());
                assert(out.deep_view().len() == i - pos);
                assert(out@.len() == i - pos);
            }
            let t = rows[i].clone();
            let ghost prev = out@;
            out.push(t);
            proof {
                assert(out@.len() == prev.len() + 1);
                assert(forall|j: int| 0 <= j < prev.len() ==> out@[j] == prev[j]);
            }
            i = i + 1;
            assert(out.deep_view() =~= rows.deep_view().subrange(pos as int, i as int));
        }
        proof {
            assert(rows.deep_view().subrange(pos as int, n as int) =~= rows.deep_view().skip(
                pos as int,
            ));
        }
        out
    }
}

} // verus!

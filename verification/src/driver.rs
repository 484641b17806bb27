//! The map-decode driver: decoding a whole field schema from the
//! key/value pairs of a source map.
//!
//! Each declared field's key is looked up among the entries and its
//! value is handed to the matching adapter; the first error anywhere
//! aborts the call.  Keys in the source that no field declares are
//! ignored.  The driver never reads an entry twice, so the result
//! depends only on which key/value associations the source holds, not
//! on the order a map hands them out; that independence is proved here.

use vstd::prelude::*;

use crate::decoded::Decoded;
use crate::decoded::DecodedView;
use crate::error::DecodeError;
use crate::error::ErrorView;
use crate::parse::str_eq;
use crate::scalar::decode_scalar;
use crate::scalar::decode_scalar_spec;
use crate::shape::Field;
use crate::shape::FieldView;
use crate::vector::decode_vec;
use crate::vector::decode_vec_spec;

verus! {

/// The value under the first entry whose key is `k`, if any.
pub open spec fn lookup<T>(es: Seq<(Seq<char>, T)>, k: Seq<char>) -> Option<T>
    decreases es.len(),
{
    if es.len() == 0 {
        Option::None
    } else if es[0].0 == k {
        Option::Some(es[0].1)
    } else {
        lookup(es.skip(1), k)
    }
}

/// Whether no two entries share a key, as a source map guarantees.
pub open spec fn distinct_keys<T>(es: Seq<(Seq<char>, T)>) -> bool {
    forall|i: int, j: int| 0 <= i < j < es.len() ==> (#[trigger] es[i]).0 != (#[trigger] es[j]).0
}

/// The model of the entries of a single-valued source map.
pub open spec fn flat_entries_view(es: Seq<(String, String)>) -> Seq<(Seq<char>, Seq<char>)> {
    es.map_values(|p: (String, String)| (p.0@, p.1@))
}

/// The model of the entries of a multi-valued source map.
pub open spec fn multi_entries_view(es: Seq<(String, Vec<String>)>) -> Seq<
    (Seq<char>, Seq<Seq<char>>),
> {
    es.map_values(|p: (String, Vec<String>)| (p.0@, p.1.deep_view()))
}

/// The model of a whole-schema decode result.
pub open spec fn record_result_view(r: Result<Vec<Decoded>, DecodeError>) -> Result<
    Seq<DecodedView>,
    ErrorView,
> {
    match r {
        Ok(ds) => Ok(ds@.map_values(|d: Decoded| d@)),
        Err(e) => Err(e@),
    }
}

/// What decoding the schema `fields` from the single-valued entries
/// `es` yields: for each field in order, the scalar decode of the value
/// under its key, or a missing-field error, or the field's own error.
pub open spec fn decode_fields_flat_spec(
    es: Seq<(Seq<char>, Seq<char>)>,
    fields: Seq<FieldView>,
) -> Result<Seq<DecodedView>, ErrorView>
    decreases fields.len(),
{
    if fields.len() == 0 {
        Ok(Seq::empty())
    } else {
        match lookup(es, fields[0].name) {
            Option::None => Err(ErrorView::Missing(fields[0].name)),
            Option::Some(v) => match decode_scalar_spec(v, fields[0].shape) {
                Ok(d) => match decode_fields_flat_spec(es, fields.skip(1)) {
                    Ok(rest) => Ok(seq![d] + rest),
                    Err(e) => Err(e),
                },
                Err(e) => Err(e),
            },
        }
    }
}

/// What decoding the schema `fields` from the multi-valued entries `es`
/// yields: as for the flat form, with each field's value list handed to
/// the vector adapter.
pub open spec fn decode_fields_multi_spec(
    es: Seq<(Seq<char>, Seq<Seq<char>>)>,
    fields: Seq<FieldView>,
) -> Result<Seq<DecodedView>, ErrorView>
    decreases fields.len(),
{
    if fields.len() == 0 {
        Ok(Seq::empty())
    } else {
        match lookup(es, fields[0].name) {
            Option::None => Err(ErrorView::Missing(fields[0].name)),
            Option::Some(vs) => match decode_vec_spec(vs, fields[0].shape) {
                Ok(d) => match decode_fields_multi_spec(es, fields.skip(1)) {
                    Ok(rest) => Ok(seq![d] + rest),
                    Err(e) => Err(e),
                },
                Err(e) => Err(e),
            },
        }
    }
}

/// Whether two entry sequences hold the same key/value associations,
/// each with unique keys — as two walks of one source map do.
pub open spec fn same_assoc<T>(es1: Seq<(Seq<char>, T)>, es2: Seq<(Seq<char>, T)>) -> bool {
    &&& distinct_keys(es1)
    &&& distinct_keys(es2)
    &&& forall|p: (Seq<char>, T)|
        #![trigger es1.contains(p)]
        #![trigger es2.contains(p)]
        es1.contains(p) <==> es2.contains(p)
}

/// With distinct keys, lookup finds exactly the associations the
/// entries contain.
pub proof fn lemma_lookup_is_assoc<T>(es: Seq<(Seq<char>, T)>, k: Seq<char>)
    requires
        distinct_keys(es),
    ensures
        match lookup(es, k) {
            Option::Some(v) => es.contains((k, v)),
            Option::None => forall|i: int| 0 <= i < es.len() ==> (#[trigger] es[i]).0 != k,
        },
    decreases es.len(),
{
    if es.len() > 0 {
        if es[0].0 == k {
            assert(es[0] == (k, es[0].1));
            assert(es.contains((k, es[0].1)));
        } else {
            assert forall|i: int, j: int| 0 <= i < j < es.skip(1).len() implies (#[trigger] es.skip(
                1,
            )[i]).0 != (#[trigger] es.skip(1)[j]).0 by {
                assert(es.skip(1)[i] == es[i + 1]);
                assert(es.skip(1)[j] == es[j + 1]);
            }
            lemma_lookup_is_assoc(es.skip(1), k);
            match lookup(es.skip(1), k) {
                Option::Some(v) => {
                    let w = choose|w: int|
                        0 <= w < es.skip(1).len() && es.skip(1)[w] == (k, v);
                    assert(es[w + 1] == (k, v));
                    assert(es.contains((k, v)));
                },
                Option::None => {
                    assert forall|i: int| 0 <= i < es.len() implies (#[trigger] es[i]).0 != k by {
                        if i > 0 {
                            assert(es.skip(1)[i - 1] == es[i]);
                        }
                    }
                },
            }
        }
    }
}

/// With distinct keys, a contained association is the one lookup finds.
pub proof fn lemma_lookup_unique<T>(es: Seq<(Seq<char>, T)>, k: Seq<char>, v: T)
    requires
        distinct_keys(es),
        es.contains((k, v)),
    ensures
        lookup(es, k) == Option::Some(v),
{
    lemma_lookup_is_assoc(es, k);
    let i = choose|i: int| 0 <= i < es.len() && es[i] == (k, v);
    match lookup(es, k) {
        Option::None => {
            assert(es[i].0 == k);
            assert(false);
        },
        Option::Some(w) => {
            let j = choose|j: int| 0 <= j < es.len() && es[j] == (k, w);
            if i != j {
                assert(es[i].0 == es[j].0);
                assert(false);
            }
        },
    }
}

/// Entries holding the same associations agree on every lookup.
pub proof fn lemma_lookup_same<T>(es1: Seq<(Seq<char>, T)>, es2: Seq<(Seq<char>, T)>, k: Seq<char>)
    requires
        same_assoc(es1, es2),
    ensures
        lookup(es1, k) == lookup(es2, k),
{
    lemma_lookup_is_assoc(es1, k);
    lemma_lookup_is_assoc(es2, k);
    match lookup(es1, k) {
        Option::Some(v) => {
            assert(es2.contains((k, v)));
            lemma_lookup_unique(es2, k, v);
        },
        Option::None => {
            match lookup(es2, k) {
                Option::Some(w) => {
                    assert(es1.contains((k, w)));
                    let i = choose|i: int| 0 <= i < es1.len() && es1[i] == (k, w);
                    assert(es1[i].0 == k);
                    assert(false);
                },
                Option::None => {},
            }
        },
    }
}

/// Decode determinism over a single-valued source: the result depends
/// only on which key/value associations the source holds, not on the
/// order a map walk hands them out.  Decoding the same source twice
/// therefore produces equal results.
pub proof fn lemma_flat_decode_same_assoc(
    es1: Seq<(Seq<char>, Seq<char>)>,
    es2: Seq<(Seq<char>, Seq<char>)>,
    fields: Seq<FieldView>,
)
    requires
        same_assoc(es1, es2),
    ensures
        decode_fields_flat_spec(es1, fields) == decode_fields_flat_spec(es2, fields),
    decreases fields.len(),
{
    if fields.len() > 0 {
        lemma_lookup_same(es1, es2, fields[0].name);
        lemma_flat_decode_same_assoc(es1, es2, fields.skip(1));
    }
}

/// Decode determinism over a multi-valued source, as for the flat form.
pub proof fn lemma_multi_decode_same_assoc(
    es1: Seq<(Seq<char>, Seq<Seq<char>>)>,
    es2: Seq<(Seq<char>, Seq<Seq<char>>)>,
    fields: Seq<FieldView>,
)
    requires
        same_assoc(es1, es2),
    ensures
        decode_fields_multi_spec(es1, fields) == decode_fields_multi_spec(es2, fields),
    decreases fields.len(),
{
    if fields.len() > 0 {
        lemma_lookup_same(es1, es2, fields[0].name);
        lemma_multi_decode_same_assoc(es1, es2, fields.skip(1));
    }
}

/// Inserting an entry under a key nobody looks up changes no lookup.
pub proof fn lemma_lookup_insert<T>(
    es: Seq<(Seq<char>, T)>,
    i: int,
    p: (Seq<char>, T),
    k: Seq<char>,
)
    requires
        0 <= i <= es.len(),
        k != p.0,
    ensures
        lookup(es.insert(i, p), k) == lookup(es, k),
    decreases i,
{
    if i == 0 {
        assert(es.insert(0, p)[0] == p);
        assert(es.insert(0, p).skip(1) =~= es);
    } else {
        assert(es.insert(i, p)[0] == es[0]);
        assert(es.insert(i, p).skip(1) =~= es.skip(1).insert(i - 1, p));
        if es[0].0 != k {
            lemma_lookup_insert(es.skip(1), i - 1, p, k);
        }
    }
}

/// Unknown-key tolerance over a single-valued source: an entry whose
/// key no declared field names does not change what decoding yields.
pub proof fn lemma_flat_unknown_key_ignored(
    es: Seq<(Seq<char>, Seq<char>)>,
    i: int,
    p: (Seq<char>, Seq<char>),
    fields: Seq<FieldView>,
)
    requires
        0 <= i <= es.len(),
        forall|j: int| 0 <= j < fields.len() ==> (#[trigger] fields[j]).name != p.0,
    ensures
        decode_fields_flat_spec(es.insert(i, p), fields) == decode_fields_flat_spec(es, fields),
    decreases fields.len(),
{
    if fields.len() > 0 {
        lemma_lookup_insert(es, i, p, fields[0].name);
        assert forall|j: int| 0 <= j < fields.skip(1).len() implies (#[trigger] fields.skip(
            1,
        )[j]).name != p.0 by {
            assert(fields.skip(1)[j] == fields[j + 1]);
        }
        lemma_flat_unknown_key_ignored(es, i, p, fields.skip(1));
    }
}

/// Unknown-key tolerance over a multi-valued source, as for the flat
/// form.
pub proof fn lemma_multi_unknown_key_ignored(
    es: Seq<(Seq<char>, Seq<Seq<char>>)>,
    i: int,
    p: (Seq<char>, Seq<Seq<char>>),
    fields: Seq<FieldView>,
)
    requires
        0 <= i <= es.len(),
        forall|j: int| 0 <= j < fields.len() ==> (#[trigger] fields[j]).name != p.0,
    ensures
        decode_fields_multi_spec(es.insert(i, p), fields) == decode_fields_multi_spec(es, fields),
    decreases fields.len(),
{
    if fields.len() > 0 {
        lemma_lookup_insert(es, i, p, fields[0].name);
        assert forall|j: int| 0 <= j < fields.skip(1).len() implies (#[trigger] fields.skip(
            1,
        )[j]).name != p.0 by {
            assert(fields.skip(1)[j] == fields[j + 1]);
        }
        lemma_multi_unknown_key_ignored(es, i, p, fields.skip(1));
    }
}

fn lookup_flat_from(es: &Vec<(String, String)>, name: &String, i: usize) -> (r: Option<usize>)
    requires
        i <= es.len(),
    ensures
        match r {
            Option::Some(j) => i <= j < es.len() && lookup(
                flat_entries_view(es@).skip(i as int),
                name@,
            ) == Option::Some(es@[j as int].1@),
            Option::None => lookup(flat_entries_view(es@).skip(i as int), name@) is None,
        },
    decreases es.len() - i,
{
    let ghost ev = flat_entries_view(es@);
    if i == es.len() {
        assert(ev.skip(i as int).len() == 0);
        Option::None
    } else {
        assert(ev.skip(i as int)[0] == ev[i as int]);
        assert(ev.skip(i as int).skip(1) =~= ev.skip(i + 1));
        if str_eq(es[i].0.as_str(), name.as_str()) {
            Option::Some(i)
        } else {
            lookup_flat_from(es, name, i + 1)
        }
    }
}

fn lookup_multi_from(es: &Vec<(String, Vec<String>)>, name: &String, i: usize) -> (r: Option<
    usize,
>)
    requires
        i <= es.len(),
    ensures
        match r {
            Option::Some(j) => i <= j < es.len() && lookup(
                multi_entries_view(es@).skip(i as int),
                name@,
            ) == Option::Some(es@[j as int].1.deep_view()),
            Option::None => lookup(multi_entries_view(es@).skip(i as int), name@) is None,
        },
    decreases es.len() - i,
{
    let ghost ev = multi_entries_view(es@);
    if i == es.len() {
        assert(ev.skip(i as int).len() == 0);
        Option::None
    } else {
        assert(ev.skip(i as int)[0] == ev[i as int]);
        assert(ev.skip(i as int).skip(1) =~= ev.skip(i + 1));
        if str_eq(es[i].0.as_str(), name.as_str()) {
            Option::Some(i)
        } else {
            lookup_multi_from(es, name, i + 1)
        }
    }
}

fn decode_flat_from(es: &Vec<(String, String)>, fields: &Vec<Field>, i: usize) -> (r: Result<
    Vec<Decoded>,
    DecodeError,
>)
    requires
        i <= fields.len(),
    ensures
        record_result_view(r) == decode_fields_flat_spec(
            flat_entries_view(es@),
            fields@.map_values(|f: Field| f@).skip(i as int),
        ),
    decreases fields.len() - i,
{
    let ghost ev = flat_entries_view(es@);
    let ghost fv = fields@.map_values(|f: Field| f@);
    if i == fields.len() {
        assert(fv.skip(i as int).len() == 0);
        let out: Vec<Decoded> = Vec::new();
        assert(out@.map_values(|d: Decoded| d@) =~= Seq::<DecodedView>::empty());
        Ok(out)
    } else {
        assert(fv.skip(i as int)[0] == fields@[i as int]@);
        assert(fv.skip(i as int).skip(1) =~= fv.skip(i + 1));
        assert(ev.skip(0) =~= ev);
        match lookup_flat_from(es, &fields[i].name, 0) {
            Option::None => Err(DecodeError::Missing(fields[i].name.clone())),
            Option::Some(j) => match decode_scalar(&es[j].1, &fields[i].shape) {
                Ok(d) => {
                    match decode_flat_from(es, fields, i + 1) {
                        Ok(mut rest) => {
                            let ghost rest0 = rest@;
                            rest.insert(0, d);
                            proof {
                                assert(rest@.map_values(|d: Decoded| d@) =~= seq![d@]
                                    + rest0.map_values(|d: Decoded| d@));
                            }
                            Ok(rest)
                        },
                        Err(e) => Err(e),
                    }
                },
                Err(e) => Err(e),
            },
        }
    }
}

fn decode_multi_from(es: &Vec<(String, Vec<String>)>, fields: &Vec<Field>, i: usize) -> (r: Result<
    Vec<Decoded>,
    DecodeError,
>)
    requires
        i <= fields.len(),
    ensures
        record_result_view(r) == decode_fields_multi_spec(
            multi_entries_view(es@),
            fields@.map_values(|f: Field| f@).skip(i as int),
        ),
    decreases fields.len() - i,
{
    let ghost ev = multi_entries_view(es@);
    let ghost fv = fields@.map_values(|f: Field| f@);
    if i == fields.len() {
        assert(fv.skip(i as int).len() == 0);
        let out: Vec<Decoded> = Vec::new();
        assert(out@.map_values(|d: Decoded| d@) =~= Seq::<DecodedView>::empty());
        Ok(out)
    } else {
        assert(fv.skip(i as int)[0] == fields@[i as int]@);
        assert(fv.skip(i as int).skip(1) =~= fv.skip(i + 1));
        assert(ev.skip(0) =~= ev);
        match lookup_multi_from(es, &fields[i].name, 0) {
            Option::None => Err(DecodeError::Missing(fields[i].name.clone())),
            Option::Some(j) => match decode_vec(&es[j].1, &fields[i].shape) {
                Ok(d) => {
                    match decode_multi_from(es, fields, i + 1) {
                        Ok(mut rest) => {
                            let ghost rest0 = rest@;
                            rest.insert(0, d);
                            proof {
                                assert(rest@.map_values(|d: Decoded| d@) =~= seq![d@]
                                    + rest0.map_values(|d: Decoded| d@));
                            }
                            Ok(rest)
                        },
                        Err(e) => Err(e),
                    }
                },
                Err(e) => Err(e),
            },
        }
    }
}

/// Decodes the schema `fields` from the entries of a single-valued
/// source map, one scalar-adapter decode per declared field.
pub fn decode_flat_entries(es: &Vec<(String, String)>, fields: &Vec<Field>) -> (r: Result<
    Vec<Decoded>,
    DecodeError,
>)
    ensures
        record_result_view(r) == decode_fields_flat_spec(
            flat_entries_view(es@),
            fields@.map_values(|f: Field| f@),
        ),
{
    let r = decode_flat_from(es, fields, 0);
    assert(fields@.map_values(|f: Field| f@).skip(0) =~= fields@.map_values(|f: Field| f@));
    r
}

/// Decodes the schema `fields` from the entries of a multi-valued
/// source map, one vector-adapter decode per declared field.
pub fn decode_multi_entries(es: &Vec<(String, Vec<String>)>, fields: &Vec<Field>) -> (r: Result<
    Vec<Decoded>,
    DecodeError,
>)
    ensures
        record_result_view(r) == decode_fields_multi_spec(
            multi_entries_view(es@),
            fields@.map_values(|f: Field| f@),
        ),
{
    let r = decode_multi_from(es, fields, 0);
    assert(fields@.map_values(|f: Field| f@).skip(0) =~= fields@.map_values(|f: Field| f@));
    r
}

} // verus!

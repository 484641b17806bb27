//! Entry points over caller-supplied source maps.
//!
//! A single-valued map is decoded through the scalar adapter, a
//! multi-valued map through the vector adapter.  A map hands its
//! entries out in arbitrary order; the contracts therefore promise the
//! decode of some enumeration of the map's associations, and the
//! determinism lemmas show that every enumeration decodes alike.

use vstd::prelude::*;

use std::collections::HashMap;

use crate::decoded::Decoded;
use crate::driver::decode_fields_flat_spec;
use crate::driver::decode_fields_multi_spec;
use crate::driver::decode_flat_entries;
use crate::driver::decode_multi_entries;
use crate::driver::distinct_keys;
use crate::driver::flat_entries_view;
use crate::driver::lemma_flat_decode_same_assoc;
use crate::driver::lemma_multi_decode_same_assoc;
use crate::driver::multi_entries_view;
use crate::driver::record_result_view;
use crate::driver::same_assoc;
use crate::error::DecodeError;
use crate::shape::Field;
use crate::shape::FieldView;

verus! {

/// The multi-map type of the `multimap` crate, holding an ordered list
/// of values under each key; opaque here, read only through
/// [`multi_map_assoc`] and the entry wrapper.
#[verifier::external_type_specification]
#[verifier::external_body]
#[verifier::reject_recursive_types(K)]
#[verifier::reject_recursive_types(V)]
#[verifier::reject_recursive_types(S)]
pub struct ExMultiMap<K, V, S>(multimap::MultiMap<K, V, S>);

/// The associations a multi-valued source map holds: each key, with its
/// values in insertion order.
pub uninterp spec fn multi_map_assoc(m: multimap::MultiMap<String, String>) -> Map<
    Seq<char>,
    Seq<Seq<char>>,
>;

/// Whether `es` enumerates the associations of `m`: every entry is an
/// association of `m`, each key at most once, and every key of `m`
/// appears.  Order is not constrained: a map walk may hand the keys out
/// any way it likes.
pub open spec fn flat_enumeration_of(
    es: Seq<(Seq<char>, Seq<char>)>,
    m: Map<Seq<char>, Seq<char>>,
) -> bool {
    &&& distinct_keys(es)
    &&& forall|i: int|
        0 <= i < es.len() ==> m.contains_key((#[trigger] es[i]).0) && m[es[i].0] == es[i].1
    &&& forall|k: Seq<char>|
        #[trigger] m.contains_key(k) ==> exists|i: int|
            0 <= i < es.len() && (#[trigger] es[i]).0 == k
}

/// As [`flat_enumeration_of`], for a multi-valued source.
pub open spec fn multi_enumeration_of(
    es: Seq<(Seq<char>, Seq<Seq<char>>)>,
    m: Map<Seq<char>, Seq<Seq<char>>>,
) -> bool {
    &&& distinct_keys(es)
    &&& forall|i: int|
        0 <= i < es.len() ==> m.contains_key((#[trigger] es[i]).0) && m[es[i].0] == es[i].1
    &&& forall|k: Seq<char>|
        #[trigger] m.contains_key(k) ==> exists|i: int|
            0 <= i < es.len() && (#[trigger] es[i]).0 == k
}

/// Relies on std's `HashMap::iter`: it visits every key of the map
/// exactly once, in arbitrary order, each with its value.
#[verifier::external_body]
fn hash_map_entries(m: &HashMap<String, String>) -> (r: Vec<(String, String)>)
    ensures
        flat_enumeration_of(flat_entries_view(r@), m.deep_view()),
{
    let mut out = Vec::new();
    for (k, v) in m.iter() {
        out.push((k.clone(), v.clone()));
    }
    out
}

/// Relies on `multimap::MultiMap::iter_all`: it visits every key of the
/// map exactly once, in arbitrary order, each with its value list in
/// insertion order.
#[verifier::external_body]
fn multi_map_entries(m: &multimap::MultiMap<String, String>) -> (r: Vec<(String, Vec<String>)>)
    ensures
        multi_enumeration_of(multi_entries_view(r@), multi_map_assoc(*m)),
{
    let mut out = Vec::new();
    for (k, vs) in m.iter_all() {
        out.push((k.clone(), vs.clone()));
    }
    out
}

/// Decodes a single-valued string map into the schema `fields`: every
/// key and value wrapped as a scalar adapter, and the schema decoded
/// from some enumeration of the map's associations.
pub fn from_str_map(input: &HashMap<String, String>, fields: &Vec<Field>) -> (r: Result<
    Vec<Decoded>,
    DecodeError,
>)
    ensures
        exists|es: Seq<(Seq<char>, Seq<char>)>|
            #[trigger] flat_enumeration_of(es, input.deep_view()) && record_result_view(r)
                == decode_fields_flat_spec(es, fields@.map_values(|f: Field| f@)),
{
    let es = hash_map_entries(input);
    let r = decode_flat_entries(&es, fields);
    proof {
        assert(flat_enumeration_of(flat_entries_view(es@), input.deep_view()));
    }
    r
}

/// Decodes a multi-valued string map into the schema `fields`: every
/// key wrapped as a scalar adapter and every value list as a vector
/// adapter, and the schema decoded from some enumeration of the map's
/// associations.
pub fn from_str_multi_map(input: &multimap::MultiMap<String, String>, fields: &Vec<Field>) -> (r:
    Result<Vec<Decoded>, DecodeError>)
    ensures
        exists|es: Seq<(Seq<char>, Seq<Seq<char>>)>|
            #[trigger] multi_enumeration_of(es, multi_map_assoc(*input)) && record_result_view(r)
                == decode_fields_multi_spec(es, fields@.map_values(|f: Field| f@)),
{
    let es = multi_map_entries(input);
    let r = decode_multi_entries(&es, fields);
    proof {
        assert(multi_enumeration_of(multi_entries_view(es@), multi_map_assoc(*input)));
    }
    r
}

/// Decode idempotence over a single-valued source: any two enumerations
/// of one map's associations decode to equal results, so two calls of
/// [`from_str_map`] on the same map agree.
pub proof fn lemma_flat_decode_deterministic(
    es1: Seq<(Seq<char>, Seq<char>)>,
    es2: Seq<(Seq<char>, Seq<char>)>,
    m: Map<Seq<char>, Seq<char>>,
    fields: Seq<FieldView>,
)
    requires
        flat_enumeration_of(es1, m),
        flat_enumeration_of(es2, m),
    ensures
        decode_fields_flat_spec(es1, fields) == decode_fields_flat_spec(es2, fields),
{
    assert forall|p: (Seq<char>, Seq<char>)| es1.contains(p) implies es2.contains(p) by {
        let i = choose|i: int| 0 <= i < es1.len() && es1[i] == p;
        assert(m.contains_key(es1[i].0));
        let j = choose|j: int| 0 <= j < es2.len() && es2[j].0 == p.0;
        assert(es2[j] == p);
    }
    assert forall|p: (Seq<char>, Seq<char>)| es2.contains(p) implies es1.contains(p) by {
        let i = choose|i: int| 0 <= i < es2.len() && es2[i] == p;
        assert(m.contains_key(es2[i].0));
        let j = choose|j: int| 0 <= j < es1.len() && es1[j].0 == p.0;
        assert(es1[j] == p);
    }
    assert(same_assoc(es1, es2));
    lemma_flat_decode_same_assoc(es1, es2, fields);
}

/// Decode idempotence over a multi-valued source, as for the flat form.
pub proof fn lemma_multi_decode_deterministic(
    es1: Seq<(Seq<char>, Seq<Seq<char>>)>,
    es2: Seq<(Seq<char>, Seq<Seq<char>>)>,
    m: Map<Seq<char>, Seq<Seq<char>>>,
    fields: Seq<FieldView>,
)
    requires
        multi_enumeration_of(es1, m),
        multi_enumeration_of(es2, m),
    ensures
        decode_fields_multi_spec(es1, fields) == decode_fields_multi_spec(es2, fields),
{
    assert forall|p: (Seq<char>, Seq<Seq<char>>)| es1.contains(p) implies es2.contains(p) by {
        let i = choose|i: int| 0 <= i < es1.len() && es1[i] == p;
        assert(m.contains_key(es1[i].0));
        let j = choose|j: int| 0 <= j < es2.len() && es2[j].0 == p.0;
        assert(es2[j] == p);
    }
    assert forall|p: (Seq<char>, Seq<Seq<char>>)| es2.contains(p) implies es1.contains(p) by {
        let i = choose|i: int| 0 <= i < es2.len() && es2[i] == p;
        assert(m.contains_key(es2[i].0));
        let j = choose|j: int| 0 <= j < es1.len() && es1[j].0 == p.0;
        assert(es1[j] == p);
    }
    assert(same_assoc(es1, es2));
    lemma_multi_decode_same_assoc(es1, es2, fields);
}

} // verus!

//! Laws of header stripping. Both directions strip with `without_name`
//! (see `Service::strip_request` and `ResponseFuture::poll`), so these
//! hold of requests and of responses alike.

use crate::header::{has_name, lemma_without_push, same_name, without_name};
use vstd::prelude::*;

verus! {

/// After stripping, no field carries the name; every field of another name
/// is still there, and nothing else was added.
pub proof fn lemma_stripped_name_absent(fields: Seq<(Seq<u8>, Seq<u8>)>, name: Seq<u8>)
    ensures
        !has_name(without_name(fields, name), name),
        forall|i: int|
            0 <= i < fields.len() && !same_name(#[trigger] fields[i].0, name) ==> without_name(
                fields,
                name,
            ).contains(fields[i]),
        forall|f: (Seq<u8>, Seq<u8>)| #[trigger]
            without_name(fields, name).contains(f) ==> fields.contains(f),
{
    let pred = |f: (Seq<u8>, Seq<u8>)| !same_name(f.0, name);
    let out = without_name(fields, name);
    assert forall|j: int| 0 <= j < out.len() implies !same_name(#[trigger] out[j].0, name) by {
        fields.lemma_filter_pred(pred, j);
    }
    assert forall|i: int|
        0 <= i < fields.len() && !same_name(#[trigger] fields[i].0, name) implies out.contains(
        fields[i],
    ) by {
        fields.lemma_filter_contains(pred, i);
    }
    assert forall|f: (Seq<u8>, Seq<u8>)| #[trigger] out.contains(f) implies fields.contains(f) by {
        fields.lemma_filter_contains_rev(pred, f);
    }
}

/// A message that does not carry the name passes through unchanged.
pub proof fn lemma_strip_absent_is_identity(fields: Seq<(Seq<u8>, Seq<u8>)>, name: Seq<u8>)
    requires
        !has_name(fields, name),
    ensures
        without_name(fields, name) == fields,
    decreases fields.len(),
{
    if fields.len() > 0 {
        let rest = fields.drop_last();
        assert(fields =~= rest.push(fields.last()));
        assert(!same_name(fields[fields.len() - 1].0, name));
        assert forall|i: int| 0 <= i < rest.len() implies !same_name(#[trigger] rest[i].0, name) by {
            assert(rest[i] == fields[i]);
        }
        lemma_strip_absent_is_identity(rest, name);
        lemma_without_push(rest, fields.last(), name);
    } else {
        reveal(Seq::filter);
    }
}

/// Stripping twice with the same name gives what stripping once gives.
pub proof fn lemma_strip_idempotent(fields: Seq<(Seq<u8>, Seq<u8>)>, name: Seq<u8>)
    ensures
        without_name(without_name(fields, name), name) == without_name(fields, name),
{
    lemma_stripped_name_absent(fields, name);
    lemma_strip_absent_is_identity(without_name(fields, name), name);
}

} // verus!

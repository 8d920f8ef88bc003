use vstd::prelude::*;

use crate::finalizer::{after_finalize, after_register, finalize_yield};
use crate::handle::{erase, tagged, NapiRaw, NapiValue, TypeName, JsValue, Value};
use crate::kind::{admits, plain, HandleFacts};
use crate::object::property_annotation;
use crate::property::{closures_of, count_with_closure, lemma_closures_of, PropertyDescriptor};
use crate::value_type::ValueType;

verus! {

/// Whether `sub` occurs in `s` as a contiguous run.
pub open spec fn contains_seq(s: Seq<char>, sub: Seq<char>) -> bool {
    exists|i: int| 0 <= i && i + sub.len() <= s.len() && #[trigger] s.subrange(i, i + sub.len()) == sub
}

/// A name between single quotes.
pub open spec fn quoted(name: Seq<char>) -> Seq<char> {
    seq!['\''] + name + seq!['\'']
}

/// A handle whose runtime kind is `K` passes validation for `K` (and for
/// the universal kind), and fails validation for every other tag.
pub proof fn lemma_validate_by_true_kind(f: HandleFacts, other: ValueType)
    ensures
        admits(plain(f.value_type), f),
        admits(plain(ValueType::Unknown), f),
        other != f.value_type && other != ValueType::Unknown ==> !admits(plain(other), f),
{
}

/// A failed checked read of a named property carries the property's name,
/// between quotes, in its reason.
pub proof fn lemma_annotation_names_property(name: Seq<char>, reason: Seq<char>)
    ensures
        contains_seq(property_annotation(name, reason), quoted(name)),
{
    reveal_strlit("Object property '");
    reveal_strlit("' type mismatch. ");
    let s = property_annotation(name, reason);
    let q = quoted(name);
    assert(s.subrange(16, 16 + q.len() as int) =~= q);
}

/// Defining a batch of descriptors of which some carry closure data, then
/// finalizing the target object, hands back exactly those closures, one per
/// such descriptor, none null; finalizing again hands back nothing, so none
/// is released twice.
pub proof fn lemma_define_then_finalize(
    pending: Map<nat, Seq<usize>>,
    token: nat,
    ds: Seq<PropertyDescriptor>,
)
    requires
        !pending.contains_key(token),
    ensures
        finalize_yield(after_register(pending, token, closures_of(ds)), token) == Some(
            closures_of(ds),
        ),
        closures_of(ds).len() == count_with_closure(ds),
        count_with_closure(ds) <= ds.len(),
        forall|i: int| 0 <= i < closures_of(ds).len() ==> closures_of(ds)[i] != 0,
        finalize_yield(after_finalize(after_register(pending, token, closures_of(ds)), token), token)
            is None,
        after_finalize(after_register(pending, token, closures_of(ds)), token) == pending,
{
    lemma_closures_of(ds);
    assert(pending.insert(token, closures_of(ds)).remove(token) =~= pending);
}

/// A typed handle turned into its raw token and read back as the same kind,
/// from a host that reports the handle's kind truthfully, is the handle it
/// started from.
pub proof fn lemma_round_trip<T: NapiValue>(v: T, facts: HandleFacts)
    requires
        v.spec_value().value_type == T::kind_spec().value_type,
        admits(T::kind_spec(), facts),
    ensures
        tagged(v.spec_value().env, v.spec_raw(), T::kind_spec().value_type) == v.spec_value(),
{
}

/// The handle after erasing its kind `n` times.
pub open spec fn erase_times(v: Value, n: nat) -> Value
    decreases n,
{
    if n == 0 {
        v
    } else {
        erase(erase_times(v, (n - 1) as nat))
    }
}

/// Erasing a handle's kind, any number of times, keeps the context and the
/// host token; validation for the handle's true kind still succeeds, since
/// it reads only what the host reports of the token.
pub proof fn lemma_erase_then_validate(v: Value, n: nat, f: HandleFacts)
    requires
        f.value_type == v.value_type,
    ensures
        erase_times(v, n).env == v.env,
        erase_times(v, n).value == v.value,
        n > 0 ==> erase_times(v, n).value_type == ValueType::Unknown,
        admits(plain(v.value_type), f),
    decreases n,
{
    if n > 0 {
        lemma_erase_then_validate(v, (n - 1) as nat, f);
    }
}

} // verus!

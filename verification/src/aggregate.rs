//! The aggregation stage: select the fields of the supply mapping whose key
//! carries the supply prefix, coerce each selected value to a finite 64-bit
//! float under a strict policy, and hand the contributions back for the host
//! to sum. A mapping with no qualifying key is a failure, never a zero
//! supply, and the first value that resists coercion aborts the whole
//! aggregation with the offending key.

use vstd::prelude::*;
use crate::bits::bits_is_finite;
use crate::bits::bits_finite;
use crate::errors::CheckTetherSupplyCommandRunError;
use crate::errors::SupplyValueParseError;
use crate::model::JsonField;
use crate::model::JsonNumber;
use crate::model::JsonValue;
use crate::model::NumericParse;
use crate::model::UncoercibleKind;

verus! {

/// The prefix that selects a supply field, matched case-sensitively at the
/// start of the key; any suffix qualifies.
pub open spec fn supply_key_prefix() -> Seq<char> {
    "totaltokens"@
}

/// Does this key select its field for aggregation?
pub open spec fn is_supply_key(name: Seq<char>) -> bool {
    name.len() >= supply_key_prefix().len() && name.subrange(
        0,
        supply_key_prefix().len() as int,
    ) == supply_key_prefix()
}

/// Decides whether a key carries the supply prefix.
pub fn key_is_supply_field(name: &str) -> (r: bool)
    ensures
        r == is_supply_key(name@),
{
    proof {
        reveal_strlit("totaltokens");
    }
    let prefix: &str = "totaltokens";
    let prefix_len: usize = prefix.unicode_len();
    let name_len: usize = name.unicode_len();
    if name_len < prefix_len {
        return false;
    }
    let mut i: usize = 0;
    while i < prefix_len
        invariant
            prefix@ == supply_key_prefix(),
            prefix_len == prefix@.len(),
            name_len == name@.len(),
            name_len >= prefix_len,
            i <= prefix_len,
            forall|j: int| 0 <= j < i ==> name@[j] == prefix@[j],
        decreases prefix_len - i,
    {
        if name.get_char(i) != prefix.get_char(i) {
            proof {
                assert(name@.subrange(0, supply_key_prefix().len() as int)[i as int]
                    != supply_key_prefix()[i as int]);
            }
            return false;
        }
        i += 1;
    }
    proof {
        assert(name@.subrange(0, supply_key_prefix().len() as int) =~= supply_key_prefix());
    }
    true
}

/// Does this value coerce to a finite 64-bit float under the aggregation
/// policy?
pub open spec fn value_coercible(v: JsonValue) -> bool {
    match v {
        JsonValue::Number(JsonNumber::Representable { bits }) => bits_is_finite(bits),
        JsonValue::Text { value: _, parse: NumericParse::Parsed { bits } } => bits_is_finite(bits),
        _ => false,
    }
}

/// The bit pattern a coercible value coerces to.
pub open spec fn coerced_bits(v: JsonValue) -> u64 {
    match v {
        JsonValue::Number(JsonNumber::Representable { bits }) => bits,
        JsonValue::Text { value: _, parse: NumericParse::Parsed { bits } } => bits,
        _ => 0,
    }
}

/// Does this error describe exactly why the value resists coercion?
pub open spec fn coercion_defect(v: JsonValue, e: SupplyValueParseError) -> bool {
    match v {
        JsonValue::Number(JsonNumber::Representable { bits }) => !bits_is_finite(bits) && e == (
        SupplyValueParseError::NonFinite { bits }),
        JsonValue::Number(JsonNumber::OutOfRange { rendered }) => match e {
            SupplyValueParseError::NumberOutOfRange { value } => value@ == rendered@,
            _ => false,
        },
        JsonValue::Text { value: text, parse: NumericParse::Parsed { bits } } => !bits_is_finite(
            bits,
        ) && e == (SupplyValueParseError::NonFinite { bits }),
        JsonValue::Text { value: text, parse: NumericParse::Failed { message } } => match e {
            SupplyValueParseError::InvalidString { value, message: m } => value@ == text@ && m@
                == message@,
            _ => false,
        },
        JsonValue::Bool(_) => e == (SupplyValueParseError::UnsupportedType {
            value_type: UncoercibleKind::Bool,
        }),
        JsonValue::Array(_) => e == (SupplyValueParseError::UnsupportedType {
            value_type: UncoercibleKind::Array,
        }),
        JsonValue::Object(_) => e == (SupplyValueParseError::UnsupportedType {
            value_type: UncoercibleKind::Object,
        }),
        JsonValue::Null => e == (SupplyValueParseError::UnsupportedType {
            value_type: UncoercibleKind::Null,
        }),
    }
}

/// Coerces one field value to the bit pattern of a finite 64-bit float, or
/// reports exactly why it cannot be.
pub fn coerce_value(v: &JsonValue) -> (r: Result<u64, SupplyValueParseError>)
    ensures
        match r {
            Ok(bits) => value_coercible(*v) && bits == coerced_bits(*v),
            Err(e) => !value_coercible(*v) && coercion_defect(*v, e),
        },
{
    match v {
        JsonValue::Number(JsonNumber::Representable { bits }) => {
            if bits_finite(*bits) {
                Ok(*bits)
            } else {
                Err(SupplyValueParseError::NonFinite { bits: *bits })
            }
        },
        JsonValue::Number(JsonNumber::OutOfRange { rendered }) => Err(
            SupplyValueParseError::NumberOutOfRange { value: rendered.clone() },
        ),
        JsonValue::Text { value: _, parse: NumericParse::Parsed { bits } } => {
            if bits_finite(*bits) {
                Ok(*bits)
            } else {
                Err(SupplyValueParseError::NonFinite { bits: *bits })
            }
        },
        JsonValue::Text { value, parse: NumericParse::Failed { message } } => Err(
            SupplyValueParseError::InvalidString {
                value: value.clone(),
                message: message.clone(),
            },
        ),
        JsonValue::Bool(_) => Err(
            SupplyValueParseError::UnsupportedType { value_type: UncoercibleKind::Bool },
        ),
        JsonValue::Array(_) => Err(
            SupplyValueParseError::UnsupportedType { value_type: UncoercibleKind::Array },
        ),
        JsonValue::Object(_) => Err(
            SupplyValueParseError::UnsupportedType { value_type: UncoercibleKind::Object },
        ),
        JsonValue::Null => Err(
            SupplyValueParseError::UnsupportedType { value_type: UncoercibleKind::Null },
        ),
    }
}

/// Does the field's key select it for aggregation?
pub open spec fn field_qualifies(f: JsonField) -> bool {
    is_supply_key(f.name@)
}

/// A qualifying field either coerces, or the aggregation fails on it.
pub open spec fn field_acceptable(f: JsonField) -> bool {
    field_qualifies(f) ==> value_coercible(f.value)
}

/// Does at least one field of the mapping qualify?
pub open spec fn has_supply_field(fields: Seq<JsonField>) -> bool {
    exists|i: int| 0 <= i < fields.len() && field_qualifies(#[trigger] fields[i])
}

/// Does every qualifying field of the mapping coerce?
pub open spec fn all_fields_acceptable(fields: Seq<JsonField>) -> bool {
    forall|i: int| 0 <= i < fields.len() ==> field_acceptable(#[trigger] fields[i])
}

/// The contributions the mapping aggregates: the coerced bit patterns of the
/// qualifying fields' values, in the order the fields are listed.
pub open spec fn contribution_bits(fields: Seq<JsonField>) -> Seq<u64>
    decreases fields.len(),
{
    if fields.len() == 0 {
        Seq::empty()
    } else {
        contribution_bits(fields.drop_last()) + (if field_qualifies(fields.last()) {
            seq![coerced_bits(fields.last().value)]
        } else {
            Seq::<u64>::empty()
        })
    }
}

/// Selects and coerces the supply fields of the mapping, returning the bit
/// patterns of the finite 64-bit floats to sum. Fails with `NoSupplyFields`
/// exactly when no key qualifies, and with `InvalidSupplyValue` on the first
/// qualifying field, in listed order, whose value resists coercion.
pub fn collect_contributions(fields: &Vec<JsonField>) -> (r: Result<
    Vec<u64>,
    CheckTetherSupplyCommandRunError,
>)
    ensures
        match r {
            Ok(bits) => {
                &&& has_supply_field(fields@)
                &&& all_fields_acceptable(fields@)
                &&& bits@ == contribution_bits(fields@)
            },
            Err(e) => match e {
                CheckTetherSupplyCommandRunError::NoSupplyFields => !has_supply_field(fields@),
                CheckTetherSupplyCommandRunError::InvalidSupplyValue { key, source } => exists|
                    i: int,
                |
                    {
                        &&& 0 <= i < fields@.len()
                        &&& field_qualifies(#[trigger] fields@[i])
                        &&& !value_coercible(fields@[i].value)
                        &&& key@ == fields@[i].name@
                        &&& coercion_defect(fields@[i].value, source)
                        &&& forall|j: int|
                            0 <= j < i ==> field_acceptable(#[trigger] fields@[j])
                    },
                _ => false,
            },
        },
{
    let mut total: Vec<u64> = Vec::new();
    let mut seen: bool = false;
    let mut i: usize = 0;
    while i < fields.len()
        invariant
            i <= fields@.len(),
            seen == has_supply_field(fields@.take(i as int)),
            all_fields_acceptable(fields@.take(i as int)),
            total@ == contribution_bits(fields@.take(i as int)),
            forall|j: int| 0 <= j < i ==> field_acceptable(#[trigger] fields@[j]),
        decreases fields@.len() - i,
    {
        let field = &fields[i];
        proof {
            assert(fields@.take(i + 1 as int).drop_last() =~= fields@.take(i as int));
            assert(fields@.take(i + 1 as int).last() == fields@[i as int]);
        }
        if key_is_supply_field(field.name.as_str()) {
            seen = true;
            match coerce_value(&field.value) {
                Ok(bits) => {
                    total.push(bits);
                },
                Err(source) => {
                    return Err(
                        CheckTetherSupplyCommandRunError::InvalidSupplyValue {
                            key: field.name.clone(),
                            source,
                        },
                    );
                },
            }
            proof {
                assert(field_qualifies(fields@.take(i + 1 as int).last()));
            }
        }
        i += 1;
        proof {
            if seen {
                assert(has_supply_field(fields@.take(i as int)));
            } else {
                assert forall|k: int|
                    0 <= k < i implies !field_qualifies(#[trigger] fields@.take(i as int)[k]) by {
                    if 0 <= k < i - 1 {
                        assert(fields@.take(i as int)[k] == fields@.take(i - 1 as int)[k]);
                        assert(!has_supply_field(fields@.take(i - 1 as int)));
                    }
                }
            }
        }
    }
    proof {
        assert(fields@.take(fields@.len() as int) =~= fields@);
    }
    if !seen {
        return Err(CheckTetherSupplyCommandRunError::NoSupplyFields);
    }
    Ok(total)
}

/// A mapping whose only qualifying field holds a coercible value aggregates
/// to exactly that value: the contribution list is the singleton of its
/// coerced bit pattern, so the sum is the value itself.
pub proof fn lemma_single_supply_field(fields: Seq<JsonField>, i: int)
    requires
        0 <= i < fields.len(),
        field_qualifies(fields[i]),
        forall|j: int| 0 <= j < fields.len() && j != i ==> !field_qualifies(#[trigger] fields[j]),
    ensures
        contribution_bits(fields) == seq![coerced_bits(fields[i].value)],
    decreases fields.len(),
{
    if i == fields.len() - 1 {
        lemma_no_supply_fields(fields.drop_last());
        assert(contribution_bits(fields) =~= seq![coerced_bits(fields[i].value)]);
    } else {
        lemma_single_supply_field(fields.drop_last(), i);
        assert(contribution_bits(fields) =~= seq![coerced_bits(fields[i].value)]);
    }
}

/// A mapping with no qualifying field contributes nothing.
pub proof fn lemma_no_supply_fields(fields: Seq<JsonField>)
    requires
        forall|j: int| 0 <= j < fields.len() ==> !field_qualifies(#[trigger] fields[j]),
    ensures
        contribution_bits(fields) == Seq::<u64>::empty(),
    decreases fields.len(),
{
    if fields.len() > 0 {
        lemma_no_supply_fields(fields.drop_last());
        assert(contribution_bits(fields) =~= Seq::<u64>::empty());
    }
}

/// A qualifying field of boolean, array, object or null kind is never
/// coerced: aggregation cannot succeed on a mapping that lists one, and the
/// only failure that describes such a field is the unsupported-type failure
/// naming its kind.
pub proof fn lemma_uncoercible_kind_fails(fields: Seq<JsonField>, i: int)
    requires
        0 <= i < fields.len(),
        field_qualifies(fields[i]),
        fields[i].value is Bool || fields[i].value is Array || fields[i].value is Object
            || fields[i].value is Null,
    ensures
        !all_fields_acceptable(fields),
        forall|e: SupplyValueParseError|
            coercion_defect(fields[i].value, e) ==> e matches
                SupplyValueParseError::UnsupportedType { value_type: _ },
{
    assert(!field_acceptable(fields[i]));
}

/// A qualifying field whose string value fails float parsing is never
/// coerced: aggregation cannot succeed on a mapping that lists one, and the
/// only failure that describes such a field is the invalid-string failure
/// carrying the offending text and the parser's diagnostic.
pub proof fn lemma_unparsable_text_fails(fields: Seq<JsonField>, i: int)
    requires
        0 <= i < fields.len(),
        field_qualifies(fields[i]),
        fields[i].value matches JsonValue::Text { value: _, parse: NumericParse::Failed {
            message: _,
        } },
    ensures
        !all_fields_acceptable(fields),
        forall|e: SupplyValueParseError|
            coercion_defect(fields[i].value, e) ==> (e matches
            SupplyValueParseError::InvalidString { value: v, message: _ } && v@ == match fields[
                i].value {
                JsonValue::Text { value, parse: _ } => value@,
                _ => Seq::<char>::empty(),
            }),
{
    assert(!field_acceptable(fields[i]));
}

/// Contributions distribute over concatenation of field listings.
pub proof fn lemma_contributions_concat(a: Seq<JsonField>, b: Seq<JsonField>)
    ensures
        contribution_bits(a + b) == contribution_bits(a) + contribution_bits(b),
    decreases b.len(),
{
    if b.len() == 0 {
        assert(a + b =~= a);
        assert(contribution_bits(a) + contribution_bits(b) =~= contribution_bits(a));
    } else {
        lemma_contributions_concat(a, b.drop_last());
        assert((a + b).drop_last() =~= a + b.drop_last());
        assert((a + b).last() == b.last());
        assert(contribution_bits(a + b) =~= contribution_bits(a) + contribution_bits(b));
    }
}

/// Aggregation does not depend on the order in which the mapping lists its
/// fields: two listings holding the same fields, in any order, yield the
/// same collection of contributions (and so, addition being commutative,
/// the same aggregate).
pub proof fn lemma_contributions_permutation(a: Seq<JsonField>, b: Seq<JsonField>)
    requires
        a.to_multiset() == b.to_multiset(),
    ensures
        contribution_bits(a).to_multiset() == contribution_bits(b).to_multiset(),
    decreases a.len(),
{
    broadcast use vstd::seq_lib::group_to_multiset_ensures;

    if a.len() == 0 {
        assert(a.len() == a.to_multiset().len());
        assert(b.len() == b.to_multiset().len());
    } else {
        let x = a.last();
        assert(a.contains(x));
        assert(a.to_multiset().count(x) > 0);
        assert(b.contains(x));
        let j = choose|j: int| 0 <= j < b.len() && b[j] == x;
        assert(a.drop_last() =~= a.remove(a.len() - 1));
        assert(a.remove(a.len() - 1).to_multiset() =~= a.to_multiset().remove(x));
        assert(b.remove(j).to_multiset() =~= b.to_multiset().remove(x));
        lemma_contributions_permutation(a.drop_last(), b.remove(j));
        let front = b.subrange(0, j);
        let back = b.subrange(j + 1, b.len() as int);
        assert(b =~= front + (seq![x] + back));
        assert(b.remove(j) =~= front + back);
        lemma_contributions_concat(front, seq![x] + back);
        lemma_contributions_concat(seq![x], back);
        lemma_contributions_concat(front, back);
        lemma_contributions_concat(a.drop_last(), seq![x]);
        assert(a =~= a.drop_last() + seq![x]);
        vstd::seq_lib::lemma_multiset_commutative(
            contribution_bits(front),
            contribution_bits(seq![x]) + contribution_bits(back),
        );
        vstd::seq_lib::lemma_multiset_commutative(
            contribution_bits(seq![x]),
            contribution_bits(back),
        );
        vstd::seq_lib::lemma_multiset_commutative(
            contribution_bits(front),
            contribution_bits(back),
        );
        vstd::seq_lib::lemma_multiset_commutative(
            contribution_bits(a.drop_last()),
            contribution_bits(seq![x]),
        );
        assert(contribution_bits(a).to_multiset() =~= contribution_bits(b).to_multiset());
    }
}

} // verus!

//! The field-annotation grammar: classifies one type-annotation string
//! into a reference form, a plain value type, or a parameterized value
//! type. Classification is a pure function of the annotation text.

use vstd::prelude::*;

use crate::Error;
use crate::text::{split_colon, split_colon_spec, str_eq, strings_view};

verus! {

/// Classification of one field's type annotation.
pub enum FieldType {
    /// A foreign key to another model's default identifier.
    Reference,
    /// A foreign key naming a non-default target field.
    ReferenceWithCustomField(String),
    /// A foreign key that may hold no value.
    NullableReference,
    /// A nullable foreign key naming a non-default target field.
    NullableReferenceWithCustomField(String),
    /// A bare value type.
    Type(String),
    /// A value type with auxiliary parameters.
    TypeWithParameters(String, Vec<String>),
}

/// The mathematical shape of a classification, over character sequences.
#[verifier::ext_equal]
pub enum FieldTypeView {
    Reference,
    ReferenceWithCustomField(Seq<char>),
    NullableReference,
    NullableReferenceWithCustomField(Seq<char>),
    Plain(Seq<char>),
    Parameterized(Seq<char>, Seq<Seq<char>>),
}

impl View for FieldType {
    type V = FieldTypeView;

    open spec fn view(&self) -> FieldTypeView {
        match self {
            FieldType::Reference => FieldTypeView::Reference,
            FieldType::ReferenceWithCustomField(l) => FieldTypeView::ReferenceWithCustomField(l@),
            FieldType::NullableReference => FieldTypeView::NullableReference,
            FieldType::NullableReferenceWithCustomField(l) => {
                FieldTypeView::NullableReferenceWithCustomField(l@)
            },
            FieldType::Type(t) => FieldTypeView::Plain(t@),
            FieldType::TypeWithParameters(t, ps) => {
                FieldTypeView::Parameterized(t@, strings_view(ps@))
            },
        }
    }
}

/// What an annotation string denotes: its segments between `:` separators
/// decide between the reference forms, a plain type, and a parameterized
/// type whose parameters are the segments after the first.
pub open spec fn classify(s: Seq<char>) -> FieldTypeView {
    let parts = split_colon_spec(s);
    if parts.len() == 1 {
        if s == "references"@ {
            FieldTypeView::Reference
        } else if s == "references?"@ {
            FieldTypeView::NullableReference
        } else {
            FieldTypeView::Plain(s)
        }
    } else if parts.len() == 2 && parts[0] == "references"@ {
        FieldTypeView::ReferenceWithCustomField(parts[1])
    } else if parts.len() == 2 && parts[0] == "references?"@ {
        FieldTypeView::NullableReferenceWithCustomField(parts[1])
    } else {
        FieldTypeView::Parameterized(parts[0], parts.drop_first())
    }
}

/// Parses one type annotation into its classification. Every annotation
/// has a classification, so the call always succeeds; the `Result` shape
/// is the caller-facing contract of the grammar.
pub fn parse_field_type(ftype: &str) -> (r: Result<FieldType, Error>)
    ensures
        r matches Ok(ft) && ft@ == classify(ftype@),
{
    let parts = split_colon(ftype);
    let ghost part_views = strings_view(parts@);
    proof {
        crate::text::lemma_split_colon_len(ftype@);
    }
    if parts.len() == 1 {
        if str_eq(ftype, "references") {
            Ok(FieldType::Reference)
        } else if str_eq(ftype, "references?") {
            Ok(FieldType::NullableReference)
        } else {
            Ok(FieldType::Type(ftype.to_owned()))
        }
    } else if parts.len() == 2 && str_eq(parts[0].as_str(), "references") {
        Ok(FieldType::ReferenceWithCustomField(parts[1].clone()))
    } else if parts.len() == 2 && str_eq(parts[0].as_str(), "references?") {
        Ok(FieldType::NullableReferenceWithCustomField(parts[1].clone()))
    } else {
        let base = parts[0].clone();
        let mut params: Vec<String> = Vec::new();
        let mut i: usize = 1;
        while i < parts.len()
            invariant
                1 <= i <= parts.len(),
                part_views == strings_view(parts@),
                part_views.len() == parts.len(),
                strings_view(params@) == part_views.subrange(1, i as int),
            decreases parts.len() - i,
        {
            proof {
                let pushed = params@.push(parts@[i as int]);
                assert(strings_view(params@).len() == params@.len());
                assert(pushed.len() == i as int);
                assert forall|j: int| 0 <= j < i as int implies strings_view(pushed)[j]
                    == part_views.subrange(1, i as int + 1)[j] by {
                    assert(part_views.subrange(1, i as int + 1)[j] == part_views[j + 1]);
                    if j < i - 1 {
                        assert(strings_view(params@)[j] == part_views.subrange(1, i as int)[j]);
                        assert(strings_view(pushed)[j] == params@[j]@);
                    } else {
                        assert(strings_view(pushed)[j] == parts@[i as int]@);
                        assert(part_views[j + 1] == parts@[i as int]@);
                    }
                }
                assert(strings_view(pushed) =~= part_views.subrange(1, i as int + 1));
            }
            params.push(parts[i].clone());
            i = i + 1;
        }
        let r = FieldType::TypeWithParameters(base, params);
        proof {
            assert(part_views.subrange(1, part_views.len() as int) =~~= part_views.drop_first());
            assert(r@ =~~= classify(ftype@));
        }
        Ok(r)
    }
}

} // verus!

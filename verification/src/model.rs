//! The column/reference resolver: consumes the ordered field list of a
//! model, drops names the host framework manages automatically, and
//! produces the ordered column and reference lists for the template,
//! failing on the first field whose annotation cannot be resolved.

use vstd::prelude::*;
use vstd::slice::slice_index_get;

use crate::Error;
use crate::infer::{FieldType, FieldTypeView, classify, parse_field_type};
use crate::mappings::{get_mappings, lookup_spec, seeded_mappings, unrecognized_message_spec};
use crate::text::{
    append_decimal, dec_of, join_comma, join_comma_spec, str_eq, strings_view,
};

verus! {

/// The views of a sequence of string pairs.
pub open spec fn pairs_view(v: Seq<(String, String)>) -> Seq<(Seq<char>, Seq<char>)> {
    Seq::new(v.len(), |i: int| (v[i].0@, v[i].1@))
}

proof fn lemma_pairs_view_push(v: Seq<(String, String)>, x: (String, String))
    ensures
        pairs_view(v.push(x)) == pairs_view(v).push((x.0@, x.1@)),
{
    assert forall|j: int| 0 <= j < v.len() + 1 implies pairs_view(v.push(x))[j] == pairs_view(
        v,
    ).push((x.0@, x.1@))[j] by {
        if j < v.len() {
            assert(pairs_view(v)[j] == (v[j].0@, v[j].1@));
        }
    }
    assert(pairs_view(v.push(x)) =~= pairs_view(v).push((x.0@, x.1@)));
}

/// Whether a field name is on the ignore list: a timestamp column the
/// host framework generates automatically.
pub open spec fn ignored_name(name: Seq<char>) -> bool {
    ||| name == "created_at"@
    ||| name == "updated_at"@
    ||| name == "create_at"@
    ||| name == "update_at"@
}

/// Tests a field name against the ignore list.
pub fn is_ignored_field(name: &str) -> (r: bool)
    ensures
        r == ignored_name(name@),
{
    str_eq(name, "created_at") || str_eq(name, "updated_at") || str_eq(name, "create_at")
        || str_eq(name, "update_at")
}

/// The reserved field names the resolver drops, in their fixed order.
pub fn ignore_field_names() -> (r: Vec<&'static str>)
    ensures
        r@.len() == 4,
        r@[0]@ == "created_at"@,
        r@[1]@ == "updated_at"@,
        r@[2]@ == "create_at"@,
        r@[3]@ == "update_at"@,
        forall|i: int| 0 <= i < 4 ==> ignored_name(#[trigger] r@[i]@),
{
    let mut v: Vec<&'static str> = Vec::new();
    v.push("created_at");
    v.push("updated_at");
    v.push("create_at");
    v.push("update_at");
    v
}

/// The upper-camel-case word form of a name, as the case-conversion
/// dependency computes it.
pub uninterp spec fn upper_camel_of(s: Seq<char>) -> Seq<char>;

/// Relies on heck's `ToUpperCamelCase` for `str`: the result is computed
/// from the input characters alone.
#[verifier::external_body]
fn to_upper_camel(s: &str) -> (r: String)
    ensures
        r@ == upper_camel_of(s@),
{
    heck::ToUpperCamelCase::to_upper_camel_case(s)
}

/// Whether a base type name is one of the array-family spellings.
pub open spec fn is_array_family(t: Seq<char>) -> bool {
    ||| t == "array"@
    ||| t == "array!"@
    ||| t == "array^"@
}

fn is_array_type(t: &str) -> (r: bool)
    ensures
        r == is_array_family(t@),
{
    str_eq(t, "array") || str_eq(t, "array!") || str_eq(t, "array^")
}

/// The column expression of an array-family field: the concrete type
/// applied to the element kind in upper camel case.
pub open spec fn array_column_expr_spec(col_type: Seq<char>, element: Seq<char>) -> Seq<char> {
    col_type + "(ArrayColType::"@ + upper_camel_of(element) + ")"@
}

fn array_column_expr(col_type: String, element: &str) -> (r: String)
    ensures
        r@ == array_column_expr_spec(col_type@, element@),
{
    let ghost ct0 = col_type@;
    let mut out = col_type;
    let camel = to_upper_camel(element);
    proof {
        reveal_strlit("(ArrayColType::");
        reveal_strlit(")");
    }
    out.append("(ArrayColType::");
    out.append(camel.as_str());
    out.append(")");
    proof {
        assert(out@ =~= array_column_expr_spec(ct0, element@));
    }
    out
}

/// The column expression of any other parameterized field: the concrete
/// type applied to the comma-joined parameters.
pub open spec fn param_column_expr_spec(col_type: Seq<char>, params: Seq<Seq<char>>) -> Seq<char> {
    col_type + "("@ + join_comma_spec(params) + ")"@
}

fn param_column_expr(col_type: String, params: &Vec<String>) -> (r: String)
    ensures
        r@ == param_column_expr_spec(col_type@, strings_view(params@)),
{
    let ghost ct0 = col_type@;
    let mut out = col_type;
    let joined = join_comma(params);
    proof {
        reveal_strlit("(");
        reveal_strlit(")");
    }
    out.append("(");
    out.append(joined.as_str());
    out.append(")");
    proof {
        assert(out@ =~= param_column_expr_spec(ct0, strings_view(params@)));
    }
    out
}

/// The message of a parameter-count violation.
pub open spec fn arity_message_spec(t: Seq<char>, arity: nat, params: Seq<Seq<char>>) -> Seq<
    char,
> {
    "type: `"@ + t + "` requires specifying "@ + dec_of(arity) + " parameters, but only "@ + dec_of(
        params.len(),
    ) + " were given (`"@ + join_comma_spec(params) + "`)."@
}

fn arity_error(t: &str, arity: usize, params: &Vec<String>) -> (r: Error)
    ensures
        r@ == arity_message_spec(t@, arity as nat, strings_view(params@)),
{
    let mut m = String::new();
    proof {
        reveal_strlit("type: `");
        reveal_strlit("` requires specifying ");
        reveal_strlit(" parameters, but only ");
        reveal_strlit(" were given (`");
        reveal_strlit("`).");
    }
    m.append("type: `");
    m.append(t);
    m.append("` requires specifying ");
    append_decimal(&mut m, arity);
    m.append(" parameters, but only ");
    append_decimal(&mut m, params.len());
    m.append(" were given (`");
    let joined = join_comma(params);
    m.append(joined.as_str());
    m.append("`).");
    proof {
        assert(strings_view(params@).len() == params@.len());
        assert(m@ =~= arity_message_spec(t@, arity as nat, strings_view(params@)));
    }
    Error::Message(m)
}

/// The message of an array-family parameter-count violation, aware of
/// singular and plural.
pub open spec fn array_arity_message_spec(t: Seq<char>, arity: nat, params: Seq<Seq<char>>) -> Seq<
    char,
> {
    "type: `"@ + t + "` requires exactly "@ + dec_of(arity) + " parameter"@ + (if arity == 1 {
        Seq::<char>::empty()
    } else {
        "s"@
    }) + ", but "@ + dec_of(params.len()) + " were given (`"@ + join_comma_spec(params) + "`)."@
}

fn array_arity_error(t: &str, arity: usize, params: &Vec<String>) -> (r: Error)
    ensures
        r@ == array_arity_message_spec(t@, arity as nat, strings_view(params@)),
{
    let mut m = String::new();
    proof {
        reveal_strlit("type: `");
        reveal_strlit("` requires exactly ");
        reveal_strlit(" parameter");
        reveal_strlit("s");
        reveal_strlit(", but ");
        reveal_strlit(" were given (`");
        reveal_strlit("`).");
    }
    m.append("type: `");
    m.append(t);
    m.append("` requires exactly ");
    append_decimal(&mut m, arity);
    m.append(" parameter");
    if arity != 1 {
        m.append("s");
    }
    m.append(", but ");
    append_decimal(&mut m, params.len());
    m.append(" were given (`");
    let joined = join_comma(params);
    m.append(joined.as_str());
    m.append("`).");
    proof {
        assert(strings_view(params@).len() == params@.len());
        assert(m@ =~= array_arity_message_spec(t@, arity as nat, strings_view(params@)));
    }
    Error::Message(m)
}

/// What one field contributes to the output: nothing, a column, a
/// reference, or the failure that aborts resolution.
pub enum FieldResolution {
    Skipped,
    Column(Seq<char>, Seq<char>),
    Ref(Seq<char>, Seq<char>),
    Failed(Seq<char>),
}

/// The contribution of one (name, annotation) field, per the grammar,
/// the ignore list and the seeded registry.
pub open spec fn field_outcome(name: Seq<char>, ann: Seq<char>) -> FieldResolution {
    if ignored_name(name) {
        FieldResolution::Skipped
    } else {
        match classify(ann) {
            FieldTypeView::Reference => FieldResolution::Ref(name, Seq::<char>::empty()),
            FieldTypeView::ReferenceWithCustomField(l) => FieldResolution::Ref(name, l),
            FieldTypeView::NullableReference => FieldResolution::Ref(
                name + "?"@,
                Seq::<char>::empty(),
            ),
            FieldTypeView::NullableReferenceWithCustomField(l) => FieldResolution::Ref(
                name + "?"@,
                l,
            ),
            FieldTypeView::Plain(t) => match lookup_spec(seeded_mappings(), t) {
                Some(entry) => FieldResolution::Column(name, entry.0),
                None => FieldResolution::Failed(unrecognized_message_spec(t)),
            },
            FieldTypeView::Parameterized(t, params) => match lookup_spec(seeded_mappings(), t) {
                None => FieldResolution::Failed(unrecognized_message_spec(t)),
                Some(entry) => if params.len() != entry.1 {
                    FieldResolution::Failed(arity_message_spec(t, entry.1, params))
                } else if is_array_family(t) {
                    if params.len() == 1 {
                        FieldResolution::Column(name, array_column_expr_spec(entry.0, params[0]))
                    } else {
                        FieldResolution::Failed(array_arity_message_spec(t, entry.1, params))
                    }
                } else {
                    FieldResolution::Column(name, param_column_expr_spec(entry.0, params))
                },
            },
        }
    }
}

/// The resolution of a field list: the ordered columns and references,
/// or the message of the first field that fails.
pub open spec fn resolve_spec(fields: Seq<(Seq<char>, Seq<char>)>) -> Result<
    (Seq<(Seq<char>, Seq<char>)>, Seq<(Seq<char>, Seq<char>)>),
    Seq<char>,
>
    decreases fields.len(),
{
    if fields.len() == 0 {
        Ok((Seq::empty(), Seq::empty()))
    } else {
        match resolve_spec(fields.drop_last()) {
            Err(m) => Err(m),
            Ok((cols, refs)) => match field_outcome(fields.last().0, fields.last().1) {
                FieldResolution::Skipped => Ok((cols, refs)),
                FieldResolution::Column(n, e) => Ok((cols.push((n, e)), refs)),
                FieldResolution::Ref(n, l) => Ok((cols, refs.push((n, l)))),
                FieldResolution::Failed(m) => Err(m),
            },
        }
    }
}

proof fn lemma_resolve_err_prefix(fields: Seq<(Seq<char>, Seq<char>)>, i: int)
    requires
        0 <= i <= fields.len(),
        resolve_spec(fields.take(i)) is Err,
    ensures
        resolve_spec(fields) == resolve_spec(fields.take(i)),
    decreases fields.len() - i,
{
    if i < fields.len() {
        assert(fields.take(i + 1).drop_last() =~= fields.take(i));
        lemma_resolve_err_prefix(fields, i + 1);
    } else {
        assert(fields.take(i) =~= fields);
    }
}

/// Resolves the ordered field list of a model into its columns — pairs
/// of field name and concrete column-type expression — and its
/// references — pairs of (possibly `?`-suffixed) field name and custom
/// target label, empty when the default target applies. Fields on the
/// ignore list are dropped; the first field that cannot be resolved
/// aborts with its error. The result is a pure function of the field
/// list, so resolving the same fields twice yields identical output.
pub fn get_columns_and_references(fields: &[(String, String)]) -> (r: Result<
    (Vec<(String, String)>, Vec<(String, String)>),
    Error,
>)
    ensures
        match r {
            Ok(out) => resolve_spec(pairs_view(fields@)) == Ok::<_, Seq<char>>(
                (pairs_view(out.0@), pairs_view(out.1@)),
            ),
            Err(e) => resolve_spec(pairs_view(fields@)) matches Err(m) && m == e@,
        },
{
    let ghost fv = pairs_view(fields@);
    proof {
        assert(fv.len() == fields@.len());
        assert(fv.take(0) =~= Seq::<(Seq<char>, Seq<char>)>::empty());
        assert(pairs_view(Seq::<(String, String)>::empty()) =~= Seq::<(
            Seq<char>,
            Seq<char>,
        )>::empty());
    }
    let mappings = get_mappings();
    let mut columns: Vec<(String, String)> = Vec::new();
    let mut references: Vec<(String, String)> = Vec::new();
    let mut i: usize = 0;
    while i < fields.len()
        invariant
            i <= fields.len(),
            fv == pairs_view(fields@),
            fv.len() == fields@.len(),
            mappings@ == seeded_mappings(),
            resolve_spec(fv.take(i as int)) == Ok::<_, Seq<char>>(
                (pairs_view(columns@), pairs_view(references@)),
            ),
        decreases fields.len() - i,
    {
        let field = slice_index_get(fields, i);
        let fname: &String = &field.0;
        let ftype: &String = &field.1;
        proof {
            assert(fv[i as int] == (fname@, ftype@));
            assert(fv.take(i as int + 1).drop_last() =~= fv.take(i as int));
            assert(fv.take(i as int + 1).last() == fv[i as int]);
        }
        if is_ignored_field(fname.as_str()) {
            // the host framework generates this column itself; dropping
            // the field is a warning for the caller, never an error
        } else {
            let ft = match parse_field_type(ftype.as_str()) {
                Ok(ft) => ft,
                Err(e) => {
                    return Err(e);
                },
            };
            match ft {
                FieldType::Reference => {
                    let entry = (fname.clone(), String::new());
                    proof {
                        lemma_pairs_view_push(references@, entry);
                    }
                    references.push(entry);
                },
                FieldType::ReferenceWithCustomField(refname) => {
                    let entry = (fname.clone(), refname);
                    proof {
                        lemma_pairs_view_push(references@, entry);
                    }
                    references.push(entry);
                },
                FieldType::NullableReference => {
                    let mut n = fname.clone();
                    proof {
                        reveal_strlit("?");
                    }
                    n.append("?");
                    let entry = (n, String::new());
                    proof {
                        lemma_pairs_view_push(references@, entry);
                    }
                    references.push(entry);
                },
                FieldType::NullableReferenceWithCustomField(refname) => {
                    let mut n = fname.clone();
                    proof {
                        reveal_strlit("?");
                    }
                    n.append("?");
                    let entry = (n, refname);
                    proof {
                        lemma_pairs_view_push(references@, entry);
                    }
                    references.push(entry);
                },
                FieldType::Type(t) => {
                    let col_type = match mappings.col_type_field(t.as_str()) {
                        Ok(ct) => ct,
                        Err(e) => {
                            proof {
                                lemma_resolve_err_prefix(fv, i as int + 1);
                            }
                            return Err(e);
                        },
                    };
                    let entry = (fname.clone(), col_type);
                    proof {
                        lemma_pairs_view_push(columns@, entry);
                    }
                    columns.push(entry);
                },
                FieldType::TypeWithParameters(t, params) => {
                    let ghost param_views = strings_view(params@);
                    proof {
                        assert(param_views.len() == params@.len());
                    }
                    let col_type = match mappings.col_type_field(t.as_str()) {
                        Ok(ct) => ct,
                        Err(e) => {
                            proof {
                                lemma_resolve_err_prefix(fv, i as int + 1);
                            }
                            return Err(e);
                        },
                    };
                    let arity = match mappings.col_type_arity(t.as_str()) {
                        Some(a) => a,
                        None => 0,
                    };
                    if params.len() != arity {
                        let e = arity_error(t.as_str(), arity, &params);
                        proof {
                            lemma_resolve_err_prefix(fv, i as int + 1);
                        }
                        return Err(e);
                    }
                    let col = if is_array_type(t.as_str()) {
                        if params.len() == 1 {
                            let element = params[0].as_str();
                            array_column_expr(col_type, element)
                        } else {
                            let e = array_arity_error(t.as_str(), arity, &params);
                            proof {
                                lemma_resolve_err_prefix(fv, i as int + 1);
                            }
                            return Err(e);
                        }
                    } else {
                        param_column_expr(col_type, &params)
                    };
                    let entry = (fname.clone(), col);
                    proof {
                        lemma_pairs_view_push(columns@, entry);
                    }
                    columns.push(entry);
                },
            }
        }
        i = i + 1;
    }
    proof {
        assert(fv.take(fields@.len() as int) =~= fv);
    }
    Ok((columns, references))
}

/// The resolution of two field lists laid end to end: the first failure
/// wins; otherwise the columns and the references concatenate.
pub open spec fn combine_resolutions(
    a: Result<(Seq<(Seq<char>, Seq<char>)>, Seq<(Seq<char>, Seq<char>)>), Seq<char>>,
    b: Result<(Seq<(Seq<char>, Seq<char>)>, Seq<(Seq<char>, Seq<char>)>), Seq<char>>,
) -> Result<(Seq<(Seq<char>, Seq<char>)>, Seq<(Seq<char>, Seq<char>)>), Seq<char>> {
    match a {
        Err(m) => Err(m),
        Ok(pa) => match b {
            Err(m) => Err(m),
            Ok(pb) => Ok((pa.0 + pb.0, pa.1 + pb.1)),
        },
    }
}

/// Law: resolution treats every field on its own. Laying two field
/// lists end to end resolves to the combination of their separate
/// resolutions, so each field's contribution, and its place among the
/// columns or among the references, depends only on the fields before
/// it staying before it.
pub proof fn lemma_resolve_append(a: Seq<(Seq<char>, Seq<char>)>, b: Seq<(Seq<char>, Seq<char>)>)
    ensures
        resolve_spec(a + b) == combine_resolutions(resolve_spec(a), resolve_spec(b)),
    decreases b.len(),
{
    if b.len() == 0 {
        assert(a + b =~= a);
        match resolve_spec(a) {
            Ok(pa) => {
                assert(pa.0 + Seq::<(Seq<char>, Seq<char>)>::empty() =~= pa.0);
                assert(pa.1 + Seq::<(Seq<char>, Seq<char>)>::empty() =~= pa.1);
            },
            Err(_) => {},
        }
    } else {
        lemma_resolve_append(a, b.drop_last());
        assert((a + b).drop_last() =~= a + b.drop_last());
        assert((a + b).last() == b.last());
        match (resolve_spec(a), resolve_spec(b.drop_last())) {
            (Ok(pa), Ok(pb)) => {
                match field_outcome(b.last().0, b.last().1) {
                    FieldResolution::Skipped => {},
                    FieldResolution::Column(n, e) => {
                        assert((pa.0 + pb.0).push((n, e)) =~= pa.0 + pb.0.push((n, e)));
                    },
                    FieldResolution::Ref(n, l) => {
                        assert((pa.1 + pb.1).push((n, l)) =~= pa.1 + pb.1.push((n, l)));
                    },
                    FieldResolution::Failed(m) => {},
                }
            },
            _ => {},
        }
    }
}

/// Law: a field whose name is on the ignore list is dropped from both
/// output lists, whatever its annotation and wherever it stands.
pub proof fn lemma_ignored_field_dropped(
    before: Seq<(Seq<char>, Seq<char>)>,
    name: Seq<char>,
    ann: Seq<char>,
    after: Seq<(Seq<char>, Seq<char>)>,
)
    requires
        ignored_name(name),
    ensures
        resolve_spec(before + seq![(name, ann)] + after) == resolve_spec(before + after),
{
    let one = seq![(name, ann)];
    assert(one.drop_last() =~= Seq::<(Seq<char>, Seq<char>)>::empty());
    assert(resolve_spec(Seq::<(Seq<char>, Seq<char>)>::empty()) == Ok::<_, Seq<char>>(
        (Seq::<(Seq<char>, Seq<char>)>::empty(), Seq::<(Seq<char>, Seq<char>)>::empty()),
    ));
    assert(one.last() == (name, ann));
    assert(field_outcome(name, ann) is Skipped);
    assert(resolve_spec(one) == Ok::<_, Seq<char>>(
        (Seq::<(Seq<char>, Seq<char>)>::empty(), Seq::<(Seq<char>, Seq<char>)>::empty()),
    ));
    lemma_resolve_append(before, one);
    lemma_resolve_append(before + one, after);
    lemma_resolve_append(before, after);
    match resolve_spec(before) {
        Ok(pb) => {
            assert(pb.0 + Seq::<(Seq<char>, Seq<char>)>::empty() =~= pb.0);
            assert(pb.1 + Seq::<(Seq<char>, Seq<char>)>::empty() =~= pb.1);
        },
        Err(_) => {},
    }
}

/// The subsequence of fields whose outcome is a column, in input order.
pub open spec fn column_fields(fields: Seq<(Seq<char>, Seq<char>)>) -> Seq<(Seq<char>, Seq<char>)>
    decreases fields.len(),
{
    if fields.len() == 0 {
        Seq::empty()
    } else {
        let rest = column_fields(fields.drop_last());
        if field_outcome(fields.last().0, fields.last().1) is Column {
            rest.push(fields.last())
        } else {
            rest
        }
    }
}

/// The subsequence of fields whose outcome is a reference, in input
/// order.
pub open spec fn reference_fields(fields: Seq<(Seq<char>, Seq<char>)>) -> Seq<
    (Seq<char>, Seq<char>),
>
    decreases fields.len(),
{
    if fields.len() == 0 {
        Seq::empty()
    } else {
        let rest = reference_fields(fields.drop_last());
        if field_outcome(fields.last().0, fields.last().1) is Ref {
            rest.push(fields.last())
        } else {
            rest
        }
    }
}

/// Law: order is preserved independently of interleaving. When a field
/// list resolves, its columns are exactly the resolution of the
/// column-producing subsequence alone, and its references exactly that
/// of the reference-producing subsequence alone, each in input order.
pub proof fn lemma_order_preserved(fields: Seq<(Seq<char>, Seq<char>)>)
    requires
        resolve_spec(fields) is Ok,
    ensures
        resolve_spec(column_fields(fields)) == Ok::<_, Seq<char>>(
            (resolve_spec(fields)->Ok_0.0, Seq::<(Seq<char>, Seq<char>)>::empty()),
        ),
        resolve_spec(reference_fields(fields)) == Ok::<_, Seq<char>>(
            (Seq::<(Seq<char>, Seq<char>)>::empty(), resolve_spec(fields)->Ok_0.1),
        ),
    decreases fields.len(),
{
    if fields.len() == 0 {
    } else {
        lemma_order_preserved(fields.drop_last());
        let cf = column_fields(fields.drop_last());
        let rf = reference_fields(fields.drop_last());
        match field_outcome(fields.last().0, fields.last().1) {
            FieldResolution::Skipped => {},
            FieldResolution::Column(n, e) => {
                assert(cf.push(fields.last()).drop_last() =~= cf);
            },
            FieldResolution::Ref(n, l) => {
                assert(rf.push(fields.last()).drop_last() =~= rf);
            },
            FieldResolution::Failed(m) => {},
        }
    }
}

} // verus!

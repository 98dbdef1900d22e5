use loco_gen::mappings::get_mappings;
use loco_gen::model::{get_columns_and_references, ignore_field_names};

fn to_field(name: &str, field_type: &str) -> (String, String) {
    (name.to_string(), field_type.to_string())
}

#[test]
fn test_get_columns_with_field_types() {
    let fields = [
        to_field("expect_string_null", "string"),
        to_field("expect_string", "string!"),
        to_field("expect_unique", "string^"),
    ];
    let res = get_columns_and_references(&fields).expect("Failed to parse fields");

    let expected_columns = vec![
        to_field("expect_string_null", "StringNull"),
        to_field("expect_string", "String"),
        to_field("expect_unique", "StringUniq"),
    ];
    let expected_references: Vec<(String, String)> = vec![];

    assert_eq!(res, (expected_columns, expected_references));
}

#[test]
fn test_get_columns_with_array_types() {
    let fields = [
        to_field("expect_array_null", "array:string"),
        to_field("expect_array", "array!:string"),
        to_field("expect_array_uniq", "array^:string"),
    ];
    let res = get_columns_and_references(&fields).expect("Failed to parse fields");

    let expected_columns = vec![
        to_field("expect_array_null", "array_null(ArrayColType::String)"),
        to_field("expect_array", "array(ArrayColType::String)"),
        to_field("expect_array_uniq", "array_uniq(ArrayColType::String)"),
    ];
    let expected_references: Vec<(String, String)> = vec![];

    assert_eq!(res, (expected_columns, expected_references));
}

#[test]
fn test_get_references_from_fields() {
    let fields = [
        to_field("user", "references"),
        to_field("post", "references"),
    ];
    let res = get_columns_and_references(&fields).expect("Failed to parse fields");

    let expected_columns: Vec<(String, String)> = vec![];
    let expected_references = vec![to_field("user", ""), to_field("post", "")];

    assert_eq!(res, (expected_columns, expected_references));
}

#[test]
fn test_ignore_fields_are_filtered_out() {
    let mut fields = vec![to_field("name", "string")];

    for ignore_field in ignore_field_names() {
        fields.push(to_field(ignore_field, "string"));
    }

    let res = get_columns_and_references(&fields).expect("Failed to parse fields");

    let expected_columns = vec![to_field("name", "StringNull")];
    let expected_references: Vec<(String, String)> = vec![];

    assert_eq!(res, (expected_columns, expected_references));
}

#[test]
fn validate_arity() {
    // field not expected arity, but given 2
    let fields = vec![to_field("name", "string:2")];
    let res = get_columns_and_references(&fields);
    if let Err(err) = res {
        assert_eq!(
            err.message(),
            "type: `string` requires specifying 0 parameters, but only 1 were given (`2`)."
        );
    } else {
        panic!("Expected Err, but got Ok: {res:?}");
    }

    // references not expected arity, but given 2
    let references = vec![to_field("post:2", "")];
    let res = get_columns_and_references(&references);
    if let Err(err) = res {
        let mappings = get_mappings();
        assert_eq!(
            err.message(),
            mappings.error_unrecognized_default_field("").message()
        );
    } else {
        panic!("Expected Err, but got Ok: {res:?}");
    }
}

#[test]
fn custom_and_nullable_references() {
    let fields = [
        to_field("user", "references:email"),
        to_field("owner", "references?"),
        to_field("parent", "references?:email"),
    ];
    let res = get_columns_and_references(&fields).expect("Failed to parse fields");

    let expected_columns: Vec<(String, String)> = vec![];
    let expected_references = vec![
        to_field("user", "email"),
        to_field("owner?", ""),
        to_field("parent?", "email"),
    ];

    assert_eq!(res, (expected_columns, expected_references));
}

#[test]
fn order_is_preserved_across_interleaving() {
    let fields = [
        to_field("a", "string"),
        to_field("user", "references"),
        to_field("b", "string!"),
        to_field("post", "references"),
    ];
    let res = get_columns_and_references(&fields).expect("Failed to parse fields");

    let expected_columns = vec![to_field("a", "StringNull"), to_field("b", "String")];
    let expected_references = vec![to_field("user", ""), to_field("post", "")];

    assert_eq!(res, (expected_columns, expected_references));
}

#[test]
fn resolving_twice_is_identical() {
    let fields = [
        to_field("title", "string!"),
        to_field("tags", "array:string"),
        to_field("user", "references"),
    ];
    let first = get_columns_and_references(&fields).expect("Failed to parse fields");
    let second = get_columns_and_references(&fields).expect("Failed to parse fields");
    assert_eq!(first, second);
}

#[test]
fn unrecognized_type_reports_registry_message() {
    let fields = [to_field("x", "blob")];
    let res = get_columns_and_references(&fields);
    if let Err(err) = res {
        let mappings = get_mappings();
        assert_eq!(
            err.message(),
            mappings.error_unrecognized_default_field("blob").message()
        );
    } else {
        panic!("Expected Err, but got Ok: {res:?}");
    }
}

#[test]
fn array_with_two_parameters_fails_arity() {
    let fields = [to_field("x", "array:a:b")];
    let res = get_columns_and_references(&fields);
    if let Err(err) = res {
        assert_eq!(
            err.message(),
            "type: `array` requires specifying 1 parameters, but only 2 were given (`a,b`)."
        );
    } else {
        panic!("Expected Err, but got Ok: {res:?}");
    }
}

#[test]
fn array_element_kind_is_upper_camel_cased() {
    let fields = [to_field("profiles", "array:user_profile")];
    let res = get_columns_and_references(&fields).expect("Failed to parse fields");

    let expected_columns = vec![to_field("profiles", "array_null(ArrayColType::UserProfile)")];
    let expected_references: Vec<(String, String)> = vec![];

    assert_eq!(res, (expected_columns, expected_references));
}

#[test]
fn first_failure_aborts_resolution() {
    let fields = [
        to_field("good", "string"),
        to_field("bad", "string:2"),
        to_field("worse", "blob"),
    ];
    let res = get_columns_and_references(&fields);
    if let Err(err) = res {
        assert_eq!(
            err.message(),
            "type: `string` requires specifying 0 parameters, but only 1 were given (`2`)."
        );
    } else {
        panic!("Expected Err, but got Ok: {res:?}");
    }
}

#[test]
fn numeric_reference_label_is_a_custom_label() {
    // a label that merely looks like an arity marker is still a label,
    // never a parameter-count violation
    let fields = [to_field("user", "references:2")];
    let res = get_columns_and_references(&fields).expect("Failed to parse fields");

    let expected_columns: Vec<(String, String)> = vec![];
    let expected_references = vec![to_field("user", "2")];

    assert_eq!(res, (expected_columns, expected_references));
}

#[test]
fn reference_with_two_labels_is_not_a_reference() {
    let fields = [to_field("user", "references:a:b")];
    let res = get_columns_and_references(&fields);
    if let Err(err) = res {
        let mappings = get_mappings();
        assert_eq!(
            err.message(),
            mappings
                .error_unrecognized_default_field("references")
                .message()
        );
    } else {
        panic!("Expected Err, but got Ok: {res:?}");
    }
}

#[test]
fn ignore_list_contents() {
    let names = ignore_field_names();
    assert_eq!(names, vec!["created_at", "updated_at", "create_at", "update_at"]);
}

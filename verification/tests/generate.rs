use loco_gen::generate::{prepare_generation, template_id};
use loco_gen::AppInfo;

fn to_field(name: &str, field_type: &str) -> (String, String) {
    (name.to_string(), field_type.to_string())
}

#[test]
fn template_identifier_is_model() {
    assert_eq!(template_id(), "model");
}

#[test]
fn prepare_generation_assembles_variables() {
    let appinfo = AppInfo { app_name: "myapp".to_string() };
    let fields = [
        to_field("title", "string!"),
        to_field("user", "references"),
        to_field("created_at", "string"),
    ];
    let vars = prepare_generation("post", &fields, &appinfo).expect("Failed to parse fields");

    assert_eq!(vars.name, "post");
    assert_eq!(vars.pkg_name, "myapp");
    assert_eq!(vars.columns, vec![to_field("title", "String")]);
    assert_eq!(vars.references, vec![to_field("user", "")]);
    assert!(!vars.ts.is_empty());
}

#[test]
fn prepare_generation_propagates_resolver_failure() {
    let appinfo = AppInfo { app_name: "myapp".to_string() };
    let fields = [to_field("name", "string:2")];
    let res = prepare_generation("post", &fields, &appinfo);
    match res {
        Err(e) => assert_eq!(
            e.message(),
            "type: `string` requires specifying 0 parameters, but only 1 were given (`2`)."
        ),
        Ok(_) => panic!("expected the resolver's failure to propagate"),
    }
}

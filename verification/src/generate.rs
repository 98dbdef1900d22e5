//! Assembly of the template variables for one generation: the model
//! name, a fresh UTC timestamp, the host package name, and the resolved
//! column and reference lists. The record is the whole contract between
//! this library and the external template renderer.

use vstd::prelude::*;

use crate::{AppInfo, Error};
use crate::model::{get_columns_and_references, pairs_view, resolve_spec};

verus! {

/// The variables handed to the template renderer for the `model`
/// template.
pub struct TemplateVars {
    pub name: String,
    pub ts: String,
    pub pkg_name: String,
    pub columns: Vec<(String, String)>,
    pub references: Vec<(String, String)>,
}

/// The fixed identifier of the template that generation renders.
pub fn template_id() -> (r: &'static str)
    ensures
        r@ == "model"@,
{
    "model"
}

/// Relies on chrono's `Utc::now` and `DateTime::to_rfc3339`: the current
/// UTC time rendered as an RFC 3339 string, which is never empty.
#[verifier::external_body]
fn current_timestamp() -> (r: String)
    ensures
        r@.len() > 0,
{
    chrono::Utc::now().to_rfc3339()
}

/// Resolves the field list and assembles the template variables for a
/// model: its name, a fresh generation timestamp, the host package name,
/// and the resolved columns and references. Fails exactly when the
/// resolver fails, with the resolver's error.
pub fn prepare_generation(name: &str, fields: &[(String, String)], appinfo: &AppInfo) -> (r: Result<
    TemplateVars,
    Error,
>)
    ensures
        match r {
            Ok(vars) => {
                &&& resolve_spec(pairs_view(fields@)) matches Ok(p) && pairs_view(vars.columns@)
                    == p.0 && pairs_view(vars.references@) == p.1
                &&& vars.name@ == name@
                &&& vars.pkg_name@ == appinfo.app_name@
                &&& vars.ts@.len() > 0
            },
            Err(e) => resolve_spec(pairs_view(fields@)) matches Err(m) && m == e@,
        },
{
    let ts = current_timestamp();
    let (columns, references) = match get_columns_and_references(fields) {
        Ok(out) => out,
        Err(e) => {
            return Err(e);
        },
    };
    Ok(
        TemplateVars {
            name: name.to_owned(),
            ts,
            pkg_name: appinfo.app_name.clone(),
            columns,
            references,
        },
    )
}

} // verus!

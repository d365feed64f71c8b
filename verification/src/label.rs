//! Service identities, checked against the external service manager's label
//! syntax.

use vstd::prelude::*;

verus! {

/// Relies on `service_manager::ServiceLabel`: `from_str` splits the name on
/// `.` and returns a label from every arm of its match, so it accepts every
/// string, and `to_qualified_name` joins the parts back with `.`, so the
/// qualified name reproduces the input exactly. The error arm below is
/// unreachable for that reason.
#[verifier::external_body]
pub(crate) fn qualified_label(name: &str) -> (r: String)
    ensures
        r@ == name@,
{
    match name.parse::<service_manager::ServiceLabel>() {
        Ok(label) => label.to_qualified_name(),
        Err(_) => String::new(),
    }
}

} // verus!

//! The admin area's credential check (HTTP basic authentication).

use vstd::prelude::*;

verus! {

/// Accepts exactly the user `alex` with the password `pass`. A request
/// without a password is refused.
pub fn admin_validator(user_id: &str, password: Option<&str>) -> (accepted: bool)
    ensures
        accepted == (password matches Some(p) && user_id@ == "alex"@ && p@ == "pass"@),
{
    match password {
        None => false,
        Some(pass) => {
            let user = String::from_str(user_id);
            let pass = String::from_str(pass);
            let expected_user = String::from_str("alex");
            let expected_pass = String::from_str("pass");
            user == expected_user && pass == expected_pass
        },
    }
}

} // verus!

//! The `on`/`off` reading that most options share.

use vstd::prelude::*;
use vstd::string::*;
use crate::error::{outcome, parse_failure, Failure, KunaError};
use crate::text::same_text;

verus! {

/// An empty text and `on` mean true, `off` means false, anything else is an error.
pub open spec fn toggle_value(p: Seq<char>) -> Result<bool, Failure> {
    if p.len() == 0 || p == "on"@ {
        Ok(true)
    } else if p == "off"@ {
        Ok(false)
    } else {
        Err(parse_failure("Must specify toggle value, on/off"@))
    }
}

/// Read an `on`/`off` value.
pub fn on_or_off(p: &str) -> (r: Result<bool, KunaError>)
    ensures
        outcome(r) == toggle_value(p@),
{
    if p.unicode_len() == 0 || same_text(p, "on") {
        Ok(true)
    } else if same_text(p, "off") {
        Ok(false)
    } else {
        Err(KunaError::parse(String::from_str("Must specify toggle value, on/off")))
    }
}

} // verus!

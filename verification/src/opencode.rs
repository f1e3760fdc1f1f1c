//! The OpenCode engine where it runs on the Codex engine.

use vstd::prelude::*;

use crate::laws::words::nothing_is_replaced_where_nothing_occurs;
use crate::text::{contains_text, replace_text, replaced};

verus! {

/// The details of a Codex health report as they are told of OpenCode: the executable's name is
/// OpenCode's.
pub fn opencode_details(details: Option<String>) -> (told: Option<String>)
    ensures
        told.deep_view() == match details {
            Some(details) => Some(replaced(details@, "`codex`"@, "`opencode`"@)),
            None => None,
        },
        details matches Some(given) ==> (told matches Some(text) && (!contains_text(
            given@,
            "`codex`"@,
        ) ==> text@ == given@)),
{
    match details {
        Some(details) => {
            proof {
                reveal_strlit("`codex`");
                if !contains_text(details@, "`codex`"@) {
                    nothing_is_replaced_where_nothing_occurs(
                        details@,
                        "`codex`"@,
                        "`opencode`"@,
                    );
                }
            }
            Some(replace_text(details.as_str(), "`codex`", "`opencode`"))
        },
        None => None,
    }
}

} // verus!

//! The SQL result popup: its title, its text and its tone.
use crate::state::sql_input::SqlResult;
use crate::text::{decimal, owned, push_decimal, push_str};
use crate::ui::view::Tone;
use vstd::prelude::*;

verus! {

/// Title, text and tone of the popup for `result`.
pub open spec fn result_popup_spec(result: SqlResult) -> (Seq<char>, Seq<char>, Tone) {
    match result {
        SqlResult::Success { rows_affected } => (
            " Success "@,
            "Rows Affected: "@ + decimal(rows_affected as nat) + "\n\nPress Enter to dismiss"@,
            Tone::Green,
        ),
        SqlResult::Rows { count } => (
            " Success "@,
            "Rows Returned: "@ + decimal(count as nat) + "\n\nPress Enter to dismiss"@,
            Tone::Green,
        ),
        SqlResult::Error(msg) => (" Error "@, msg@ + "\n\nPress Enter to dismiss"@, Tone::Red),
    }
}

/// Title, text and tone of the popup showing how running a statement went.
pub fn result_popup(result: &SqlResult) -> (r: (&'static str, String, Tone))
    ensures
        (r.0@, r.1@, r.2) == result_popup_spec(*result),
{
    match result {
        SqlResult::Success { rows_affected } => {
            let mut body = owned("Rows Affected: ");
            push_decimal(&mut body, *rows_affected);
            push_str(&mut body, "\n\nPress Enter to dismiss");
            (" Success ", body, Tone::Green)
        },
        SqlResult::Rows { count } => {
            let mut body = owned("Rows Returned: ");
            push_decimal(&mut body, *count as u64);
            push_str(&mut body, "\n\nPress Enter to dismiss");
            (" Success ", body, Tone::Green)
        },
        SqlResult::Error(msg) => {
            let mut body = owned(msg.as_str());
            push_str(&mut body, "\n\nPress Enter to dismiss");
            (" Error ", body, Tone::Red)
        },
    }
}

} // verus!

//! Telemetry sources that reach the daemon as text.

use vstd::prelude::*;
use vstd::string::*;
use crate::error::{Fault, MainE};
use crate::text::{chars_of, first_token, is_blank, leading_token_at, text_of};

verus! {

/// The field of a load-average line that holds the average over the last
/// minute: the line's first token. Fails with `Proc` where the line holds
/// nothing but white space.
pub fn avgload(line: &str) -> (r: Result<String, MainE>)
    ensures
        match r {
            Ok(field) => exists|from: int, to: int|
                leading_token_at(line@, from, to) && field@ == #[trigger] line@.subrange(from, to),
            Err(e) => is_blank(line@) && e@ == Fault::Proc("could not find"@),
        },
{
    let chars = chars_of(line);
    match first_token(&chars) {
        Some((from, to)) => Ok(text_of(&chars, from, to)),
        None => Err(MainE::Proc(String::from_str("could not find"))),
    }
}

/// The source of the load averages.
pub open spec fn loadavg_source() -> Seq<char> {
    "/proc/loadavg"@
}

/// The file that holds the load averages.
pub fn loadavg_path() -> (path: &'static str)
    ensures
        path@ == loadavg_source(),
{
    "/proc/loadavg"
}

/// The failure to report where the load averages cannot be read, with the
/// platform's own description `cause`. It is reported as a failure of the
/// `Write` kind, with the source's path.
pub fn loadavg_failure(cause: String) -> (e: MainE)
    ensures
        e@ == Fault::Write(cause@, loadavg_source()),
{
    MainE::Write(cause, String::from_str(loadavg_path()))
}

} // verus!

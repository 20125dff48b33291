//! Classification of collected result files for the report tree.
//!
//! Raw results arrive as one directory per scenario, one per driver below
//! it, and one log file per host below that. The tree walk itself happens
//! outside; these are the decisions it makes at each entry.

use crate::ec2_utils::types::EndpointType;
use crate::error::OrchError;
use crate::paths::{file_stem_chars, file_stem_of};
use crate::wire::{contains_seq, ends_with, str_contains, str_ends_with};
use vstd::prelude::*;
use vstd::string::StringExecFns;

verus! {

/// The report tree's two directories: where the raw results are read from
/// and where the rendered pages go.
pub struct ReportTree {
    /// The directory holding the collected raw results.
    pub input_dir: String,
    /// The directory the rendered report goes into.
    pub out_dir: String,
}

/// The scenario name a directory entry stands for: its file stem, unless
/// the entry is hidden.
pub fn path_name(path: &str) -> (r: Option<String>)
    ensures
        r matches Some(s) ==> s@ == file_stem_chars(path@),
        r is None <==> (file_stem_chars(path@).len() > 0 && file_stem_chars(path@)[0] == '.'),
{
    let stem = file_stem_of(path);
    let hidden = crate::wire::str_starts_with(stem.as_str(), ".");
    proof {
        reveal_strlit(".");
        if stem@.len() > 0 {
            assert(crate::wire::starts_with(stem@, "."@) <==> stem@[0] == '.') by {
                if stem@[0] == '.' {
                    assert(stem@.subrange(0, 1) =~= "."@);
                }
                if crate::wire::starts_with(stem@, "."@) {
                    assert(stem@.subrange(0, 1)[0] == stem@[0]);
                }
            }
        }
    }
    if hidden {
        None
    } else {
        Some(stem)
    }
}

/// Which side of the benchmark a result file belongs to: log files name
/// either the server or the client; anything that is not a log file is
/// passed over; a log file that names neither side is malformed.
pub fn classify_result_file(filename: &str) -> (r: Result<Option<EndpointType>, OrchError>)
    ensures
        !ends_with(filename@, ".json"@) ==> (r matches Ok(c) && c is None),
        (ends_with(filename@, ".json"@) && contains_seq(filename@, "server"@)) ==> (r matches Ok(c)
            && c matches Some(e) && e is Server),
        (ends_with(filename@, ".json"@) && !contains_seq(filename@, "server"@) && contains_seq(
            filename@,
            "client"@,
        )) ==> (r matches Ok(c) && c matches Some(e) && e is Client),
        (ends_with(filename@, ".json"@) && !contains_seq(filename@, "server"@) && !contains_seq(
            filename@,
            "client"@,
        )) ==> (r matches Err(e) && e is Init),
{
    if !str_ends_with(filename, ".json") {
        return Ok(None);
    }
    if str_contains(filename, "server") {
        return Ok(Some(EndpointType::Server));
    }
    if str_contains(filename, "client") {
        return Ok(Some(EndpointType::Client));
    }
    Err(
        OrchError::Init {
            dbg: String::from_str("result filename should name either a client or a server"),
        },
    )
}

} // verus!

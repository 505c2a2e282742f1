//! How copying to the clipboard ends.

use crate::search::succeeded;
use crate::text::{joined, number, signed, signed_number};
use vstd::prelude::*;
use vstd::string::*;

verus! {

/// Shown where there is nothing to copy with.
pub const MISSING_PBCOPY: &'static str = "pbcopy が見つかりません";

/// How long a copy may take; the keys wait for it.
pub const PBCOPY_TIMEOUT_SECS: u64 = 2;

/// How the program that copies ended.
#[derive(Debug, PartialEq, Eq)]
pub enum CopyEnd {
    TimedOut,
    /// It could not be run, or not be written to.
    Broken { missing: bool, reason: String },
    /// It ended with that code; `None` where a signal ended it.
    Finished { code: Option<i32> },
}

/// Why something was not copied.
#[derive(Debug, PartialEq, Eq)]
pub enum CopyFailure {
    /// There is nothing to copy with.
    Missing,
    Failed(String),
}

/// `r` is what a copy that ended so comes to.
pub open spec fn is_copied(end: CopyEnd, r: Result<(), CopyFailure>) -> bool {
    match end {
        CopyEnd::TimedOut => r matches Err(CopyFailure::Failed(text)) && text@ == "pbcopy が "@
            + crate::text::decimal(PBCOPY_TIMEOUT_SECS as nat) + " 秒で終わりませんでした"@,
        CopyEnd::Broken { missing, reason } => if missing {
            r matches Err(CopyFailure::Missing)
        } else {
            r matches Err(CopyFailure::Failed(text)) && text@ == reason@
        },
        CopyEnd::Finished { code } => if code == Some(0i32) {
            r is Ok
        } else {
            r matches Err(CopyFailure::Failed(text)) && text@ == "pbcopy が終了コード "@ + signed(
                match code {
                    Some(code) => code as int,
                    None => -1,
                },
            ) + " で終わりました"@
        },
    }
}

/// Judges how a copy ended. That the program is missing is kept apart, for the user is
/// told so.
pub fn copied(end: CopyEnd) -> (r: Result<(), CopyFailure>)
    ensures
        is_copied(end, r),
{
    match end {
        CopyEnd::TimedOut => Err(
            CopyFailure::Failed(
                joined(
                    "pbcopy が ",
                    number(PBCOPY_TIMEOUT_SECS).as_str(),
                    " 秒で終わりませんでした",
                ),
            ),
        ),
        CopyEnd::Broken { missing, reason } => if missing {
            Err(CopyFailure::Missing)
        } else {
            Err(CopyFailure::Failed(reason))
        },
        CopyEnd::Finished { code } => if succeeded(code) {
            Ok(())
        } else {
            let shown: i64 = match code {
                Some(code) => code as i64,
                None => -1,
            };
            Err(
                CopyFailure::Failed(
                    joined(
                        "pbcopy が終了コード ",
                        signed_number(shown).as_str(),
                        " で終わりました",
                    ),
                ),
            )
        },
    }
}

/// Something was copied just where the program says so; that it is missing is told apart.
pub proof fn law_copy_succeeds_with_its_program(end: CopyEnd, r: Result<(), CopyFailure>)
    requires
        is_copied(end, r),
    ensures
        r is Ok <==> end == (CopyEnd::Finished { code: Some(0i32) }),
        (r matches Err(CopyFailure::Missing)) <==> (end matches CopyEnd::Broken {
            missing,
            ..
        } && missing),
        end matches CopyEnd::Broken { missing, reason } ==> !missing ==> (r matches Err(
            CopyFailure::Failed(text),
        ) && text@ == reason@),
{
}

} // verus!

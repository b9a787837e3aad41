//! Planning of the platform-specific relaunch of the application.
//!
//! On the Unix-like platforms the plan replaces the current process image in
//! place: executing it never returns control on success, and a return always
//! means failure. On Windows the running executable is locked while mapped,
//! so the plan spawns a detached helper command that kills the current
//! process by its identifier and starts the new executable; control returns
//! to the caller right after the helper is spawned.

use vstd::prelude::*;
use vstd::string::StringExecFns;

use crate::error::UpdateError;
use crate::platform::{is_linux_bsd, lemma_os_names_distinct, spec_linux_bsd};
use crate::strutil::{str_copy, str_eq};

verus! {

/// The decimal digit character for one digit value.
pub open spec fn spec_digit_char(d: int) -> char {
    if d == 0 {
        '0'
    } else if d == 1 {
        '1'
    } else if d == 2 {
        '2'
    } else if d == 3 {
        '3'
    } else if d == 4 {
        '4'
    } else if d == 5 {
        '5'
    } else if d == 6 {
        '6'
    } else if d == 7 {
        '7'
    } else if d == 8 {
        '8'
    } else {
        '9'
    }
}

/// The usual decimal rendering of a number, most significant digit first,
/// with no leading zero except for the number zero itself.
pub open spec fn spec_decimal(n: nat) -> Seq<char>
    decreases n,
{
    if n < 10 {
        seq![spec_digit_char(n as int)]
    } else {
        spec_decimal(n / 10) + seq![spec_digit_char((n % 10) as int)]
    }
}

/// The one-character string of one decimal digit.
fn digit_str(d: u32) -> (r: &'static str)
    requires
        d < 10,
    ensures
        r@ == seq![spec_digit_char(d as int)],
{
    proof {
        reveal_strlit("0");
        reveal_strlit("1");
        reveal_strlit("2");
        reveal_strlit("3");
        reveal_strlit("4");
        reveal_strlit("5");
        reveal_strlit("6");
        reveal_strlit("7");
        reveal_strlit("8");
        reveal_strlit("9");
        assert("0"@ =~= seq!['0']);
        assert("1"@ =~= seq!['1']);
        assert("2"@ =~= seq!['2']);
        assert("3"@ =~= seq!['3']);
        assert("4"@ =~= seq!['4']);
        assert("5"@ =~= seq!['5']);
        assert("6"@ =~= seq!['6']);
        assert("7"@ =~= seq!['7']);
        assert("8"@ =~= seq!['8']);
        assert("9"@ =~= seq!['9']);
    }
    if d == 0 {
        "0"
    } else if d == 1 {
        "1"
    } else if d == 2 {
        "2"
    } else if d == 3 {
        "3"
    } else if d == 4 {
        "4"
    } else if d == 5 {
        "5"
    } else if d == 6 {
        "6"
    } else if d == 7 {
        "7"
    } else if d == 8 {
        "8"
    } else {
        "9"
    }
}

/// Renders a process identifier in decimal.
pub fn u32_decimal(n: u32) -> (r: String)
    ensures
        r@ == spec_decimal(n as nat),
    decreases n,
{
    if n < 10 {
        str_copy(digit_str(n))
    } else {
        let mut s = u32_decimal(n / 10);
        s.append(digit_str(n % 10));
        s
    }
}

/// The detached helper command line used on Windows: kill the current
/// process by its identifier, then start the new executable with the
/// fresh-launch flag.
pub open spec fn spec_windows_helper_command(pid: nat, path: Seq<char>) -> Seq<char> {
    "taskkill /PID "@ + spec_decimal(pid) + " & start "@ + path + " -n"@
}

/// How the caller relaunches the application.
#[derive(Debug)]
pub enum RelaunchPlan {
    /// Replace the current process image with `program`, passing `args`.
    /// Executing this never returns control on success; a return means the
    /// replacement failed.
    ReplaceImage { program: String, args: Vec<String> },
    /// Spawn `program` with `args` as a process detached from the current
    /// one, then return immediately, whether or not the helper succeeds.
    SpawnDetached { program: String, args: Vec<String> },
}

/// Plans the relaunch for one host operating system: the new executable's
/// path and the current process identifier decide the whole plan.
pub fn plan_relaunch(os: &str, path: &str, pid: u32) -> (r: Result<RelaunchPlan, UpdateError>)
    ensures
        os@ == "macos"@ ==> (r matches Ok(p) && p matches RelaunchPlan::ReplaceImage {
            program,
            args,
        } && program@ == "open"@ && args@.len() == 4 && args@[0]@ == "-n"@ && args@[1]@ == path@
            && args@[2]@ == "--args"@ && args@[3]@ == "-n"@),
        spec_linux_bsd(os@) ==> (r matches Ok(p) && p matches RelaunchPlan::ReplaceImage {
            program,
            args,
        } && program@ == path@ && args@.len() == 1 && args@[0]@ == "-n"@),
        os@ == "windows"@ ==> (r matches Ok(p) && p matches RelaunchPlan::SpawnDetached {
            program,
            args,
        } && program@ == "cmd"@ && args@.len() == 2 && args@[0]@ == "/C"@ && args@[1]@
            == spec_windows_helper_command(pid as nat, path@)),
        os@ != "macos"@ && !spec_linux_bsd(os@) && os@ != "windows"@ ==> r == Err::<
            RelaunchPlan,
            UpdateError,
        >(UpdateError::UnsupportedPlatform),
{
    proof {
        lemma_os_names_distinct();
    }
    if str_eq(os, "macos") {
        let mut args: Vec<String> = Vec::new();
        args.push(str_copy("-n"));
        args.push(str_copy(path));
        args.push(str_copy("--args"));
        args.push(str_copy("-n"));
        Ok(RelaunchPlan::ReplaceImage { program: str_copy("open"), args })
    } else if is_linux_bsd(os) {
        let mut args: Vec<String> = Vec::new();
        args.push(str_copy("-n"));
        Ok(RelaunchPlan::ReplaceImage { program: str_copy(path), args })
    } else if str_eq(os, "windows") {
        let mut command = String::from_str("taskkill /PID ");
        let digits = u32_decimal(pid);
        command.append(digits.as_str());
        command.append(" & start ");
        command.append(path);
        command.append(" -n");
        let mut args: Vec<String> = Vec::new();
        args.push(str_copy("/C"));
        args.push(command);
        Ok(RelaunchPlan::SpawnDetached { program: str_copy("cmd"), args })
    } else {
        Err(UpdateError::UnsupportedPlatform)
    }
}

} // verus!

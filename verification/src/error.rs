//! Error model for the spawning adapter.
//!
//! A process-launch failure reaches the library as a [`SpawnError`]: the two
//! facts the translation logic reads off an OS error, namely whether the
//! executable was missing and the error's own message. [`map_exe_error`]
//! turns a "not found" launch failure into a user-actionable message naming
//! the executable, and passes every other launch failure through unchanged.

use crate::process::ExitStatus;
use vstd::prelude::*;
use vstd::string::StringExecFns;

verus! {

/// What the adapter reads off an OS process-launch error: whether the
/// executable could not be found, and the error's display message.
pub struct SpawnError {
    /// True when the OS reported that the executable does not exist.
    pub not_found: bool,
    /// The OS error's own message, kept for pass-through reporting.
    pub message: String,
}

/// A failure of one file's conversion.
#[derive(Debug)]
pub enum AdaptError {
    /// The converter strategy could not build a command for this file.
    Config { exe_name: String, cause: String },
    /// The configured executable does not exist on this system.
    MissingExecutable { message: String },
    /// Any other process-launch failure, passed through unchanged.
    Launch { message: String },
    /// A failure while copying bytes to or from the child's pipes.
    Io { message: String },
    /// The child ran but exited with a non-success status.
    ProcessFailed { status: ExitStatus },
}

/// The decimal digit character for `d`, for `d < 10`.
pub open spec fn dec_digit(d: nat) -> char {
    if d == 0 {
        '0'
    } else if d == 1 {
        '1'
    } else if d == 2 {
        '2'
    } else if d == 3 {
        '3'
    } else if d == 4 {
        '4'
    } else if d == 5 {
        '5'
    } else if d == 6 {
        '6'
    } else if d == 7 {
        '7'
    } else if d == 8 {
        '8'
    } else {
        '9'
    }
}

/// The decimal representation of `n`, most significant digit first, with no
/// leading zeros (a single zero for `n == 0`).
pub open spec fn dec_rep(n: nat) -> Seq<char>
    decreases n,
{
    if n < 10 {
        seq![dec_digit(n)]
    } else {
        dec_rep(n / 10).push(dec_digit(n % 10))
    }
}

/// The decimal representation of `i`, with a leading minus sign when `i` is
/// negative.
pub open spec fn int_rep(i: int) -> Seq<char> {
    if i < 0 {
        seq!['-'] + dec_rep((-i) as nat)
    } else {
        dec_rep(i as nat)
    }
}

fn digit_str(d: u64) -> (s: &'static str)
    requires
        d < 10,
    ensures
        s@ == seq![dec_digit(d as nat)],
{
    if d == 0 {
        let s = "0";
        proof {
            reveal_strlit("0");
            assert(s@ =~= seq![dec_digit(d as nat)]);
        }
        s
    } else if d == 1 {
        let s = "1";
        proof {
            reveal_strlit("1");
            assert(s@ =~= seq![dec_digit(d as nat)]);
        }
        s
    } else if d == 2 {
        let s = "2";
        proof {
            reveal_strlit("2");
            assert(s@ =~= seq![dec_digit(d as nat)]);
        }
        s
    } else if d == 3 {
        let s = "3";
        proof {
            reveal_strlit("3");
            assert(s@ =~= seq![dec_digit(d as nat)]);
        }
        s
    } else if d == 4 {
        let s = "4";
        proof {
            reveal_strlit("4");
            assert(s@ =~= seq![dec_digit(d as nat)]);
        }
        s
    } else if d == 5 {
        let s = "5";
        proof {
            reveal_strlit("5");
            assert(s@ =~= seq![dec_digit(d as nat)]);
        }
        s
    } else if d == 6 {
        let s = "6";
        proof {
            reveal_strlit("6");
            assert(s@ =~= seq![dec_digit(d as nat)]);
        }
        s
    } else if d == 7 {
        let s = "7";
        proof {
            reveal_strlit("7");
            assert(s@ =~= seq![dec_digit(d as nat)]);
        }
        s
    } else if d == 8 {
        let s = "8";
        proof {
            reveal_strlit("8");
            assert(s@ =~= seq![dec_digit(d as nat)]);
        }
        s
    } else {
        let s = "9";
        proof {
            reveal_strlit("9");
            assert(s@ =~= seq![dec_digit(d as nat)]);
        }
        s
    }
}

/// The decimal digits of `n`.
pub fn u64_to_string(n: u64) -> (s: String)
    ensures
        s@ == dec_rep(n as nat),
    decreases n,
{
    if n < 10 {
        String::from_str(digit_str(n))
    } else {
        let mut s = u64_to_string(n / 10);
        s.append(digit_str(n % 10));
        proof {
            assert(s@ =~= dec_rep(n as nat));
        }
        s
    }
}

/// The decimal representation of `c`, minus sign included.
pub fn i32_to_string(c: i32) -> (s: String)
    ensures
        s@ == int_rep(c as int),
{
    if c >= 0 {
        u64_to_string(c as u64)
    } else {
        let n: i64 = c as i64;
        let m: u64 = (-n) as u64;
        let mut s = String::from_str("-");
        s.append(u64_to_string(m).as_str());
        proof {
            reveal_strlit("-");
            assert(s@ =~= int_rep(c as int));
        }
        s
    }
}

impl AdaptError {
    /// The error's display message. A configuration failure names the
    /// executable and its cause; translated and passed-through launch
    /// failures and pipe failures carry their message as is; a non-success
    /// exit is reported as a subprocess failure with the exit code, or with
    /// a note that a signal terminated the child.
    pub fn message(&self) -> (r: String)
        ensures
            self matches AdaptError::Config { exe_name, cause } ==> r@
                == "Could not set cmd arguments for "@ + exe_name@ + ": "@ + cause@,
            self matches AdaptError::MissingExecutable { message } ==> r@ == message@,
            self matches AdaptError::Launch { message } ==> r@ == message@,
            self matches AdaptError::Io { message } ==> r@ == message@,
            self matches AdaptError::ProcessFailed { status } ==> ({
                &&& status.code matches Some(c) ==> r@ == "subprocess failed: exit code "@
                    + int_rep(c as int)
                &&& status.code is None ==> r@ == "subprocess failed: terminated by signal"@
            }),
    {
        match self {
            AdaptError::Config { exe_name, cause } => {
                let mut m = String::from_str("Could not set cmd arguments for ");
                m.append(exe_name.as_str());
                m.append(": ");
                m.append(cause.as_str());
                m
            },
            AdaptError::MissingExecutable { message } => String::from_str(message.as_str()),
            AdaptError::Launch { message } => String::from_str(message.as_str()),
            AdaptError::Io { message } => String::from_str(message.as_str()),
            AdaptError::ProcessFailed { status } => match status.code {
                Some(c) => {
                    let mut m = String::from_str("subprocess failed: exit code ");
                    m.append(i32_to_string(c).as_str());
                    m
                },
                None => String::from_str("subprocess failed: terminated by signal"),
            },
        }
    }
}

/// Translates a process-launch error: a "file not found" spawn failure
/// becomes a readable message naming the missing executable (so the user
/// learns which program to install), and any other failure is passed
/// through unchanged.
pub fn map_exe_error(err: SpawnError, exe_name: &str, help: &str) -> (r: AdaptError)
    ensures
        err.not_found ==> (r matches AdaptError::MissingExecutable { message }
            && message@ == "Could not find executable \""@ + exe_name@ + "\". "@ + help@),
        !err.not_found ==> (r matches AdaptError::Launch { message }
            && message@ == err.message@),
{
    if err.not_found {
        let mut message = String::from_str("Could not find executable \"");
        message.append(exe_name);
        message.append("\". ");
        message.append(help);
        AdaptError::MissingExecutable { message }
    } else {
        AdaptError::Launch { message: err.message }
    }
}

} // verus!

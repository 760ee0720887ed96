//! The commands that power the machine off or restart it.

use vstd::prelude::*;
use crate::text::{lossy_text, utf8_lossy};

verus! {

/// What to do to the machine.
#[derive(PartialEq, Eq, Structural, Clone, Copy, Debug)]
pub enum PowerAction {
    Shutdown,
    Restart,
}

/// A program to run and its arguments.
#[derive(Debug)]
pub struct PowerCommand {
    pub program: String,
    pub args: Vec<String>,
}

/// The arguments of `shutdown` for `action`: `/s` or `/r` with `/t 0` on
/// Windows, `-h` or `-r` with `now` elsewhere.
pub open spec fn power_args_of(action: PowerAction, windows: bool) -> Seq<Seq<char>> {
    if windows {
        seq![if action == PowerAction::Shutdown { "/s"@ } else { "/r"@ }, "/t"@, "0"@]
    } else {
        seq![if action == PowerAction::Shutdown { "-h"@ } else { "-r"@ }, "now"@]
    }
}

/// The command that carries out `action`, on Windows when `windows` holds.
pub fn power_command(action: PowerAction, windows: bool) -> (r: PowerCommand)
    ensures
        r.program@ == "shutdown"@,
        r.args@.map_values(|a: String| a@) == power_args_of(action, windows),
{
    let mut args: Vec<String> = Vec::new();
    if windows {
        if action == PowerAction::Shutdown {
            args.push(String::from_str("/s"));
        } else {
            args.push(String::from_str("/r"));
        }
        args.push(String::from_str("/t"));
        args.push(String::from_str("0"));
    } else {
        if action == PowerAction::Shutdown {
            args.push(String::from_str("-h"));
        } else {
            args.push(String::from_str("-r"));
        }
        args.push(String::from_str("now"));
    }
    let r = PowerCommand { program: String::from_str("shutdown"), args };
    proof {
        assert(r.args@.map_values(|a: String| a@) =~= power_args_of(action, windows));
    }
    r
}

/// What running the command came to: nothing on success, else the text of
/// what it wrote to its error stream.
pub fn command_outcome(success: bool, stderr: &[u8]) -> (r: Result<(), String>)
    ensures
        success ==> r is Ok,
        !success ==> (r matches Err(e) && e@ == lossy_text(stderr@)),
{
    if success {
        Ok(())
    } else {
        Err(utf8_lossy(stderr))
    }
}

} // verus!

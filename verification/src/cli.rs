//! The rules that the command line applies to its arguments.

use vstd::prelude::*;

verus! {

/// Whether `text` ends with `suffix`.
pub open spec fn ends_with(text: Seq<char>, suffix: Seq<char>) -> bool {
    suffix.len() <= text.len() && text.subrange(text.len() - suffix.len(), text.len() as int)
        == suffix
}

/// What is said of a level of verbosity.
pub open spec fn verbosity_text(verbose: int) -> Seq<char> {
    if verbose == 0 {
        "No verbose info"@
    } else if verbose == 1 {
        "Some verbose info"@
    } else if verbose == 2 {
        "Tons of verbose info"@
    } else {
        "Don't be crazy"@
    }
}

/// What a subcommand says when it starts, if anything.
pub open spec fn notice_text(subcommand: SubCommand) -> Option<Seq<char>> {
    match subcommand {
        SubCommand::Test { debug } => Some(
            if debug {
                "Printing debug info..."@
            } else {
                "Printing normally..."@
            },
        ),
        SubCommand::Install { debug } => if debug {
            Some("Printing debug info..."@)
        } else {
            None
        },
    }
}

/// The text of a notice, if there is one.
pub open spec fn notice_view(notice: Option<&'static str>) -> Option<Seq<char>> {
    match notice {
        Some(text) => Some(text@),
        None => None,
    }
}

/// What the tool was asked to do.
#[derive(Debug, Clone, Copy, PartialEq, Eq, Structural)]
pub enum SubCommand {
    /// Try the tool out.
    Test { debug: bool },
    /// Install what the machine needs.
    Install { debug: bool },
}

impl SubCommand {
    /// What to print before the subcommand does its work, if anything.
    pub fn notice(&self) -> (notice: Option<&'static str>)
        ensures
            notice_view(notice) == notice_text(*self),
    {
        match self {
            SubCommand::Test { debug } => if *debug {
                Some("Printing debug info...")
            } else {
                Some("Printing normally...")
            },
            SubCommand::Install { debug } => if *debug {
                Some("Printing debug info...")
            } else {
                None
            },
        }
    }

    /// Whether the subcommand goes on to install packages.
    pub fn installs(&self) -> (installs: bool)
        ensures
            installs <==> *self is Install,
    {
        match self {
            SubCommand::Test { .. } => false,
            SubCommand::Install { .. } => true,
        }
    }
}

/// Accepts the name of an input file if it ends with `.png`, and says
/// what is wrong with any other.
pub fn is_png(val: &str) -> (verdict: Result<(), String>)
    ensures
        verdict is Ok <==> ends_with(val@, ".png"@),
        verdict matches Err(message) ==> message@ == "the file format must be png."@,
{
    proof {
        reveal_strlit(".png");
    }
    let len = val.unicode_len();
    if len >= 4 && val.get_char(len - 4) == '.' && val.get_char(len - 3) == 'p' && val.get_char(
        len - 2,
    ) == 'n' && val.get_char(len - 1) == 'g' {
        assert(val@.subrange(val@.len() - 4, val@.len() as int) =~= ".png"@);
        Ok(())
    } else {
        assert(!ends_with(val@, ".png"@)) by {
            if ends_with(val@, ".png"@) {
                let tail = val@.subrange(val@.len() - 4, val@.len() as int);
                assert(tail[0] == '.' && tail[1] == 'p' && tail[2] == 'n' && tail[3] == 'g');
            }
        }
        Err(String::from_str("the file format must be png."))
    }
}

/// The message for the number of times that verbosity was asked for.
pub fn verbosity_message(verbose: i32) -> (message: &'static str)
    ensures
        message@ == verbosity_text(verbose as int),
{
    if verbose == 0 {
        "No verbose info"
    } else if verbose == 1 {
        "Some verbose info"
    } else if verbose == 2 {
        "Tons of verbose info"
    } else {
        "Don't be crazy"
    }
}

} // verus!

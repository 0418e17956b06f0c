//! The command line's shape: its subcommands and their arguments, and how a
//! command line or a lock reason is put together from its words.
use vstd::prelude::*;
use crate::text::{push_char, push_str};

verus! {

/// The command line.
#[derive(Debug)]
pub struct Cli {
    pub command: Commands,
}

/// The subcommands.
#[derive(Debug)]
pub enum Commands {
    /// Enqueue a command and run it in turn.
    Run {
        /// How long to wait in line at most, in seconds.
        timeout: Option<u64>,
        queue: String,
        command: String,
        args: Vec<String>,
    },
    /// Show the queue.
    Status { json: bool, queue: String },
    /// Lock the queue for exclusive use.
    Lock {
        timeout: Option<u64>,
        /// Print only the token.
        raw: bool,
        json: bool,
        queue: String,
        /// The words of the reason.
        reason: Vec<String>,
    },
    /// Release a locked queue.
    Release { queue: String, token: Option<String>, force: bool },
}

/// The words `ws` joined by single spaces.
pub open spec fn spaced(ws: Seq<Seq<char>>) -> Seq<char>
    decreases ws.len(),
{
    if ws.len() == 0 {
        Seq::empty()
    } else if ws.len() == 1 {
        ws[0]
    } else {
        spaced(ws.drop_last()) + seq![' '] + ws.last()
    }
}

/// The words joined by single spaces (what `join(" ")` gives).
pub fn join_with_spaces(words: &Vec<String>) -> (r: String)
    ensures
        r@ == spaced(crate::state::views(words@)),
{
    let ghost v = crate::state::views(words@);
    let mut s = String::new();
    let n = words.len();
    let mut i: usize = 0;
    while i < n
        invariant
            n == words@.len(),
            v == crate::state::views(words@),
            i <= n,
            s@ == spaced(v.take(i as int)),
        decreases n - i,
    {
        proof {
            assert(v.take(i + 1).drop_last() =~= v.take(i as int));
            assert(v.take(i + 1).last() == words@[i as int]@);
            if i == 0 {
                assert(v.take(1).len() == 1);
                assert(s@ =~= Seq::<char>::empty());
            }
        }
        if i > 0 {
            push_char(&mut s, ' ');
        }
        push_str(&mut s, words[i].as_str());
        proof {
            if i == 0 {
                assert(s@ =~= v.take(1)[0]);
            }
        }
        i = i + 1;
    }
    assert(v.take(n as int) =~= v);
    s
}

/// The command line of `run`: the command and its arguments, joined by spaces.
pub fn command_line(command: &str, args: &Vec<String>) -> (r: String)
    ensures
        r@ == spaced(seq![command@] + crate::state::views(args@)),
{
    let ghost v = seq![command@] + crate::state::views(args@);
    let mut s = String::new();
    push_str(&mut s, command);
    let n = args.len();
    let mut i: usize = 0;
    assert(v.take(1) =~= seq![command@]);
    assert(s@ =~= command@);
    while i < n
        invariant
            n == args@.len(),
            v == seq![command@] + crate::state::views(args@),
            i <= n,
            s@ == spaced(v.take(i + 1)),
        decreases n - i,
    {
        proof {
            assert(v.take(i + 2).drop_last() =~= v.take(i + 1));
            assert(v.take(i + 2).last() == args@[i as int]@);
        }
        push_char(&mut s, ' ');
        push_str(&mut s, args[i].as_str());
        i = i + 1;
    }
    assert(v.take(n + 1) =~= v);
    s
}

} // verus!

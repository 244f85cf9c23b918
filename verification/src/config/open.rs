//! Opening a URL with a configured command.

use vstd::prelude::*;

use crate::split::{split_words, words};
use crate::text::{texts, Text};

verus! {

/// The command's words with the URL as one last argument; `None` for a blank
/// command.
pub open spec fn open_words(command: Text, url: Text) -> Option<Seq<Text>> {
    if words(command).len() == 0 {
        None
    } else {
        Some(words(command).push(url))
    }
}

/// The program and arguments to open a URL with; `None` to leave it to the system.
/// The URL is never spliced into the command.
pub fn build_open_argv(command: &str, url: &str) -> (r: Option<Vec<String>>)
    ensures
        match r {
            Some(argv) => open_words(command@, url@) == Some(texts(argv@)),
            None => open_words(command@, url@) is None,
        },
{
    let mut argv = split_words(command);
    let ghost parts = texts(argv@);
    if argv.is_empty() {
        return None;
    }
    argv.push(url.to_owned());
    proof {
        assert(texts(argv@) =~= parts.push(url@));
    }
    Some(argv)
}

/// Whatever the command, the URL is the last argument as it is, and the program is
/// the command's own first word.
pub proof fn url_is_one_argument(command: Text, url: Text)
    requires
        open_words(command, url) is Some,
    ensures
        open_words(command, url)->0.last() == url,
        open_words(command, url)->0.len() == words(command).len() + 1,
        open_words(command, url)->0[0] == words(command)[0],
        open_words(command, url)->0.drop_last() == words(command),
{
    assert(words(command).push(url).drop_last() =~= words(command));
}

/// There is a command to run exactly when the setting has a word in it.
pub proof fn blank_commands_open_nothing(command: Text, url: Text)
    ensures
        open_words(command, url) is Some <==> words(command).len() > 0,
{
}

} // verus!

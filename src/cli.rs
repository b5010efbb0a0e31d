use vstd::prelude::*;
use vstd::string::*;
use vstd::utf8::encode_utf8;

use crate::error::ScannrsError;
use crate::text::{trim_str, trimmed_of};

verus! {

/// What to do with a scanner's options.
#[derive(Debug, Clone, PartialEq, Eq)]
pub enum OptionsCommand {
    /// Print every option with its kind.
    List,
    /// Print the current value of one option.
    Show { option: String },
}

impl Default for OptionsCommand {
    fn default() -> (r: OptionsCommand)
        ensures
            r is List,
    {
        OptionsCommand::List
    }
}

/// One invocation of the program.
#[derive(Debug, Clone, PartialEq, Eq)]
pub enum Command {
    /// List available scanners.
    List,
    /// Inspect the options a scanner exposes.
    Options { name: String, command: Option<OptionsCommand> },
    /// Acquire one image and save it at `path`.
    Scan { name: String, options: Vec<(Vec<u8>, String)>, path: String },
    /// Run the interactive front end.
    Tui,
}

/// The parsed command line.
#[derive(Debug, Clone, PartialEq, Eq)]
pub struct Cli {
    pub command: Command,
}

/// The position of the first `c` in `s`, if any.
pub open spec fn first_index_of(s: Seq<char>, c: char) -> Option<int> {
    if exists|i: int| 0 <= i < s.len() && s[i] == c {
        Some(choose|i: int| 0 <= i < s.len() && s[i] == c && forall|j: int| 0 <= j < i ==> s[j] != c)
    } else {
        None
    }
}

/// The key and value of a `key=value` token: split at the first `=`, each
/// side trimmed, the key as its UTF-8 bytes.
pub open spec fn option_token(s: Seq<char>) -> Option<(Seq<u8>, Seq<char>)> {
    match first_index_of(s, '=') {
        Some(i) => Some((
            encode_utf8(trimmed_of(s.subrange(0, i))),
            trimmed_of(s.subrange(i + 1, s.len() as int)),
        )),
        None => None,
    }
}

/// Splits a `key=value` token as given to `--options`.
pub fn split_options(opt: &str) -> (r: Result<(Vec<u8>, String), ScannrsError>)
    ensures
        match r {
            Ok((k, v)) => option_token(opt@) == Some((k@, v@)),
            Err(e) => option_token(opt@) is None && e is InvalidOption,
        },
{
    let n = opt.unicode_len();
    let mut i: usize = 0;
    while i < n
        invariant
            n == opt@.len(),
            i <= n,
            forall|j: int| 0 <= j < i ==> opt@[j] != '=',
        decreases n - i,
    {
        if opt.get_char(i) == '=' {
            let key = trim_str(opt.substring_char(0, i));
            let value = trim_str(opt.substring_char(i + 1, n));
            proof {
                let s = opt@;
                assert(exists|k: int| 0 <= k < s.len() && s[k] == '=');
                let c = first_index_of(s, '=').unwrap();
                assert(c == i as int) by {
                    if c < i as int {
                    } else if c > i as int {
                    }
                };
            }
            return Ok((key.as_bytes_vec(), String::from_str(value)));
        }
        i = i + 1;
    }
    Err(ScannrsError::InvalidOption)
}

} // verus!

//! Arguments of a command line, read from the words that follow the
//! program's name.

use crate::text::{byte_len, starts_with};
use vstd::prelude::*;
use vstd::string::*;
use vstd::utf8::*;

verus! {

/// What a command line asks for.
#[derive(Debug)]
pub struct Arguments {
    /// The program should end before it does any work.
    pub abort: bool,
    /// The input files, in the order in which they were named.
    pub inputs: Vec<String>,
    /// The help text should be shown.
    pub help: bool,
    /// What is wrong with the arguments.
    pub error: Option<String>,
}

/// Arguments by their texts.
pub struct ArgumentsView {
    pub abort: bool,
    pub inputs: Seq<Seq<char>>,
    pub help: bool,
    pub error: Option<Seq<char>>,
}

impl View for Arguments {
    type V = ArgumentsView;

    open spec fn view(&self) -> ArgumentsView {
        ArgumentsView {
            abort: self.abort,
            inputs: Seq::new(self.inputs@.len(), |i: int| self.inputs@[i]@),
            help: self.help,
            error: match self.error {
                Some(text) => Some(text@),
                None => None,
            },
        }
    }
}

/// No input, no request for help, no fault.
pub open spec fn no_arguments() -> ArgumentsView {
    ArgumentsView { abort: false, inputs: Seq::empty(), help: false, error: None }
}

impl Default for Arguments {
    fn default() -> (arguments: Self)
        ensures
            arguments@ == no_arguments(),
    {
        let arguments = Arguments { abort: false, inputs: Vec::new(), help: false, error: None };
        assert(arguments@.inputs =~= Seq::<Seq<char>>::empty());
        arguments
    }
}

/// The help text.
pub open spec fn usage_text() -> Seq<char> {
    "
usage: program [OPTIONS] {output}

OPTIONS
    -h,--help       enable; show this help message
    -v,--verbose    enable; debug message
    -i,--input      list; input files

POSITIONALS
    output          path; indicates where to save outputs

EXAMPLES
    program -i src/main.pl -i src/calc.pl ./out
    "@
}

/// The help text.
pub fn usage() -> (text: String)
    ensures
        text@ == usage_text(),
{
    "
usage: program [OPTIONS] {output}

OPTIONS
    -h,--help       enable; show this help message
    -v,--verbose    enable; debug message
    -i,--input      list; input files

POSITIONALS
    output          path; indicates where to save outputs

EXAMPLES
    program -i src/main.pl -i src/calc.pl ./out
    ".to_owned()
}

/// Whether two texts are the same.
pub fn same_text(a: &str, b: &str) -> (same: bool)
    ensures
        same == (a@ == b@),
{
    proof {
        encode_utf8_decode_utf8(a@);
        encode_utf8_decode_utf8(b@);
        assert(a.spec_bytes().subrange(0, a.spec_bytes().len() as int) =~= a.spec_bytes());
    }
    byte_len(a) == byte_len(b) && starts_with(a, b)
}

/// Whether `key` is one of the two given spellings of a flag.
pub open spec fn is_either(key: Seq<char>, short: Seq<char>, long: Seq<char>) -> bool {
    key == short || key == long
}

/// Whether `key` is one of the two given spellings of a flag.
pub fn eq_any(key: &String, short: &str, long: &str) -> (found: bool)
    ensures
        found == is_either(key@, short@, long@),
{
    same_text(key.as_str(), short) || same_text(key.as_str(), long)
}

/// The message for a flag that wants a value and stands last.
pub open spec fn missing_input() -> Seq<char> {
    "missing value for input"@
}

/// What the words from `from` on add to the arguments read so far. A
/// request for help ends the program after the help text. The flag for an
/// input takes the word behind it as the name of a file, whatever that word
/// is; where no word follows, that is a fault.
pub open spec fn parsed(words: Seq<Seq<char>>, from: int, so_far: ArgumentsView) -> ArgumentsView
    decreases words.len() - from,
{
    if from < 0 || from >= words.len() {
        so_far
    } else {
        let key = words[from];
        let asked = if is_either(key, "-h"@, "--help"@) {
            ArgumentsView { abort: true, help: true, ..so_far }
        } else {
            so_far
        };
        if is_either(key, "-i"@, "--input"@) {
            if from + 1 < words.len() {
                parsed(
                    words,
                    from + 2,
                    ArgumentsView { inputs: asked.inputs.push(words[from + 1]), ..asked },
                )
            } else {
                ArgumentsView { abort: true, help: true, error: Some(missing_input()), ..asked }
            }
        } else {
            parsed(words, from + 1, asked)
        }
    }
}

/// The texts of a list of words.
pub open spec fn texts(words: Seq<String>) -> Seq<Seq<char>> {
    Seq::new(words.len(), |i: int| words[i]@)
}

/// Reads the arguments from the words of a command line.
pub fn parse(words: &Vec<String>) -> (arguments: Arguments)
    ensures
        arguments@ == parsed(texts(words@), 0, no_arguments()),
{
    let mut arguments = Arguments::default();
    let mut i: usize = 0;
    while i < words.len()
        invariant
            i <= words.len(),
            parsed(texts(words@), 0, no_arguments()) == parsed(texts(words@), i as int, arguments@),
        decreases words.len() - i,
    {
        let ghost before = arguments@;
        let key = &words[i];
        assert(texts(words@)[i as int] == key@);
        if eq_any(key, "-h", "--help") {
            arguments.abort = true;
            arguments.help = true;
        }
        assert(arguments@.inputs =~= before.inputs);
        let ghost asked = arguments@;
        i += 1;
        if eq_any(key, "-i", "--input") {
            if i < words.len() {
                let value = words[i].clone();
                assert(texts(words@)[i as int] == value@);
                arguments.inputs.push(value);
                assert(arguments@.inputs =~= asked.inputs.push(value@));
                i += 1;
            } else {
                arguments.abort = true;
                arguments.help = true;
                arguments.error = Some("missing value for input".to_owned());
                assert(arguments@.inputs =~= asked.inputs);
            }
        }
    }
    arguments
}

} // verus!

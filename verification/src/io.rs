//! Prompting for lines of input.

use vstd::prelude::*;
use vstd::string::StringExecFns;

verus! {

/// A reader of input lines that shows a prompt before each line. It decides what
/// is shown; showing it and reading the line are the caller's part.
#[derive(Debug)]
pub struct PromptLinesIter {
    prompt: String,
}

/// The handle of the standard input stream. Nothing is read through it here.
#[verifier::external_type_specification]
#[verifier::external_body]
pub struct ExStdin(std::io::Stdin);

/// Sources of input lines that can be read with a prompt.
pub trait PromptLines {
    /// A reader of the lines of this source that prompts with `prompt`.
    fn prompt_lines(self, prompt: &str) -> (r: PromptLinesIter)
        ensures
            r@ == prompt@,
    ;
}

impl PromptLines for std::io::Stdin {
    fn prompt_lines(self, prompt: &str) -> (r: PromptLinesIter) {
        PromptLinesIter::new(prompt)
    }
}

impl View for PromptLinesIter {
    type V = Seq<char>;

    /// The prompt.
    closed spec fn view(&self) -> Seq<char> {
        self.prompt@
    }
}

impl PromptLinesIter {
    /// A reader that prompts with `prompt`.
    pub fn new(prompt: &str) -> (r: Self)
        ensures
            r@ == prompt@,
    {
        PromptLinesIter { prompt: String::from_str(prompt) }
    }

    /// The prompt.
    pub fn prompt(&self) -> (r: &str)
        ensures
            r@ == self@,
    {
        self.prompt.as_str()
    }

    /// The text to write before a line is awaited: the prompt and one space.
    pub fn prompt_text(&self) -> (r: String)
        ensures
            r@ == self@.push(' '),
    {
        let text = self.prompt.clone().concat(" ");
        proof {
            reveal_strlit(" ");
            assert(" "@ =~= seq![' ']);
            assert(self@ + seq![' '] =~= self@.push(' '));
        }
        text
    }
}

} // verus!

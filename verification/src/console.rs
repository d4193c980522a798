//! The commands of the control console.
//!
//! A command is one line of text. It is read as a list of words, the runs of
//! bytes between ASCII white space. Two shapes are understood:
//! `set renderer.clear_color <name>` with a color name, and `exit`. Every other
//! line is ignored.

use vstd::prelude::*;
use vstd::string::StringSliceAdditionalSpecFns;
use crate::gpu::{Rgb, CHANNEL_ONE, CHANNEL_ZERO};

verus! {

/// What a line of the console asks for.
#[derive(Clone, Copy, Debug, PartialEq, Eq, Structural)]
pub enum Command {
    /// Clear frames to this color from now on.
    SetClearColor(Rgb),
    /// End the process.
    Exit,
    /// Nothing: the line is not a command.
    Ignored,
}

/// Space, tab, line feed, vertical tab, form feed and carriage return separate words.
pub open spec fn is_space(byte: u8) -> bool {
    byte == 0x20 || (0x09 <= byte <= 0x0D)
}

/// The words that are complete after `line`, and the bytes of the word that `line`
/// ends in, which are none where it ends in white space.
pub open spec fn scan(line: Seq<u8>) -> (Seq<Seq<u8>>, Seq<u8>)
    decreases line.len(),
{
    if line.len() == 0 {
        (Seq::empty(), Seq::empty())
    } else {
        let (complete, open) = scan(line.drop_last());
        if !is_space(line.last()) {
            (complete, open.push(line.last()))
        } else if open.len() == 0 {
            (complete, open)
        } else {
            (complete.push(open), Seq::empty())
        }
    }
}

/// The words of `line`, in order.
pub open spec fn words(line: Seq<u8>) -> Seq<Seq<u8>> {
    let (complete, open) = scan(line);
    if open.len() == 0 {
        complete
    } else {
        complete.push(open)
    }
}

pub open spec fn word_set() -> Seq<u8> {
    seq![0x73u8, 0x65, 0x74]
}

pub open spec fn word_exit() -> Seq<u8> {
    seq![0x65u8, 0x78, 0x69, 0x74]
}

pub open spec fn word_clear_color() -> Seq<u8> {
    seq![
        0x72u8, 0x65, 0x6E, 0x64, 0x65, 0x72, 0x65, 0x72, 0x2E, 0x63, 0x6C, 0x65, 0x61, 0x72, 0x5F,
        0x63, 0x6F, 0x6C, 0x6F, 0x72,
    ]
}

pub open spec fn word_red() -> Seq<u8> {
    seq![0x72u8, 0x65, 0x64]
}

pub open spec fn word_green() -> Seq<u8> {
    seq![0x67u8, 0x72, 0x65, 0x65, 0x6E]
}

pub open spec fn word_blue() -> Seq<u8> {
    seq![0x62u8, 0x6C, 0x75, 0x65]
}

/// The color of a name: `red`, `green` and `blue` are the primaries at full strength.
pub open spec fn spec_named_color(name: Seq<u8>) -> Option<Rgb> {
    if name == word_red() {
        Some(Rgb { r: CHANNEL_ONE, g: CHANNEL_ZERO, b: CHANNEL_ZERO })
    } else if name == word_green() {
        Some(Rgb { r: CHANNEL_ZERO, g: CHANNEL_ONE, b: CHANNEL_ZERO })
    } else if name == word_blue() {
        Some(Rgb { r: CHANNEL_ZERO, g: CHANNEL_ZERO, b: CHANNEL_ONE })
    } else {
        None
    }
}

/// The command that a list of words makes.
pub open spec fn spec_command(words: Seq<Seq<u8>>) -> Command {
    if words.len() == 1 && words[0] == word_exit() {
        Command::Exit
    } else if words.len() == 3 && words[0] == word_set() && words[1] == word_clear_color() {
        match spec_named_color(words[2]) {
            Some(color) => Command::SetClearColor(color),
            None => Command::Ignored,
        }
    } else {
        Command::Ignored
    }
}

/// No word is empty, and no word holds white space.
pub proof fn lemma_words_are_words(line: Seq<u8>)
    ensures
        forall|i: int, j: int|
            0 <= i < words(line).len() && 0 <= j < words(line)[i].len() ==> !is_space(
                #[trigger] words(line)[i][j],
            ),
        forall|i: int| 0 <= i < words(line).len() ==> (#[trigger] words(line)[i]).len() > 0,
{
    lemma_scan_clean(line);
}

proof fn lemma_scan_clean(line: Seq<u8>)
    ensures
        forall|i: int, j: int|
            0 <= i < scan(line).0.len() && 0 <= j < scan(line).0[i].len() ==> !is_space(
                #[trigger] scan(line).0[i][j],
            ),
        forall|i: int| 0 <= i < scan(line).0.len() ==> (#[trigger] scan(line).0[i]).len() > 0,
        forall|j: int| 0 <= j < scan(line).1.len() ==> !is_space(#[trigger] scan(line).1[j]),
    decreases line.len(),
{
    if line.len() > 0 {
        lemma_scan_clean(line.drop_last());
        let (complete, open) = scan(line.drop_last());
        let (complete_after, open_after) = scan(line);
        if !is_space(line.last()) {
            assert(complete_after == complete);
            assert(open_after == open.push(line.last()));
            assert forall|j: int| 0 <= j < open_after.len() implies !is_space(
                #[trigger] open_after[j],
            ) by {
                if j < open.len() {
                    assert(open_after[j] == open[j]);
                }
            }
        } else if open.len() == 0 {
            assert(complete_after == complete);
            assert(open_after == open);
        } else {
            assert(complete_after == complete.push(open));
            assert(open_after.len() == 0);
            assert forall|i: int| 0 <= i < complete_after.len() implies (
            #[trigger] complete_after[i]).len() > 0 && forall|j: int|
                0 <= j < complete_after[i].len() ==> !is_space(#[trigger] complete_after[i][j]) by {
                if i < complete.len() {
                    assert(complete_after[i] == complete[i]);
                } else {
                    assert(complete_after[i] == open);
                }
            }
        }
    }
}

/// The bytes of each word of a list.
pub open spec fn word_views(words: Seq<Vec<u8>>) -> Seq<Seq<u8>> {
    words.map_values(|word: Vec<u8>| word@)
}

fn is_space_byte(byte: u8) -> (r: bool)
    ensures
        r == is_space(byte),
{
    byte == 0x20 || (0x09 <= byte && byte <= 0x0D)
}

/// Splits a line into its words.
pub fn split_words(line: &[u8]) -> (r: Vec<Vec<u8>>)
    ensures
        word_views(r@) == words(line@),
{
    let mut complete: Vec<Vec<u8>> = Vec::new();
    let mut open: Vec<u8> = Vec::new();
    let mut i: usize = 0;
    assert(line@.take(0) =~= Seq::<u8>::empty());
    assert(word_views(complete@) =~= Seq::<Seq<u8>>::empty());
    while i < line.len()
        invariant
            i <= line@.len(),
            word_views(complete@) == scan(line@.take(i as int)).0,
            open@ == scan(line@.take(i as int)).1,
        decreases line@.len() - i,
    {
        let byte = line[i];
        proof {
            let prefix = line@.take(i + 1);
            assert(prefix.drop_last() =~= line@.take(i as int));
            assert(prefix.last() == byte);
        }
        if !is_space_byte(byte) {
            open.push(byte);
        } else if open.len() > 0 {
            let ghost before = complete@;
            let ghost word = open@;
            complete.push(open);
            open = Vec::new();
            assert(word_views(complete@) =~= word_views(before).push(word));
        }
        i += 1;
    }
    assert(line@.take(i as int) =~= line@);
    if open.len() > 0 {
        let ghost before = complete@;
        let ghost word = open@;
        complete.push(open);
        assert(word_views(complete@) =~= word_views(before).push(word));
    }
    complete
}

fn same_bytes(left: &[u8], right: &[u8]) -> (r: bool)
    ensures
        r == (left@ == right@),
{
    if left.len() != right.len() {
        return false;
    }
    let mut i: usize = 0;
    while i < left.len()
        invariant
            left@.len() == right@.len(),
            i <= left@.len(),
            forall|j: int| 0 <= j < i ==> left@[j] == right@[j],
        decreases left@.len() - i,
    {
        if left[i] != right[i] {
            return false;
        }
        i += 1;
    }
    assert(left@ =~= right@);
    true
}

/// Looks a color name up.
pub fn named_color(name: &[u8]) -> (r: Option<Rgb>)
    ensures
        r == spec_named_color(name@),
{
    let red: [u8; 3] = [0x72, 0x65, 0x64];
    let green: [u8; 5] = [0x67, 0x72, 0x65, 0x65, 0x6E];
    let blue: [u8; 4] = [0x62, 0x6C, 0x75, 0x65];
    assert(red@ =~= word_red());
    assert(green@ =~= word_green());
    assert(blue@ =~= word_blue());
    if same_bytes(name, red.as_slice()) {
        Some(Rgb { r: CHANNEL_ONE, g: CHANNEL_ZERO, b: CHANNEL_ZERO })
    } else if same_bytes(name, green.as_slice()) {
        Some(Rgb { r: CHANNEL_ZERO, g: CHANNEL_ONE, b: CHANNEL_ZERO })
    } else if same_bytes(name, blue.as_slice()) {
        Some(Rgb { r: CHANNEL_ZERO, g: CHANNEL_ZERO, b: CHANNEL_ONE })
    } else {
        None
    }
}

/// Reads a line of the console.
pub fn parse_command(line: &str) -> (r: Command)
    ensures
        r == spec_command(words(line.spec_bytes())),
{
    let words = split_words(line.as_bytes());
    let set: [u8; 3] = [0x73, 0x65, 0x74];
    let exit: [u8; 4] = [0x65, 0x78, 0x69, 0x74];
    let clear_color: [u8; 20] = [
        0x72, 0x65, 0x6E, 0x64, 0x65, 0x72, 0x65, 0x72, 0x2E, 0x63, 0x6C, 0x65, 0x61, 0x72, 0x5F,
        0x63, 0x6F, 0x6C, 0x6F, 0x72,
    ];
    assert(set@ =~= word_set());
    assert(exit@ =~= word_exit());
    assert(clear_color@ =~= word_clear_color());
    proof {
        let views = word_views(words@);
        assert(forall|i: int| 0 <= i < words@.len() ==> #[trigger] views[i] == words@[i]@);
    }
    if words.len() == 1 && same_bytes(words[0].as_slice(), exit.as_slice()) {
        Command::Exit
    } else if words.len() == 3 && same_bytes(words[0].as_slice(), set.as_slice()) && same_bytes(
        words[1].as_slice(),
        clear_color.as_slice(),
    ) {
        match named_color(words[2].as_slice()) {
            Some(color) => Command::SetClearColor(color),
            None => Command::Ignored,
        }
    } else {
        Command::Ignored
    }
}

} // verus!

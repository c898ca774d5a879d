//! Command words and the queue that holds them until the next tick.

use vstd::prelude::*;
use crate::text::chars_of;

verus! {

/// A command that the timer obeys.
#[derive(Clone, Copy, Debug, PartialEq, Eq, Structural)]
pub enum Command {
    /// Start the timer, or resume it.
    Start,
    /// Pause the timer.
    Pause,
    /// Pause a running timer, start a paused one.
    Toggle,
    /// Pause the timer and end the scheduler loop.
    Stop,
}

/// Whether `c` is white space, as Unicode defines it.
pub open spec fn is_space(c: char) -> bool {
    let n = c as u32;
    ||| 0x09 <= n <= 0x0d
    ||| n == 0x20
    ||| n == 0x85
    ||| n == 0xa0
    ||| n == 0x1680
    ||| 0x2000 <= n <= 0x200a
    ||| n == 0x2028
    ||| n == 0x2029
    ||| n == 0x202f
    ||| n == 0x205f
    ||| n == 0x3000
}

/// `s` without the white space at its start.
pub open spec fn trim_start(s: Seq<char>) -> Seq<char>
    decreases s.len(),
{
    if s.len() > 0 && is_space(s[0]) {
        trim_start(s.drop_first())
    } else {
        s
    }
}

/// `s` without the white space at its end.
pub open spec fn trim_end(s: Seq<char>) -> Seq<char>
    decreases s.len(),
{
    if s.len() > 0 && is_space(s.last()) {
        trim_end(s.drop_last())
    } else {
        s
    }
}

/// `s` without the white space around it.
pub open spec fn trimmed(s: Seq<char>) -> Seq<char> {
    trim_end(trim_start(s))
}

/// The lower-case form of an upper-case ASCII letter; any other character
/// as it is.
pub open spec fn lower(c: char) -> char {
    if 0x41 <= c as u32 <= 0x5a {
        (c as u32 + 0x20) as char
    } else {
        c
    }
}

/// `s` with its ASCII letters in lower case.
pub open spec fn folded(s: Seq<char>) -> Seq<char> {
    s.map_values(|c: char| lower(c))
}

/// The command that a word names, letter for letter.
pub open spec fn word_command(word: Seq<char>) -> Option<Command> {
    if word == "start"@ {
        Some(Command::Start)
    } else if word == "pause"@ {
        Some(Command::Pause)
    } else if word == "toggle"@ {
        Some(Command::Toggle)
    } else if word == "stop"@ {
        Some(Command::Stop)
    } else {
        None
    }
}

/// The command that a line names: the white space around the word does not
/// count, nor does the case of its letters. `None` for any other line.
pub open spec fn command_of(line: Seq<char>) -> Option<Command> {
    word_command(folded(trimmed(line)))
}

/// Whether `c` is white space.
fn char_is_space(c: char) -> (space: bool)
    ensures
        space == is_space(c),
{
    let n: u32 = c as u32;
    (0x09 <= n && n <= 0x0d) || n == 0x20 || n == 0x85 || n == 0xa0 || n == 0x1680 || (0x2000 <= n
        && n <= 0x200a) || n == 0x2028 || n == 0x2029 || n == 0x202f || n == 0x205f || n == 0x3000
}

/// Whether `c`, in lower case, is `letter`.
fn char_folds_to(c: char, letter: char) -> (same: bool)
    ensures
        same == (lower(c) == letter),
{
    let n: u32 = c as u32;
    if 0x41 <= n && n <= 0x5a {
        n + 0x20 == letter as u32
    } else {
        c == letter
    }
}

/// Whether the characters `line[lo..hi]`, in lower case, spell `word`.
fn spells(line: &Vec<char>, lo: usize, hi: usize, word: &str) -> (same: bool)
    requires
        lo <= hi <= line.len(),
    ensures
        same == (folded(line@.subrange(lo as int, hi as int)) == word@),
{
    let letters = chars_of(word);
    let ghost part = line@.subrange(lo as int, hi as int);
    if letters.len() != hi - lo {
        assert(folded(part).len() != word@.len());
        return false;
    }
    let mut k: usize = 0;
    while k < letters.len()
        invariant
            lo <= hi <= line.len(),
            letters.len() == hi - lo,
            letters@ == word@,
            part == line@.subrange(lo as int, hi as int),
            0 <= k <= letters.len(),
            forall|i: int| 0 <= i < k ==> folded(part)[i] == word@[i],
        decreases letters.len() - k,
    {
        if !char_folds_to(line[lo + k], letters[k]) {
            assert(folded(part)[k as int] != word@[k as int]);
            return false;
        }
        k += 1;
    }
    assert(folded(part) =~= word@);
    true
}

/// Dropping leading white space one character at a time.
proof fn lemma_trim_start_step(s: Seq<char>, lo: int)
    requires
        0 <= lo < s.len(),
        is_space(s[lo]),
    ensures
        trim_start(s.subrange(lo, s.len() as int)) == trim_start(
            s.subrange(lo + 1, s.len() as int),
        ),
{
    let rest = s.subrange(lo, s.len() as int);
    assert(rest.drop_first() =~= s.subrange(lo + 1, s.len() as int));
}

/// Dropping trailing white space one character at a time.
proof fn lemma_trim_end_step(s: Seq<char>, lo: int, hi: int)
    requires
        0 <= lo < hi <= s.len(),
        is_space(s[hi - 1]),
    ensures
        trim_end(s.subrange(lo, hi)) == trim_end(s.subrange(lo, hi - 1)),
{
    let rest = s.subrange(lo, hi);
    assert(rest.drop_last() =~= s.subrange(lo, hi - 1));
}

/// The command that a line names, if it names one.
pub fn parse_command(line: &str) -> (command: Option<Command>)
    ensures
        command == command_of(line@),
{
    let chars = chars_of(line);
    let n = chars.len();
    let mut lo: usize = 0;
    assert(line@.subrange(0, n as int) =~= line@);
    while lo < n && char_is_space(chars[lo])
        invariant
            chars@ == line@,
            n == chars.len(),
            0 <= lo <= n,
            trim_start(line@) == trim_start(line@.subrange(lo as int, n as int)),
        decreases n - lo,
    {
        proof {
            lemma_trim_start_step(line@, lo as int);
        }
        lo += 1;
    }
    let mut hi: usize = n;
    while hi > lo && char_is_space(chars[hi - 1])
        invariant
            chars@ == line@,
            n == chars.len(),
            0 <= lo <= hi <= n,
            trim_start(line@) == line@.subrange(lo as int, n as int),
            trimmed(line@) == trim_end(line@.subrange(lo as int, hi as int)),
        decreases hi - lo,
    {
        proof {
            lemma_trim_end_step(line@, lo as int, hi as int);
        }
        hi -= 1;
    }
    assert(trimmed(line@) == line@.subrange(lo as int, hi as int));
    if spells(&chars, lo, hi, "start") {
        Some(Command::Start)
    } else if spells(&chars, lo, hi, "pause") {
        Some(Command::Pause)
    } else if spells(&chars, lo, hi, "toggle") {
        Some(Command::Toggle)
    } else if spells(&chars, lo, hi, "stop") {
        Some(Command::Stop)
    } else {
        None
    }
}

/// The commands that wait for the scheduler, oldest first.
#[derive(Clone, Debug)]
pub struct CommandQueue {
    pending: Vec<Command>,
}

impl View for CommandQueue {
    type V = Seq<Command>;

    closed spec fn view(&self) -> Seq<Command> {
        self.pending@
    }
}

impl CommandQueue {
    /// An empty queue.
    pub fn new() -> (queue: CommandQueue)
        ensures
            queue@ == Seq::<Command>::empty(),
    {
        CommandQueue { pending: Vec::new() }
    }

    /// The number of commands that wait.
    pub fn len(&self) -> (len: usize)
        ensures
            len == self@.len(),
    {
        self.pending.len()
    }

    /// Puts a command at the end of the queue.
    pub fn push(&mut self, command: Command)
        ensures
            final(self)@ == old(self)@.push(command),
    {
        self.pending.push(command);
    }

    /// Reads one line of the command channel. A line that names a command
    /// puts that command at the end of the queue and is accepted; any other
    /// line leaves the queue as it is and is refused.
    pub fn push_line(&mut self, line: &str) -> (accepted: bool)
        ensures
            accepted == command_of(line@) is Some,
            final(self)@ == match command_of(line@) {
                Some(command) => old(self)@.push(command),
                None => old(self)@,
            },
    {
        match parse_command(line) {
            Some(command) => {
                self.pending.push(command);
                true
            },
            None => false,
        }
    }

    /// Takes the oldest command out of the queue, if there is one.
    pub fn pop(&mut self) -> (command: Option<Command>)
        ensures
            old(self)@.len() == 0 ==> command is None && final(self)@ == old(self)@,
            old(self)@.len() > 0 ==> command == Some(old(self)@[0]) && final(self)@ == old(
                self,
            )@.drop_first(),
    {
        if self.pending.len() == 0 {
            None
        } else {
            let command = self.pending.remove(0);
            assert(self.pending@ =~= old(self)@.drop_first());
            Some(command)
        }
    }
}

} // verus!

//! What the user interface decides: which command a line of input is, what a
//! key does to the prompt, and the text of the panels. Drawing and reading
//! keys are left to the caller.

use vstd::prelude::*;
use vstd::string::{StrSliceExecFns, StringExecFns};
use crate::debugger::subordinate::{Progress, ProgressView, State, Subordinate};
use crate::debugger::symbols::Extent;
use crate::error::Error;
use crate::sys::ptrace::Reply;

pub mod panels;

verus! {

/// Something that the interface has to react to.
#[derive(Clone, Copy, Debug, PartialEq, Eq)]
pub enum Event<I> {
    /// The user's input.
    Input(I),
    /// Time has passed.
    Tick,
}

/// A key, as far as the interface tells keys apart.
#[derive(Clone, Copy, Debug, PartialEq, Eq, Structural)]
pub enum Key {
    /// A key that produces a character; the return key produces a line feed.
    Char(char),
    /// The key that deletes the character before the cursor.
    Backspace,
    /// The escape key.
    Esc,
    /// Any other key.
    Other,
}

/// How events are gathered.
#[derive(Clone, Copy, Debug, PartialEq, Eq, Structural)]
pub struct Config {
    /// The key after which no more input is read.
    pub exit_key: Key,
    /// The time between two ticks, in milliseconds.
    pub tick_rate: u64,
}

impl Default for Config {
    fn default() -> (r: Config)
        ensures
            r == (Config { exit_key: Key::Char('q'), tick_rate: 250 }),
    {
        Config { exit_key: Key::Char('q'), tick_rate: 250 }
    }
}

impl Config {
    /// Tells whether the reading of input ends with `key`: it does with the
    /// exit key, unless that key is to be ignored.
    pub fn ends_input(&self, key: Key, ignore_exit_key: bool) -> (r: bool)
        ensures
            r == (!ignore_exit_key && key == self.exit_key),
    {
        !ignore_exit_key && key == self.exit_key
    }
}

/// The value of a hexadecimal digit, in either case.
pub open spec fn hex_digit(c: char) -> Option<nat> {
    if '0' <= c <= '9' {
        Some((c as nat - '0' as nat) as nat)
    } else if 'a' <= c <= 'f' {
        Some((c as nat - 'a' as nat + 10) as nat)
    } else if 'A' <= c <= 'F' {
        Some((c as nat - 'A' as nat + 10) as nat)
    } else {
        None
    }
}

/// Whether every character is a hexadecimal digit.
pub open spec fn all_hex(digits: Seq<char>) -> bool {
    forall|i: int| 0 <= i < digits.len() ==> hex_digit(#[trigger] digits[i]) is Some
}

/// The number that hexadecimal digits write, the first digit counting most.
pub open spec fn hex_value(digits: Seq<char>) -> nat
    decreases digits.len(),
{
    if digits.len() == 0 {
        0
    } else {
        hex_value(digits.drop_last()) * 16 + hex_digit(digits.last()).unwrap()
    }
}

/// The address that a text writes in base 16: one or more hexadecimal
/// digits, after an optional plus sign, whose number fits in 64 bits.
pub open spec fn parse_hex(text: Seq<char>) -> Option<u64> {
    let digits = if text.len() > 0 && text[0] == '+' {
        text.skip(1)
    } else {
        text
    };
    if digits.len() > 0 && all_hex(digits) && hex_value(digits) <= u64::MAX {
        Some(hex_value(digits) as u64)
    } else {
        None
    }
}

/// More digits never write a smaller number.
pub proof fn lemma_hex_value_grows(digits: Seq<char>, shorter: int)
    requires
        0 <= shorter <= digits.len(),
    ensures
        hex_value(digits.take(shorter)) <= hex_value(digits),
    decreases digits.len(),
{
    if shorter == digits.len() {
        assert(digits.take(shorter) =~= digits);
    } else {
        lemma_hex_value_grows(digits.drop_last(), shorter);
        assert(digits.drop_last().take(shorter) =~= digits.take(shorter));
    }
}

/// The value of a character as a hexadecimal digit.
pub fn digit_of(c: char) -> (r: Option<u64>)
    ensures
        r is Some <==> hex_digit(c) is Some,
        r matches Some(value) ==> value == hex_digit(c).unwrap() && value < 16,
{
    if c >= '0' && c <= '9' {
        Some((c as u64) - ('0' as u64))
    } else if c >= 'a' && c <= 'f' {
        Some((c as u64) - ('a' as u64) + 10)
    } else if c >= 'A' && c <= 'F' {
        Some((c as u64) - ('A' as u64) + 10)
    } else {
        None
    }
}

/// Reads a text as an address in base 16.
pub fn parse_address(text: &str) -> (r: Option<u64>)
    ensures
        r == parse_hex(text@),
{
    let length: usize = text.unicode_len();
    if length == 0 {
        return None;
    }
    let start: usize = if text.get_char(0) == '+' {
        1
    } else {
        0
    };
    if start == length {
        return None;
    }
    let ghost digits = text@.skip(start as int);
    proof {
        assert(text@.skip(0) =~= text@);
    }
    let mut value: u64 = 0;
    let mut index: usize = start;
    while index < length
        invariant
            start <= index <= length,
            length == text@.len(),
            digits == text@.skip(start as int),
            digits.len() > 0,
            digits == (if text@.len() > 0 && text@[0] == '+' {
                text@.skip(1)
            } else {
                text@
            }),
            all_hex(digits.take(index - start)),
            value == hex_value(digits.take(index - start)),
        decreases length - index,
    {
        let c = text.get_char(index);
        let ghost read = digits.take(index - start + 1);
        proof {
            assert(read.drop_last() =~= digits.take(index - start));
            assert(read.last() == c);
            lemma_hex_value_grows(digits, index - start + 1);
        }
        match digit_of(c) {
            None => {
                assert(hex_digit(digits[index - start]) is None);
                return None;
            },
            Some(digit) => {
                if value > (u64::MAX - digit) / 16 {
                    return None;
                }
                value = value * 16 + digit;
            },
        }
        index += 1;
    }
    proof {
        assert(digits.take(length - start) =~= digits);
    }
    Some(value)
}

/// The address that the target of a breakpoint names: the target read as an
/// address in base 16 or, where it is none, the entry of the symbol of that
/// name.
pub open spec fn target_address(target: Seq<char>, symbols: Map<Seq<char>, Extent>) -> Option<u64> {
    if parse_hex(target) is Some {
        parse_hex(target)
    } else if symbols.contains_key(target) {
        Some(symbols[target].low_pc)
    } else {
        None
    }
}

/// The text of the error for a target that names no address.
pub open spec fn unknown_target(target: Seq<char>) -> Seq<char> {
    "couldn't set breakpoint on `"@ + target + "`, not a known address or symbol"@
}

/// Whether `after` and `progress` are what comes of setting a breakpoint on
/// `target` in the controller `before`: the breakpoint is begun at the
/// address that the target names, and a target that names none is an error
/// that leaves the controller as it was.
pub open spec fn sets_breakpoint(
    before: State,
    symbols: Map<Seq<char>, Extent>,
    target: Seq<char>,
    after: State,
    progress: Progress,
) -> bool {
    match target_address(target, symbols) {
        Some(address) => {
            &&& after == before.breakpoint(address).0
            &&& progress@ == before.breakpoint(address).1
        },
        None => {
            &&& after == before
            &&& progress matches Progress::Failed(Error::Domain(text))
            &&& text@ == unknown_target(target)
        },
    }
}

/// Begins to set a breakpoint at the address that `addr` names. A target
/// that names none is an error, and nothing is asked of the child.
pub fn set_breakpoint(subordinate: &mut Subordinate, addr: &str) -> (r: Progress)
    requires
        old(subordinate)@.wf(),
        old(subordinate)@.phase is Idle,
    ensures
        final(subordinate)@.wf(),
        final(subordinate).symbols() == old(subordinate).symbols(),
        sets_breakpoint(
            old(subordinate)@,
            old(subordinate).symbols()@,
            addr@,
            final(subordinate)@,
            r,
        ),
{
    if let Some(address) = parse_address(addr) {
        return subordinate.breakpoint(address);
    }
    let fetch: Option<u64> = match subordinate.debug_info().get(addr) {
        Some(symbol) => Some(symbol.low_pc),
        None => None,
    };
    if let Some(address) = fetch {
        return subordinate.breakpoint(address);
    }
    let text = String::from_str("couldn't set breakpoint on `").concat(addr).concat(
        "`, not a known address or symbol",
    );
    Progress::Failed(Error::Domain(text))
}

/// What a line of input asks for.
pub enum Command {
    /// A single step.
    Step,
    /// A continuation.
    Cont,
    /// A breakpoint at the target given.
    Break(Seq<char>),
    /// Nothing that is known.
    Unknown,
}

/// The command that the words of a line make.
pub open spec fn command_of(words: Seq<Seq<char>>) -> Command {
    if words.len() == 1 && (words[0] == "s"@ || words[0] == "step"@) {
        Command::Step
    } else if words.len() == 1 && (words[0] == "c"@ || words[0] == "cont"@) {
        Command::Cont
    } else if words.len() == 2 && (words[0] == "b"@ || words[0] == "break"@) {
        Command::Break(words[1])
    } else {
        Command::Unknown
    }
}

/// The words as mathematical values.
pub open spec fn texts(words: Seq<&str>) -> Seq<Seq<char>> {
    Seq::new(words.len(), |i: int| words[i]@)
}

/// Tells whether two texts are the same, letter for letter.
pub fn same_text(left: &str, right: &str) -> (r: bool)
    ensures
        r == (left@ == right@),
{
    left.to_owned() == right.to_owned()
}

/// Whether `after` and `result` are what comes of the command that `words`
/// make, in the controller `before`. Words that make no command leave the
/// controller as it was and give no result.
pub open spec fn executes(
    before: State,
    symbols: Map<Seq<char>, Extent>,
    words: Seq<Seq<char>>,
    after: State,
    result: Option<Progress>,
) -> bool {
    match command_of(words) {
        Command::Step => {
            &&& after == before.step().0
            &&& result matches Some(progress)
            &&& progress@ == before.step().1
        },
        Command::Cont => {
            &&& after == before.cont().0
            &&& result matches Some(progress)
            &&& progress@ == before.cont().1
        },
        Command::Break(target) => {
            &&& result matches Some(progress)
            &&& sets_breakpoint(before, symbols, target, after, progress)
        },
        Command::Unknown => result is None && after == before,
    }
}

/// Begins what the words of a line of input ask for. `None` comes back for
/// words that make no command; the child is then left alone.
pub fn execute_command(subordinate: &mut Subordinate, cmd: Vec<&str>) -> (r: Option<Progress>)
    requires
        old(subordinate)@.wf(),
        old(subordinate)@.phase is Idle,
    ensures
        final(subordinate)@.wf(),
        final(subordinate).symbols() == old(subordinate).symbols(),
        executes(
            old(subordinate)@,
            old(subordinate).symbols()@,
            texts(cmd@),
            final(subordinate)@,
            r,
        ),
{
    let ghost words = texts(cmd@);
    if cmd.len() == 1 {
        assert(words[0] == cmd@[0]@);
        if same_text(cmd[0], "s") || same_text(cmd[0], "step") {
            return Some(subordinate.step());
        }
        if same_text(cmd[0], "c") || same_text(cmd[0], "cont") {
            return Some(subordinate.cont());
        }
    } else if cmd.len() == 2 {
        assert(words[0] == cmd@[0]@);
        assert(words[1] == cmd@[1]@);
        if same_text(cmd[0], "b") || same_text(cmd[0], "break") {
            return Some(set_breakpoint(subordinate, cmd[1]));
        }
    }
    None
}

/// Whether a character is white space: what `char::is_whitespace` says of it.
pub uninterp spec fn white_space(c: char) -> bool;

/// `char::is_whitespace`: tells whether the character is white space.
#[verifier::external_body]
fn is_space(c: char) -> (r: bool)
    ensures
        r == white_space(c),
{
    c.is_whitespace()
}

/// The `words` found so far, with the word that is open at `at`, if one is.
/// A word is open from `start` on; no word is open where `start` is
/// negative.
pub open spec fn kept(line: Seq<char>, at: int, start: int, words: Seq<Seq<char>>) -> Seq<
    Seq<char>,
> {
    if start >= 0 {
        words.push(line.subrange(start, at))
    } else {
        words
    }
}

/// The words of a line from `at` on, after `words`: a word begins with a
/// character that is no white space and ends before the next white space or
/// with the line.
pub open spec fn split(line: Seq<char>, at: int, start: int, words: Seq<Seq<char>>) -> Seq<
    Seq<char>,
>
    decreases line.len() - at,
{
    if at >= line.len() {
        kept(line, at, start, words)
    } else if white_space(line[at]) {
        split(line, at + 1, -1, kept(line, at, start, words))
    } else {
        split(
            line,
            at + 1,
            if start >= 0 {
                start
            } else {
                at
            },
            words,
        )
    }
}

/// The words of a line: its longest parts without white space, in order.
pub open spec fn whitespace_words(line: Seq<char>) -> Seq<Seq<char>> {
    split(line, 0, -1, Seq::empty())
}

/// Whether a text is a word: it is not empty and holds no white space.
pub open spec fn is_word(text: Seq<char>) -> bool {
    text.len() > 0 && forall|i: int| 0 <= i < text.len() ==> !white_space(#[trigger] text[i])
}

/// Whatever is split, what comes out are words, given that what was found
/// before are words and that the open word holds no white space so far.
pub proof fn lemma_split_gives_words(line: Seq<char>, at: int, start: int, words: Seq<Seq<char>>)
    requires
        0 <= at <= line.len(),
        start < at,
        forall|i: int| 0 <= i < words.len() ==> is_word(#[trigger] words[i]),
        start >= 0 ==> forall|i: int| start <= i < at ==> !white_space(#[trigger] line[i]),
    ensures
        forall|i: int|
            0 <= i < split(line, at, start, words).len() ==> is_word(
                #[trigger] split(line, at, start, words)[i],
            ),
    decreases line.len() - at,
{
    if start >= 0 {
        let word = line.subrange(start, at);
        assert forall|i: int| 0 <= i < word.len() implies !white_space(#[trigger] word[i]) by {
            assert(word[i] == line[start + i]);
        }
        assert(is_word(word));
    }
    let found = kept(line, at, start, words);
    assert forall|i: int| 0 <= i < found.len() implies is_word(#[trigger] found[i]) by {
        if i < words.len() {
            assert(found[i] == words[i]);
        } else {
            assert(found[i] == line.subrange(start, at));
        }
    }
    if at < line.len() {
        if white_space(line[at]) {
            lemma_split_gives_words(line, at + 1, -1, found);
            assert(split(line, at, start, words) == split(line, at + 1, -1, found));
        } else {
            let begun = if start >= 0 {
                start
            } else {
                at
            };
            assert forall|i: int| begun <= i < at + 1 implies !white_space(#[trigger] line[i]) by {
                if i < at {
                    assert(start <= i < at);
                }
            }
            lemma_split_gives_words(line, at + 1, begun, words);
            assert(split(line, at, start, words) == split(line, at + 1, begun, words));
        }
    } else {
        assert(split(line, at, start, words) == found);
    }
}

/// Every word of a line is a word: it is not empty and holds no white
/// space.
pub proof fn law_words_are_words(line: Seq<char>)
    ensures
        forall|i: int|
            0 <= i < whitespace_words(line).len() ==> is_word(#[trigger] whitespace_words(line)[i]),
{
    lemma_split_gives_words(line, 0, -1, Seq::empty());
}

/// Splits a line into its words.
pub fn split_words<'a>(line: &'a str) -> (r: Vec<&'a str>)
    ensures
        texts(r@) == whitespace_words(line@),
{
    let length: usize = line.unicode_len();
    let mut words: Vec<&'a str> = Vec::new();
    let mut begun: Option<usize> = None;
    let mut at: usize = 0;
    proof {
        assert(texts(words@) =~= Seq::<Seq<char>>::empty());
    }
    while at < length
        invariant
            at <= length,
            length == line@.len(),
            begun matches Some(start) ==> start < at,
            whitespace_words(line@) == split(
                line@,
                at as int,
                match begun {
                    Some(start) => start as int,
                    None => -1,
                },
                texts(words@),
            ),
        decreases length - at,
    {
        if is_space(line.get_char(at)) {
            if let Some(start) = begun {
                let word = line.substring_char(start, at);
                proof {
                    assert(texts(words@.push(word)) =~= texts(words@).push(
                        line@.subrange(start as int, at as int),
                    ));
                }
                words.push(word);
            }
            begun = None;
        } else if begun.is_none() {
            begun = Some(at);
        }
        at += 1;
    }
    if let Some(start) = begun {
        let word = line.substring_char(start, length);
        proof {
            assert(texts(words@.push(word)) =~= texts(words@).push(
                line@.subrange(start as int, length as int),
            ));
        }
        words.push(word);
    }
    words
}

/// `String::push`: the character is appended to the text.
#[verifier::external_body]
pub(crate) fn push_char(text: &mut String, c: char)
    ensures
        final(text)@ == old(text)@.push(c),
{
    text.push(c);
}

/// `String::pop`: the last character leaves the text and is returned; an
/// empty text stays empty and nothing is returned.
#[verifier::external_body]
fn pop_char(text: &mut String) -> (r: Option<char>)
    ensures
        old(text)@.len() == 0 ==> r is None && final(text)@ == old(text)@,
        old(text)@.len() > 0 ==> r == Some(old(text)@.last()) && final(text)@ == old(
            text,
        )@.drop_last(),
{
    text.pop()
}

/// What the interface has to do after a key.
#[derive(Debug)]
pub enum Turn {
    /// Go on.
    Stay,
    /// Leave.
    Quit,
    /// The line that was entered makes no command; here it is.
    Unknown(String),
    /// The line that was entered has begun this operation on the child.
    Run(Progress),
}

/// The interface: the line that the user is writing, and the controller that
/// the commands go to.
#[derive(Debug)]
pub struct Tui {
    input: String,
    subordinate: Subordinate,
}

impl Tui {
    /// The line that the user is writing.
    pub closed spec fn line(&self) -> Seq<char> {
        self.input@
    }

    /// The controller.
    pub closed spec fn controller(&self) -> Subordinate {
        self.subordinate
    }

    /// An interface to `subordinate`, with an empty line.
    pub fn new(subordinate: Subordinate) -> (r: Tui)
        ensures
            r.line() == Seq::<char>::empty(),
            r.controller() == subordinate,
    {
        Tui { input: String::new(), subordinate }
    }

    /// The line that the user is writing.
    pub fn input(&self) -> (r: &String)
        ensures
            r@ == self.line(),
    {
        &self.input
    }

    /// The controller.
    pub fn subordinate(&self) -> (r: &Subordinate)
        ensures
            *r == self.controller(),
    {
        &self.subordinate
    }

    /// Takes a key. A character goes to the end of the line, the backspace
    /// key takes the last one away, the escape key leaves. The return key
    /// empties the line and begins the command that its words make.
    pub fn on_key(&mut self, key: Key) -> (r: Turn)
        requires
            old(self).controller()@.wf(),
            old(self).controller()@.phase is Idle,
        ensures
            final(self).controller()@.wf(),
            final(self).controller().symbols() == old(self).controller().symbols(),
            match key {
                Key::Char(c) => if c == '\n' {
                    &&& final(self).line() == Seq::<char>::empty()
                    &&& match r {
                        Turn::Run(progress) => executes(
                            old(self).controller()@,
                            old(self).controller().symbols()@,
                            whitespace_words(old(self).line()),
                            final(self).controller()@,
                            Some(progress),
                        ),
                        Turn::Unknown(text) => text@ == old(self).line() && executes(
                            old(self).controller()@,
                            old(self).controller().symbols()@,
                            whitespace_words(old(self).line()),
                            final(self).controller()@,
                            None,
                        ),
                        _ => false,
                    }
                } else {
                    &&& r is Stay
                    &&& final(self).line() == old(self).line().push(c)
                    &&& final(self).controller() == old(self).controller()
                },
                Key::Backspace => {
                    &&& r is Stay
                    &&& final(self).line() == (if old(self).line().len() > 0 {
                        old(self).line().drop_last()
                    } else {
                        old(self).line()
                    })
                    &&& final(self).controller() == old(self).controller()
                },
                Key::Esc => r is Quit && *final(self) == *old(self),
                Key::Other => r is Stay && *final(self) == *old(self),
            },
    {
        match key {
            Key::Char(c) => {
                if c == '\n' {
                    let mut line = String::new();
                    core::mem::swap(&mut self.input, &mut line);
                    let words = split_words(line.as_str());
                    match execute_command(&mut self.subordinate, words) {
                        Some(progress) => Turn::Run(progress),
                        None => Turn::Unknown(line),
                    }
                } else {
                    push_char(&mut self.input, c);
                    Turn::Stay
                }
            },
            Key::Backspace => {
                pop_char(&mut self.input);
                Turn::Stay
            },
            Key::Esc => Turn::Quit,
            Key::Other => Turn::Stay,
        }
    }

    /// Begins to read `size` bytes of the child's memory from `from` on, for
    /// the listing of instructions.
    pub fn read_bytes(&mut self, from: u64, size: usize) -> (r: Progress)
        requires
            old(self).controller()@.wf(),
            old(self).controller()@.phase is Idle,
            size > 0 ==> from + 8 * ((size - 1) / 8) <= u64::MAX,
        ensures
            final(self).line() == old(self).line(),
            final(self).controller()@ == old(self).controller()@.read_bytes(from, size).0,
            r@ == old(self).controller()@.read_bytes(from, size).1,
            final(self).controller()@.wf(),
            final(self).controller().symbols() == old(self).controller().symbols(),
    {
        self.subordinate.read_bytes(from, size)
    }

    /// Hands the reply to the awaited call to the controller.
    pub fn resume(&mut self, reply: Reply) -> (r: Progress)
        requires
            old(self).controller()@.wf(),
            old(self).controller()@.expects(reply),
        ensures
            final(self).line() == old(self).line(),
            final(self).controller()@ == old(self).controller()@.resume(reply).0,
            r@ == old(self).controller()@.resume(reply).1,
            final(self).controller()@.wf(),
            final(self).controller().symbols() == old(self).controller().symbols(),
    {
        self.subordinate.resume(reply)
    }
}

} // verus!

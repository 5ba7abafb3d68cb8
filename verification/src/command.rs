//! The command line of the node: what a line asks for, and the editing of
//! the line with its history.

use crate::discovery::SERVICE_PORT;
use crate::text::{
    chars_of, find_space, find_word, skip_space, skip_word, spells, text_of, trim, trimmed,
};
use vstd::prelude::*;

verus! {

/// What a command line asks for.
#[derive(Debug, PartialEq, Eq)]
pub enum Command {
    /// The line holds no word.
    Empty,
    /// `find`: watch the peers as they come and go.
    Monitor,
    /// `find-quick`: list the peers known now.
    List,
    /// `connect` with a target: ask that peer for a chat. Where the target
    /// names no port, `default_port` holds the port to add.
    Connect { target: String, default_port: Option<u16> },
    /// `connect` without a target: explain its use.
    ConnectUsage,
    /// `cls` or `clear`: clear the screen.
    Clear,
    /// `help`: list the commands.
    Help,
    /// `exit`: end the program.
    Exit,
    /// Any other first word.
    Unknown,
}

/// A command with its target as a sequence of characters.
pub enum CommandView {
    Empty,
    Monitor,
    List,
    Connect { target: Seq<char>, default_port: Option<u16> },
    ConnectUsage,
    Clear,
    Help,
    Exit,
    Unknown,
}

impl View for Command {
    type V = CommandView;

    open spec fn view(&self) -> CommandView {
        match self {
            Command::Empty => CommandView::Empty,
            Command::Monitor => CommandView::Monitor,
            Command::List => CommandView::List,
            Command::Connect { target, default_port } => CommandView::Connect {
                target: target@,
                default_port: *default_port,
            },
            Command::ConnectUsage => CommandView::ConnectUsage,
            Command::Clear => CommandView::Clear,
            Command::Help => CommandView::Help,
            Command::Exit => CommandView::Exit,
            Command::Unknown => CommandView::Unknown,
        }
    }
}

/// The first word of a line: what stands between the white space at its
/// start and the next white space.
pub open spec fn first_word(line: Seq<char>) -> Seq<char> {
    let start = skip_space(line, 0);
    line.subrange(start, skip_word(line, start))
}

/// The second word of a line, empty where there is none.
pub open spec fn second_word(line: Seq<char>) -> Seq<char> {
    let start = skip_space(line, skip_word(line, skip_space(line, 0)));
    line.subrange(start, skip_word(line, start))
}

/// The port to add to a target: none where the target holds a colon, the
/// service port otherwise.
pub open spec fn default_port_for(target: Seq<char>) -> Option<u16> {
    if target.contains(':') {
        None
    } else {
        Some(SERVICE_PORT)
    }
}

/// What a line asks for. The first word names the command and the second is
/// the target of `connect`; further words are ignored.
pub open spec fn command_of(line: Seq<char>) -> CommandView {
    let word = first_word(line);
    let target = second_word(line);
    if word.len() == 0 {
        CommandView::Empty
    } else if word == "find"@ {
        CommandView::Monitor
    } else if word == "find-quick"@ {
        CommandView::List
    } else if word == "connect"@ {
        if target.len() == 0 {
            CommandView::ConnectUsage
        } else {
            CommandView::Connect { target, default_port: default_port_for(target) }
        }
    } else if word == "cls"@ || word == "clear"@ {
        CommandView::Clear
    } else if word == "help"@ {
        CommandView::Help
    } else if word == "exit"@ {
        CommandView::Exit
    } else {
        CommandView::Unknown
    }
}

fn has_colon(chars: &Vec<char>, from: usize, to: usize) -> (found: bool)
    requires
        from <= to <= chars@.len(),
    ensures
        found == chars@.subrange(from as int, to as int).contains(':'),
{
    let ghost word = chars@.subrange(from as int, to as int);
    let mut i: usize = from;
    while i < to
        invariant
            from <= i <= to <= chars@.len(),
            word == chars@.subrange(from as int, to as int),
            forall|k: int| 0 <= k < i - from ==> word[k] != ':',
        decreases to - i,
    {
        if chars[i] == ':' {
            assert(word[i - from] == ':');
            return true;
        }
        i += 1;
    }
    false
}

/// Reads a command line.
pub fn parse_command(line: &str) -> (command: Command)
    ensures
        command@ == command_of(line@),
{
    let chars = chars_of(line);
    let start = find_word(&chars, 0);
    let end = find_space(&chars, start);
    let target_start = find_word(&chars, end);
    let target_end = find_space(&chars, target_start);
    if start == end {
        Command::Empty
    } else if spells(&chars, start, end, "find") {
        Command::Monitor
    } else if spells(&chars, start, end, "find-quick") {
        Command::List
    } else if spells(&chars, start, end, "connect") {
        if target_start == target_end {
            Command::ConnectUsage
        } else {
            let default_port = if has_colon(&chars, target_start, target_end) {
                None
            } else {
                Some(SERVICE_PORT)
            };
            Command::Connect { target: text_of(&chars, target_start, target_end), default_port }
        }
    } else if spells(&chars, start, end, "cls") || spells(&chars, start, end, "clear") {
        Command::Clear
    } else if spells(&chars, start, end, "help") {
        Command::Help
    } else if spells(&chars, start, end, "exit") {
        Command::Exit
    } else {
        Command::Unknown
    }
}

/// The commands that were entered, oldest first, and the place in them that
/// the arrow keys have moved to. The place after the newest entry stands for
/// the line that is being typed.
pub struct History {
    entries: Vec<String>,
    index: usize,
}

impl History {
    #[verifier::type_invariant]
    spec fn well_formed(&self) -> bool {
        self.index <= self.entries@.len()
    }

    /// The entries, oldest first.
    pub closed spec fn entries(&self) -> Seq<String> {
        self.entries@
    }

    /// The place that the arrow keys have moved to.
    pub closed spec fn index(&self) -> int {
        self.index as int
    }

    /// An empty history.
    pub fn new() -> (history: History)
        ensures
            history.entries() == Seq::<String>::empty(),
            history.index() == 0,
    {
        History { entries: Vec::new(), index: 0 }
    }

    /// The number of entries.
    pub fn len(&self) -> (n: usize)
        ensures
            n == self.entries().len(),
    {
        self.entries.len()
    }

    /// Moves to the entry before and returns it; `None`, and no move, at the
    /// oldest entry and in an empty history.
    pub fn older(&mut self) -> (entry: Option<String>)
        ensures
            final(self).entries() == old(self).entries(),
            old(self).index() > 0 ==> final(self).index() == old(self).index() - 1 && entry
                == Some(old(self).entries()[old(self).index() - 1]),
            old(self).index() == 0 ==> final(self).index() == 0 && entry is None,
    {
        proof {
            use_type_invariant(&*self);
        }
        if self.index > 0 {
            self.index = self.index - 1;
            Some(self.entries[self.index].clone())
        } else {
            None
        }
    }

    /// Moves to the entry after and returns it, or the empty line where the
    /// move leaves the newest entry behind; `None`, and no move, where the
    /// place is already after the newest entry.
    pub fn newer(&mut self) -> (entry: Option<String>)
        ensures
            final(self).entries() == old(self).entries(),
            old(self).index() < old(self).entries().len() ==> final(self).index() == old(
                self,
            ).index() + 1,
            old(self).index() + 1 < old(self).entries().len() ==> entry == Some(
                old(self).entries()[old(self).index() + 1],
            ),
            old(self).index() + 1 == old(self).entries().len() ==> entry is Some && entry->0@
                == Seq::<char>::empty(),
            old(self).index() >= old(self).entries().len() ==> final(self).index() == old(
                self,
            ).index() && entry is None,
    {
        proof {
            use_type_invariant(&*self);
        }
        if self.index < self.entries.len() {
            self.index = self.index + 1;
            if self.index == self.entries.len() {
                Some(String::new())
            } else {
                Some(self.entries[self.index].clone())
            }
        } else {
            None
        }
    }

    /// Files a line that was entered, unless it is empty, and moves to the
    /// place after the newest entry.
    pub fn commit(&mut self, line: &String)
        ensures
            final(self).entries() == (if line@.len() > 0 {
                old(self).entries().push(*line)
            } else {
                old(self).entries()
            }),
            final(self).index() == final(self).entries().len(),
    {
        let mut entries: Vec<String> = Vec::new();
        self.index = 0;
        core::mem::swap(&mut self.entries, &mut entries);
        if !line.as_str().is_empty() {
            entries.push(line.clone());
        }
        let n = entries.len();
        self.entries = entries;
        self.index = n;
    }
}

/// A key press at the prompt, as far as the prompt tells keys apart.
#[derive(Clone, Copy, Debug, PartialEq, Eq, Structural)]
pub enum PromptKey {
    /// A character for the line.
    Char(char),
    /// Remove the last character of the line.
    Backspace,
    /// Recall the command before.
    Up,
    /// Recall the command after.
    Down,
    /// Enter the line.
    Enter,
    /// Any other key.
    Other,
}

/// What the prompt's surroundings are to do after a key press.
#[derive(Debug, PartialEq, Eq)]
pub enum PromptAction {
    /// Nothing changed.
    Nothing,
    /// Show this character after the line.
    Echo(char),
    /// Wipe the last character shown.
    Erase,
    /// Show the line anew.
    Redraw,
    /// Run this line, which holds no white space at its ends.
    Run(String),
}

/// The line that is being typed at the prompt, and the history behind it.
pub struct CommandLine {
    pub input: String,
    pub history: History,
}

impl CommandLine {
    /// An empty line over an empty history.
    pub fn new() -> (line: CommandLine)
        ensures
            line.input@ == Seq::<char>::empty(),
            line.history.entries() == Seq::<String>::empty(),
            line.history.index() == 0,
    {
        CommandLine { input: String::new(), history: History::new() }
    }

    /// Takes one key press.
    ///
    /// A character joins the line and is echoed. `Backspace` removes the
    /// last character, if there is one. `Up` and `Down` move through the
    /// history and put the entry they reach on the line; past the newest
    /// entry the line is empty. `Enter` trims the line, files it in the
    /// history unless it is empty, empties the line and hands the trimmed
    /// line out to be run.
    pub fn on_key(&mut self, pressed: PromptKey) -> (action: PromptAction)
        ensures
            match pressed {
                PromptKey::Char(c) => {
                    &&& final(self).input@ == old(self).input@.push(c)
                    &&& final(self).history == old(self).history
                    &&& action == PromptAction::Echo(c)
                },
                PromptKey::Backspace => {
                    &&& final(self).history == old(self).history
                    &&& if old(self).input@.len() > 0 {
                        final(self).input@ == old(self).input@.drop_last() && action is Erase
                    } else {
                        final(self).input@ == old(self).input@ && action is Nothing
                    }
                },
                PromptKey::Up => {
                    &&& final(self).history.entries() == old(self).history.entries()
                    &&& if old(self).history.index() > 0 {
                        &&& final(self).history.index() == old(self).history.index() - 1
                        &&& final(self).input == old(self).history.entries()[old(
                            self,
                        ).history.index() - 1]
                        &&& action is Redraw
                    } else {
                        &&& final(self).history.index() == 0
                        &&& final(self).input == old(self).input
                        &&& action is Nothing
                    }
                },
                PromptKey::Down => {
                    &&& final(self).history.entries() == old(self).history.entries()
                    &&& if old(self).history.index() < old(self).history.entries().len() {
                        &&& final(self).history.index() == old(self).history.index() + 1
                        &&& final(self).input@ == (if old(self).history.index() + 1 < old(
                            self,
                        ).history.entries().len() {
                            old(self).history.entries()[old(self).history.index() + 1]@
                        } else {
                            Seq::<char>::empty()
                        })
                        &&& action is Redraw
                    } else {
                        &&& final(self).history.index() == old(self).history.index()
                        &&& final(self).input == old(self).input
                        &&& action is Nothing
                    }
                },
                PromptKey::Enter => {
                    &&& action matches PromptAction::Run(line)
                    &&& line@ == trimmed(old(self).input@)
                    &&& final(self).input@ == Seq::<char>::empty()
                    &&& final(self).history.entries() == (if line@.len() > 0 {
                        old(self).history.entries().push(line)
                    } else {
                        old(self).history.entries()
                    })
                    &&& final(self).history.index() == final(self).history.entries().len()
                },
                PromptKey::Other => {
                    &&& final(self).input == old(self).input
                    &&& final(self).history == old(self).history
                    &&& action is Nothing
                },
            },
    {
        match pressed {
            PromptKey::Char(c) => {
                self.input.push(c);
                PromptAction::Echo(c)
            },
            PromptKey::Backspace => {
                match self.input.pop() {
                    Some(_) => PromptAction::Erase,
                    None => PromptAction::Nothing,
                }
            },
            PromptKey::Up => {
                match self.history.older() {
                    Some(entry) => {
                        self.input = entry;
                        PromptAction::Redraw
                    },
                    None => PromptAction::Nothing,
                }
            },
            PromptKey::Down => {
                match self.history.newer() {
                    Some(entry) => {
                        self.input = entry;
                        PromptAction::Redraw
                    },
                    None => PromptAction::Nothing,
                }
            },
            PromptKey::Enter => {
                let line = trim(self.input.as_str());
                self.history.commit(&line);
                self.input.clear();
                PromptAction::Run(line)
            },
            PromptKey::Other => PromptAction::Nothing,
        }
    }
}

} // verus!

//! The chat event handler: turns one inbound chat event into a log line and,
//! for a chat message that starts with `!`, a parsed command.

use vstd::prelude::*;
use vstd::string::*;
use crate::text::same_text;

verus! {

/// Unicode white space, the characters that separate words of a command.
pub open spec fn is_space(c: char) -> bool {
    let n = c as u32;
    ||| 0x9 <= n <= 0xd
    ||| n == 0x20
    ||| n == 0x85
    ||| n == 0xa0
    ||| n == 0x1680
    ||| 0x2000 <= n <= 0x200a
    ||| n == 0x2028
    ||| n == 0x2029
    ||| n == 0x202f
    ||| n == 0x205f
    ||| n == 0x3000
}

/// The first position at or after `i` that holds no white space, or the end.
pub open spec fn skip_space(s: Seq<char>, i: int) -> int
    decreases s.len() - i,
{
    if i < 0 || i >= s.len() {
        i
    } else if is_space(s[i]) {
        skip_space(s, i + 1)
    } else {
        i
    }
}

/// The first position at or after `i` that holds white space, or the end.
pub open spec fn skip_word(s: Seq<char>, i: int) -> int
    decreases s.len() - i,
{
    if i < 0 || i >= s.len() {
        i
    } else if !is_space(s[i]) {
        skip_word(s, i + 1)
    } else {
        i
    }
}

/// A command given in chat: its name and the text after it, if any.
#[derive(Clone, Debug, PartialEq, Eq)]
pub struct ParsedCommand {
    pub name: String,
    pub rest: Option<String>,
}

/// The command in a chat text, as (name, rest): the text starts with `!`,
/// the name is the first word after it, and the rest is what follows the
/// white space after the name.
pub open spec fn command_spec(text: Seq<char>) -> Option<(Seq<char>, Option<Seq<char>>)> {
    if text.len() > 0 && text[0] == '!' {
        let a = skip_space(text, 1);
        let b = skip_word(text, a);
        let c = skip_space(text, b);
        if a == b {
            None
        } else {
            Some(
                (
                    text.subrange(a, b),
                    if c == text.len() {
                        None
                    } else {
                        Some(text.subrange(c, text.len() as int))
                    },
                ),
            )
        }
    } else {
        None
    }
}

/// The view of a parsed command.
pub open spec fn command_view(c: Option<ParsedCommand>) -> Option<(Seq<char>, Option<Seq<char>>)> {
    match c {
        Some(p) => Some(
            (
                p.name@,
                match p.rest {
                    Some(r) => Some(r@),
                    None => None,
                },
            ),
        ),
        None => None,
    }
}

/// Whether `c` is white space.
pub fn is_space_char(c: char) -> (r: bool)
    ensures
        r == is_space(c),
{
    let n = c as u32;
    (0x9 <= n && n <= 0xd) || n == 0x20 || n == 0x85 || n == 0xa0 || n == 0x1680 || (0x2000 <= n
        && n <= 0x200a) || n == 0x2028 || n == 0x2029 || n == 0x202f || n == 0x205f || n == 0x3000
}

fn skip_space_from(s: &str, n: usize, i: usize) -> (r: usize)
    requires
        n == s@.len(),
        1 <= i <= n,
    ensures
        r as int == skip_space(s@, i as int),
        i <= r <= n,
{
    let mut k = i;
    while k < n && is_space_char(s.get_char(k))
        invariant
            n == s@.len(),
            i <= k <= n,
            skip_space(s@, k as int) == skip_space(s@, i as int),
        decreases n - k,
    {
        k = k + 1;
    }
    k
}

fn skip_word_from(s: &str, n: usize, i: usize) -> (r: usize)
    requires
        n == s@.len(),
        1 <= i <= n,
    ensures
        r as int == skip_word(s@, i as int),
        i <= r <= n,
{
    let mut k = i;
    while k < n && !is_space_char(s.get_char(k))
        invariant
            n == s@.len(),
            i <= k <= n,
            skip_word(s@, k as int) == skip_word(s@, i as int),
        decreases n - k,
    {
        k = k + 1;
    }
    k
}

/// Parses a chat text as a `!` command.
pub fn parse_command(text: &str) -> (r: Option<ParsedCommand>)
    ensures
        command_view(r) == command_spec(text@),
{
    let n = text.unicode_len();
    if n == 0 || text.get_char(0) != '!' {
        return None;
    }
    let a = skip_space_from(text, n, 1);
    let b = skip_word_from(text, n, a);
    if a == b {
        return None;
    }
    let c = skip_space_from(text, n, b);
    let name = text.substring_char(a, b).to_owned();
    let rest = if c == n {
        None
    } else {
        Some(text.substring_char(c, n).to_owned())
    };
    Some(ParsedCommand { name, rest })
}

/// An inbound chat event, reduced to what the handler reads.
#[derive(Clone, Debug, PartialEq, Eq)]
#[allow(inconsistent_fields)]
pub enum ChatEvent {
    /// A chat message by a named chatter.
    ChatMessage { chatter: String, text: String },
    /// A chat notification, by a chatter or anonymous.
    ChatNotification { chatter: Option<String>, text: String },
    /// Any other event.
    Other,
}

/// What the handler makes of an event: a line to log, as speaker and text,
/// and the command to hand to the command hook, if any.
#[derive(Clone, Debug, PartialEq, Eq)]
pub struct ChatReaction {
    pub speaker: String,
    pub text: String,
    pub command: Option<ParsedCommand>,
}

/// Handles one event: a chat message is logged and parsed for a command, a
/// notification is logged only, and any other event is ignored.
pub fn handle_event(event: ChatEvent) -> (r: Option<ChatReaction>)
    ensures
        match event {
            ChatEvent::ChatMessage { chatter, text } => r matches Some(x) && x.speaker == chatter
                && x.text == text && command_view(x.command) == command_spec(text@),
            ChatEvent::ChatNotification { chatter, text } => r matches Some(x) && x.text == text
                && x.command is None && match chatter {
                Some(c) => x.speaker == c,
                None => x.speaker@ == "anonymous"@,
            },
            ChatEvent::Other => r is None,
        },
{
    match event {
        ChatEvent::ChatMessage { chatter, text } => {
            let command = parse_command(text.as_str());
            Some(ChatReaction { speaker: chatter, text, command })
        },
        ChatEvent::ChatNotification { chatter, text } => {
            let speaker = match chatter {
                Some(c) => c,
                None => String::from_str("anonymous"),
            };
            Some(ChatReaction { speaker, text, command: None })
        },
        ChatEvent::Other => None,
    }
}

/// The command hook's table: the names of the bound commands, in order of
/// registration. A handler is found by the index of its name; a name that
/// is not bound has no handler and is only logged.
#[derive(Clone, Debug, Default, PartialEq, Eq)]
pub struct CommandTable {
    pub names: Vec<String>,
}

impl CommandTable {
    /// A table with no command bound.
    pub fn new() -> (r: CommandTable)
        ensures
            r.names@.len() == 0,
    {
        CommandTable { names: Vec::new() }
    }

    /// Binds `name` to the next index and returns that index.
    pub fn register(&mut self, name: String) -> (r: usize)
        ensures
            r == old(self).names@.len(),
            final(self).names@ == old(self).names@.push(name),
    {
        let r = self.names.len();
        self.names.push(name);
        r
    }

    /// The index of the first binding of `name`, if any.
    pub fn lookup(&self, name: &str) -> (r: Option<usize>)
        ensures
            match r {
                Some(i) => i < self.names@.len() && self.names@[i as int]@ == name@ && forall|j: int|
                    0 <= j < i ==> (#[trigger] self.names@[j])@ != name@,
                None => forall|j: int| 0 <= j < self.names@.len() ==> (#[trigger] self.names@[j])@ != name@,
            },
    {
        let mut i: usize = 0;
        while i < self.names.len()
            invariant
                i <= self.names@.len(),
                forall|j: int| 0 <= j < i ==> (#[trigger] self.names@[j])@ != name@,
            decreases self.names@.len() - i,
        {
            if same_text(self.names[i].as_str(), name) {
                return Some(i);
            }
            i = i + 1;
        }
        None
    }
}

} // verus!

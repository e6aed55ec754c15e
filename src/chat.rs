use rand::Rng;
use vstd::prelude::*;
use vstd::string::*;

verus! {

/// A chat event as the handler needs it.
pub enum ChatEvent {
    /// A chat message from a named chatter.
    Message { chatter_name: String, text: String },
    /// A chat notification; the chatter may be anonymous.
    Notification { chatter_name: Option<String>, text: String },
    /// Any other event category: ignored.
    Other,
}

/// A chat command: its name and the word after it, if any.
pub struct CommandCall {
    pub name: String,
    pub rest: Option<String>,
}

/// What the handler does with one event: a line to print, and a command to run.
pub struct EventReaction {
    pub line: Option<String>,
    pub command: Option<CommandCall>,
}

/// An outbound action of the chat bot.
pub enum ChatAction {
    /// Reply to the message that carried the command.
    Reply { text: String },
    /// Ban the chatter who sent it, for `duration_secs`.
    Ban { reason: String, duration_secs: u32 },
}

impl CommandCall {
    pub open spec fn view(&self) -> (Seq<char>, Option<Seq<char>>) {
        (self.name@, match self.rest {
            Some(r) => Some(r@),
            None => None,
        })
    }
}

pub open spec fn command_view(c: Option<CommandCall>) -> Option<(Seq<char>, Option<Seq<char>>)> {
    match c {
        Some(x) => Some(x.view()),
        None => None,
    }
}

pub open spec fn line_view(l: Option<String>) -> Option<Seq<char>> {
    match l {
        Some(x) => Some(x@),
        None => None,
    }
}

/// Unicode `White_Space`, the set that `char::is_whitespace` tests.
pub open spec fn is_white(c: char) -> bool {
    let n = c as u32;
    (0x9 <= n && n <= 0xd) || n == 0x20 || n == 0x85 || n == 0xa0 || n == 0x1680 || (0x2000 <= n && n <= 0x200a)
        || n == 0x2028 || n == 0x2029 || n == 0x202f || n == 0x205f || n == 0x3000
}

/// The first index at or after `i` that is not whitespace (or the end).
pub open spec fn skip_white(s: Seq<char>, i: int) -> int
    decreases s.len() - i,
{
    if 0 <= i < s.len() && is_white(s[i]) {
        skip_white(s, i + 1)
    } else {
        i
    }
}

/// The first index at or after `i` that is whitespace (or the end).
pub open spec fn skip_word(s: Seq<char>, i: int) -> int
    decreases s.len() - i,
{
    if 0 <= i < s.len() && !is_white(s[i]) {
        skip_word(s, i + 1)
    } else {
        i
    }
}

/// A message is a command when it starts with `?!` and a word follows: the
/// first whitespace-separated word is its name, the second its argument.
pub open spec fn command_of(s: Seq<char>) -> Option<(Seq<char>, Option<Seq<char>>)> {
    if s.len() >= 2 && s[0] == '?' && s[1] == '!' {
        let a = skip_white(s, 2);
        if a >= s.len() {
            None
        } else {
            let b = skip_word(s, a);
            let c = skip_white(s, b);
            Some((s.subrange(a, b), if c >= s.len() { None } else { Some(s.subrange(c, skip_word(s, c))) }))
        }
    } else {
        None
    }
}

/// `[timestamp] user: text`
pub open spec fn line_text(ts: Seq<char>, user: Seq<char>, text: Seq<char>) -> Seq<char> {
    "["@ + ts + "] "@ + user + ": "@ + text
}

pub open spec fn bang_text(name: Seq<char>) -> Seq<char> {
    name + " took a chance with the revolver, and it went bang! Bye bye "@ + name
}

pub open spec fn spared_text(name: Seq<char>) -> Seq<char> {
    name + " took a chance with the revolver, it clicks, and "@ + name + " is spared to chat another day!"@
}

pub open spec fn is_reply(a: ChatAction, text: Seq<char>) -> bool {
    match a {
        ChatAction::Reply { text: t } => t@ == text,
        _ => false,
    }
}

pub open spec fn is_ban(a: ChatAction, reason: Seq<char>, duration_secs: u32) -> bool {
    match a {
        ChatAction::Ban { reason: r, duration_secs: d } => r@ == reason && d == duration_secs,
        _ => false,
    }
}

/// The roulette with `chamber` drawn: the sixth chamber fires, and the chatter
/// is told so and banned for three minutes; any other clicks and spares them.
pub open spec fn roulette_spec(chamber: u32, chatter: Seq<char>, acts: Seq<ChatAction>) -> bool {
    if chamber == 6 {
        &&& acts.len() == 2
        &&& is_reply(acts[0], bang_text(chatter))
        &&& is_ban(acts[1], "Bro got shot!"@, 180)
    } else {
        &&& acts.len() == 1
        &&& is_reply(acts[0], spared_text(chatter))
    }
}

pub fn is_whitespace_char(c: char) -> (r: bool)
    ensures
        r == is_white(c),
{
    let n = c as u32;
    (0x9 <= n && n <= 0xd) || n == 0x20 || n == 0x85 || n == 0xa0 || n == 0x1680 || (0x2000 <= n && n <= 0x200a)
        || n == 0x2028 || n == 0x2029 || n == 0x202f || n == 0x205f || n == 0x3000
}

fn scan(s: &str, i: usize, white: bool) -> (r: usize)
    requires
        i <= s@.len(),
    ensures
        white ==> r == skip_white(s@, i as int),
        !white ==> r == skip_word(s@, i as int),
        i <= r <= s@.len(),
{
    let len = s.unicode_len();
    let mut j: usize = i;
    while j < len
        invariant
            len == s@.len(),
            i <= j <= len,
            white ==> skip_white(s@, j as int) == skip_white(s@, i as int),
            !white ==> skip_word(s@, j as int) == skip_word(s@, i as int),
        decreases len - j,
    {
        if is_whitespace_char(s.get_char(j)) != white {
            return j;
        }
        j = j + 1;
    }
    j
}

/// The command that `text` carries, if any.
pub fn parse_command(text: &str) -> (r: Option<CommandCall>)
    ensures
        command_view(r) == command_of(text@),
{
    let len = text.unicode_len();
    if len < 2 || text.get_char(0) != '?' || text.get_char(1) != '!' {
        return None;
    }
    let a = scan(text, 2, true);
    if a >= len {
        return None;
    }
    let b = scan(text, a, false);
    let c = scan(text, b, true);
    let name = String::from_str(text.substring_char(a, b));
    let rest = if c >= len {
        None
    } else {
        let d = scan(text, c, false);
        Some(String::from_str(text.substring_char(c, d)))
    };
    Some(CommandCall { name, rest })
}

/// `[timestamp] user: text`
pub fn format_line(ts: &str, user: &str, text: &str) -> (r: String)
    ensures
        r@ == line_text(ts@, user@, text@),
{
    let mut r = String::from_str("[");
    r.append(ts);
    r.append("] ");
    r.append(user);
    r.append(": ");
    r.append(text);
    r
}

/// The reaction to one chat event: chat messages and notifications are
/// printed with their timestamp, and a chat message may carry a command.
pub fn handle_event(event: &ChatEvent, timestamp: &str) -> (r: EventReaction)
    ensures
        match *event {
            ChatEvent::Message { chatter_name, text } => {
                &&& line_view(r.line) == Some(line_text(timestamp@, chatter_name@, text@))
                &&& command_view(r.command) == command_of(text@)
            },
            ChatEvent::Notification { chatter_name, text } => {
                &&& line_view(r.line) == Some(
                    line_text(
                        timestamp@,
                        match chatter_name {
                            Some(n) => n@,
                            None => "anonymous"@,
                        },
                        text@,
                    ),
                )
                &&& r.command is None
            },
            ChatEvent::Other => r.line is None && r.command is None,
        },
{
    match event {
        ChatEvent::Message { chatter_name, text } => EventReaction {
            line: Some(format_line(timestamp, chatter_name.as_str(), text.as_str())),
            command: parse_command(text.as_str()),
        },
        ChatEvent::Notification { chatter_name, text } => {
            let user = match chatter_name {
                Some(n) => n.as_str(),
                None => "anonymous",
            };
            EventReaction { line: Some(format_line(timestamp, user, text.as_str())), command: None }
        },
        ChatEvent::Other => EventReaction { line: None, command: None },
    }
}

/// Relies on `rand::rng` and `Rng::random_range`: an integer drawn from the
/// inclusive range `1..=6`.
#[verifier::external_body]
fn spin_cylinder() -> (r: u32)
    ensures
        1 <= r <= 6,
{
    rand::rng().random_range(1..=6)
}

/// The actions of the roulette for the chamber drawn.
pub fn roulette_actions(chamber: u32, chatter: &str) -> (r: Vec<ChatAction>)
    ensures
        roulette_spec(chamber, chatter@, r@),
{
    let mut text = String::from_str(chatter);
    let mut r = Vec::new();
    if chamber == 6 {
        text.append(" took a chance with the revolver, and it went bang! Bye bye ");
        text.append(chatter);
        r.push(ChatAction::Reply { text });
        r.push(ChatAction::Ban { reason: String::from_str("Bro got shot!"), duration_secs: 180 });
    } else {
        text.append(" took a chance with the revolver, it clicks, and ");
        text.append(chatter);
        text.append(" is spared to chat another day!");
        r.push(ChatAction::Reply { text });
    }
    r
}

/// Text equality, character by character.
pub fn same_str(a: &str, b: &str) -> (r: bool)
    ensures
        r == (a@ == b@),
{
    let n = a.unicode_len();
    if n != b.unicode_len() {
        return false;
    }
    let mut i: usize = 0;
    while i < n
        invariant
            n == a@.len(),
            n == b@.len(),
            i <= n,
            a@.subrange(0, i as int) == b@.subrange(0, i as int),
        decreases n - i,
    {
        if a.get_char(i) != b.get_char(i) {
            return false;
        }
        assert(a@.subrange(0, i + 1) =~= a@.subrange(0, i as int).push(a@[i as int]));
        assert(b@.subrange(0, i + 1) =~= b@.subrange(0, i as int).push(b@[i as int]));
        i = i + 1;
    }
    assert(a@ =~= a@.subrange(0, n as int));
    assert(b@ =~= b@.subrange(0, n as int));
    true
}

/// Run chat command `name` for `chatter`. The only command is `roulette`,
/// which spins the cylinder once; any other name does nothing.
pub fn command(name: &str, chatter: &str) -> (r: Vec<ChatAction>)
    ensures
        name@ == "roulette"@ ==> exists|chamber: u32| 1 <= chamber <= 6 && roulette_spec(chamber, chatter@, r@),
        name@ != "roulette"@ ==> r@.len() == 0,
{
    if same_str(name, "roulette") {
        let chamber = spin_cylinder();
        roulette_actions(chamber, chatter)
    } else {
        Vec::new()
    }
}

} // verus!

//! The console card: a one-line editor and the commands typed into it.
use crate::text::{lemma_split_char_single, parse_u64, parse_u64_spec, split_char, split_on_char, str_eq, views};
use vstd::prelude::*;

verus! {

/// The console card: its title, the text typed so far and the cursor, as a
/// count of characters before it.
#[derive(Debug)]
pub struct ConsoleCard {
    focused: bool,
    pub title: String,
    pub content: String,
    pub cursor_position: usize,
    tab_index: usize,
}

/// A key press the console reacts to.
#[derive(Debug, Clone, Copy, PartialEq, Eq, Structural)]
pub enum ConsoleKey {
    Enter,
    Backspace,
    Delete,
    Left,
    Right,
    Home,
    End,
    Tab,
    Char(char),
    Other,
}

/// What a key press leads to.
#[derive(Debug, PartialEq, Eq)]
pub enum ConsoleAction {
    /// The key changed the card, or did nothing, and needs no more work.
    Handled,
    /// Enter on an empty line: an empty log line is written.
    EmptyLine,
    /// Enter on a command: the command is run.
    Run(String),
    /// The console does not use the key.
    Unhandled,
}

/// The look of a piece of the console line.
#[derive(Debug, Clone, Copy, PartialEq, Eq, Structural)]
pub enum PartStyle {
    /// The block cursor.
    Cursor,
    /// Typed text.
    Text,
    /// The command prefix and the placeholder hint.
    Dim,
}

/// A command typed into the console.
#[derive(Debug, PartialEq, Eq)]
pub enum ConsoleCommand {
    Tasks,
    Fps,
    Help,
    HelpTasks,
    HelpFps,
    HelpPing,
    HelpUser,
    /// Ping the relay, waiting the given number of seconds.
    Ping(u64),
    UserAdd(String),
    UserRemove(String),
    UserList,
    UserInfo(String),
    Reload,
    Shutdown,
    Unknown,
}

/// The console card's state as plain values.
pub struct ConsoleModel {
    pub focused: bool,
    pub title: Seq<char>,
    pub content: Seq<char>,
    pub cursor: nat,
    pub tab_index: nat,
}

impl View for ConsoleCard {
    type V = ConsoleModel;

    closed spec fn view(&self) -> ConsoleModel {
        ConsoleModel {
            focused: self.focused,
            title: self.title@,
            content: self.content@,
            cursor: self.cursor_position as nat,
            tab_index: self.tab_index as nat,
        }
    }
}

/// The character position of the cursor in the text: the cursor position,
/// or the end of the text when the cursor lies beyond it.
pub open spec fn cursor_at(m: ConsoleModel) -> int {
    if m.cursor < m.content.len() {
        m.cursor as int
    } else {
        m.content.len() as int
    }
}

/// `s` with the characters from `start` up to `end` removed.
pub open spec fn cut(s: Seq<char>, start: int, end: int) -> Seq<char> {
    s.subrange(0, start) + s.subrange(end, s.len() as int)
}

/// The state after typing `c`.
pub open spec fn inserted(m: ConsoleModel, c: char) -> ConsoleModel {
    let i = cursor_at(m);
    ConsoleModel {
        content: m.content.subrange(0, i).push(c) + m.content.subrange(i, m.content.len() as int),
        cursor: m.cursor + 1,
        ..m
    }
}

/// The state after Backspace: the character before the cursor goes; when
/// the cursor lies beyond the end, the whole text goes.
pub open spec fn backspaced(m: ConsoleModel) -> ConsoleModel {
    if m.content.len() == 0 || m.cursor == 0 {
        m
    } else {
        let start = if m.cursor - 1 < m.content.len() { m.cursor - 1 } else { 0 };
        ConsoleModel {
            content: cut(m.content, start, cursor_at(m)),
            cursor: (m.cursor - 1) as nat,
            ..m
        }
    }
}

/// The state after Delete: the character under the cursor goes.
pub open spec fn deleted(m: ConsoleModel) -> ConsoleModel {
    if m.cursor < m.content.len() {
        ConsoleModel { content: cut(m.content, m.cursor as int, (m.cursor + 1) as int), ..m }
    } else {
        m
    }
}

/// The state and action after a key press.
pub open spec fn console_key(m: ConsoleModel, key: ConsoleKey) -> (ConsoleModel, ConsoleActionModel) {
    match key {
        ConsoleKey::Enter => if m.content.len() == 0 {
            (m, ConsoleActionModel::EmptyLine)
        } else {
            (
                ConsoleModel { content: Seq::empty(), cursor: 0, tab_index: 0, ..m },
                ConsoleActionModel::Run(m.content),
            )
        },
        ConsoleKey::Backspace => (backspaced(m), ConsoleActionModel::Handled),
        ConsoleKey::Delete => (deleted(m), ConsoleActionModel::Handled),
        ConsoleKey::Left => (
            ConsoleModel { cursor: if m.cursor > 0 { (m.cursor - 1) as nat } else { 0 }, ..m },
            ConsoleActionModel::Handled,
        ),
        ConsoleKey::Right => (
            ConsoleModel {
                cursor: if m.cursor < m.content.len() { m.cursor + 1 } else { m.cursor },
                ..m
            },
            ConsoleActionModel::Handled,
        ),
        ConsoleKey::Home => (ConsoleModel { cursor: 0, ..m }, ConsoleActionModel::Handled),
        ConsoleKey::End => (ConsoleModel { cursor: m.content.len(), ..m }, ConsoleActionModel::Handled),
        ConsoleKey::Tab => (
            if m.content.len() > 0 && m.content[0] == '/' {
                ConsoleModel {
                    tab_index: if m.tab_index < usize::MAX { m.tab_index + 1 } else { m.tab_index },
                    ..m
                }
            } else {
                m
            },
            ConsoleActionModel::Handled,
        ),
        ConsoleKey::Char(c) => (inserted(m, c), ConsoleActionModel::Handled),
        ConsoleKey::Other => (m, ConsoleActionModel::Unhandled),
    }
}

/// An action as plain values.
pub enum ConsoleActionModel {
    Handled,
    EmptyLine,
    Run(Seq<char>),
    Unhandled,
}

/// The model of an action.
pub open spec fn action_model(a: ConsoleAction) -> ConsoleActionModel {
    match a {
        ConsoleAction::Handled => ConsoleActionModel::Handled,
        ConsoleAction::EmptyLine => ConsoleActionModel::EmptyLine,
        ConsoleAction::Run(c) => ConsoleActionModel::Run(c@),
        ConsoleAction::Unhandled => ConsoleActionModel::Unhandled,
    }
}

/// The pieces the console line is drawn from, with their looks.
pub open spec fn line_parts(m: ConsoleModel, cursor_visible: bool) -> Seq<(Seq<char>, PartStyle)> {
    if m.content.len() == 0 {
        if m.focused {
            seq![
                (" "@, if cursor_visible { PartStyle::Cursor } else { PartStyle::Text }),
                ("send command (<help> for info)"@, PartStyle::Dim),
            ]
        } else {
            seq![(" send command (<help> for info)"@, PartStyle::Dim)]
        }
    } else {
        let i = cursor_at(m);
        let before = m.content.subrange(0, i);
        let after = m.content.subrange(i, m.content.len() as int);
        let head: Seq<(Seq<char>, PartStyle)> = if m.content[0] == '/' && before.len() >= 1 {
            let rest = before.subrange(1, before.len() as int);
            seq![("/"@, PartStyle::Dim)] + if rest.len() > 0 {
                seq![(rest, PartStyle::Text)]
            } else {
                Seq::empty()
            }
        } else if before.len() > 0 {
            seq![(before, PartStyle::Text)]
        } else {
            Seq::empty()
        };
        let cur: Seq<(Seq<char>, PartStyle)> = if cursor_visible && m.focused {
            seq![(" "@, PartStyle::Cursor)]
        } else {
            Seq::empty()
        };
        let tail: Seq<(Seq<char>, PartStyle)> = if after.len() > 0 {
            seq![(after, PartStyle::Text)]
        } else {
            Seq::empty()
        };
        head + cur + tail
    }
}

/// The models of drawn pieces.
pub open spec fn parts_view(v: Seq<(String, PartStyle)>) -> Seq<(Seq<char>, PartStyle)> {
    v.map_values(|p: (String, PartStyle)| (p.0@, p.1))
}

/// The command a line of input names, read from its pieces between single
/// spaces.
pub open spec fn command_of(parts: Seq<Seq<char>>) -> ConsoleCommandModel {
    if parts.len() == 1 {
        let a = parts[0];
        if a == "tasks"@ {
            ConsoleCommandModel::Tasks
        } else if a == "fps"@ {
            ConsoleCommandModel::Fps
        } else if a == "help"@ {
            ConsoleCommandModel::Help
        } else if a == "ping"@ {
            ConsoleCommandModel::Ping(20)
        } else if a == "reload"@ || a == "restart"@ {
            ConsoleCommandModel::Reload
        } else if a == "shutdown"@ || a == "stop"@ {
            ConsoleCommandModel::Shutdown
        } else {
            ConsoleCommandModel::Unknown
        }
    } else if parts.len() == 2 {
        let (a, b) = (parts[0], parts[1]);
        if a == "help"@ && b == "tasks"@ {
            ConsoleCommandModel::HelpTasks
        } else if a == "help"@ && b == "fps"@ {
            ConsoleCommandModel::HelpFps
        } else if a == "help"@ && b == "ping"@ {
            ConsoleCommandModel::HelpPing
        } else if a == "help"@ && b == "user"@ {
            ConsoleCommandModel::HelpUser
        } else if a == "ping"@ {
            ConsoleCommandModel::Ping(
                match parse_u64_spec(b) {
                    Some(t) => t,
                    None => 20,
                },
            )
        } else if a == "user"@ && b == "list"@ {
            ConsoleCommandModel::UserList
        } else {
            ConsoleCommandModel::Unknown
        }
    } else if parts.len() == 3 && parts[0] == "user"@ {
        let (b, c) = (parts[1], parts[2]);
        if b == "add"@ {
            ConsoleCommandModel::UserAdd(c)
        } else if b == "remove"@ {
            ConsoleCommandModel::UserRemove(c)
        } else if b == "info"@ {
            ConsoleCommandModel::UserInfo(c)
        } else {
            ConsoleCommandModel::Unknown
        }
    } else {
        ConsoleCommandModel::Unknown
    }
}

/// A command as plain values.
pub enum ConsoleCommandModel {
    Tasks,
    Fps,
    Help,
    HelpTasks,
    HelpFps,
    HelpPing,
    HelpUser,
    Ping(u64),
    UserAdd(Seq<char>),
    UserRemove(Seq<char>),
    UserList,
    UserInfo(Seq<char>),
    Reload,
    Shutdown,
    Unknown,
}

/// The model of a command.
pub open spec fn command_model(c: ConsoleCommand) -> ConsoleCommandModel {
    match c {
        ConsoleCommand::Tasks => ConsoleCommandModel::Tasks,
        ConsoleCommand::Fps => ConsoleCommandModel::Fps,
        ConsoleCommand::Help => ConsoleCommandModel::Help,
        ConsoleCommand::HelpTasks => ConsoleCommandModel::HelpTasks,
        ConsoleCommand::HelpFps => ConsoleCommandModel::HelpFps,
        ConsoleCommand::HelpPing => ConsoleCommandModel::HelpPing,
        ConsoleCommand::HelpUser => ConsoleCommandModel::HelpUser,
        ConsoleCommand::Ping(t) => ConsoleCommandModel::Ping(t),
        ConsoleCommand::UserAdd(n) => ConsoleCommandModel::UserAdd(n@),
        ConsoleCommand::UserRemove(n) => ConsoleCommandModel::UserRemove(n@),
        ConsoleCommand::UserList => ConsoleCommandModel::UserList,
        ConsoleCommand::UserInfo(n) => ConsoleCommandModel::UserInfo(n@),
        ConsoleCommand::Reload => ConsoleCommandModel::Reload,
        ConsoleCommand::Shutdown => ConsoleCommandModel::Shutdown,
        ConsoleCommand::Unknown => ConsoleCommandModel::Unknown,
    }
}

/// Whether the blinking cursor shows, and when it last changed, once `now`
/// (milliseconds) is reached: it changes every half second.
pub open spec fn blink(visible: bool, last_swap: u64, now: u64) -> (bool, u64) {
    if now >= last_swap && now - last_swap >= 500 {
        (!visible, now)
    } else {
        (visible, last_swap)
    }
}

/// Whether the blinking cursor shows at `now_ms`, and when it last changed.
pub fn cursor_blink(visible: bool, last_swap_ms: u64, now_ms: u64) -> (r: (bool, u64))
    ensures
        r == blink(visible, last_swap_ms, now_ms),
{
    if now_ms >= last_swap_ms && now_ms - last_swap_ms >= 500 {
        (!visible, now_ms)
    } else {
        (visible, last_swap_ms)
    }
}

/// The text `s` with the characters from `start` up to `end` removed.
fn cut_text(s: &str, start: usize, end: usize) -> (r: String)
    requires
        start <= end <= s@.len(),
    ensures
        r@ == cut(s@, start as int, end as int),
{
    let mut out = String::from_str(s.substring_char(0, start));
    out.append(s.substring_char(end, s.unicode_len()));
    out
}

impl ConsoleCard {
    /// A card with a title and a starting text, the cursor at its end.
    pub fn new(title: &str, content: &str) -> (r: Self)
        ensures
            r@ == (ConsoleModel {
                focused: false,
                title: title@,
                content: content@,
                cursor: content@.len(),
                tab_index: 0,
            }),
    {
        ConsoleCard {
            focused: false,
            title: String::from_str(title),
            content: String::from_str(content),
            cursor_position: content.unicode_len(),
            tab_index: 0,
        }
    }

    /// Whether the card has the focus.
    pub fn is_focused(&self) -> (r: bool)
        ensures
            r == self@.focused,
    {
        self.focused
    }

    /// Gives or takes the focus.
    pub fn focus(&mut self, f: bool)
        ensures
            final(self)@ == (ConsoleModel { focused: f, ..old(self)@ }),
    {
        self.focused = f;
    }

    /// The position in the text the cursor stands at.
    fn text_index(&self) -> (r: usize)
        ensures
            r == cursor_at(self@),
    {
        let n = self.content.unicode_len();
        if self.cursor_position < n {
            self.cursor_position
        } else {
            n
        }
    }

    /// One step left.
    pub fn move_cursor_left(&mut self)
        ensures
            final(self)@ == console_key(old(self)@, ConsoleKey::Left).0,
    {
        if self.cursor_position > 0 {
            self.cursor_position = self.cursor_position - 1;
        }
    }

    /// One step right, up to the end of the text.
    pub fn move_cursor_right(&mut self)
        ensures
            final(self)@ == console_key(old(self)@, ConsoleKey::Right).0,
    {
        let len = self.content.unicode_len();
        if self.cursor_position < len {
            self.cursor_position = self.cursor_position + 1;
        }
    }

    /// Removes the character before the cursor.
    pub fn delete_at_cursor(&mut self)
        ensures
            final(self)@ == backspaced(old(self)@),
    {
        let n = self.content.unicode_len();
        if n == 0 || self.cursor_position == 0 {
            return;
        }
        let start = if self.cursor_position - 1 < n {
            self.cursor_position - 1
        } else {
            0
        };
        let end = self.text_index();
        let next = cut_text(self.content.as_str(), start, end);
        self.content = next;
        self.cursor_position = self.cursor_position - 1;
    }

    /// Types `c` at the cursor.
    pub fn insert_at_cursor(&mut self, c: char)
        requires
            old(self)@.cursor < usize::MAX,
        ensures
            final(self)@ == inserted(old(self)@, c),
    {
        let i = self.text_index();
        let mut out = String::from_str(self.content.as_str().substring_char(0, i));
        crate::text::push_char(&mut out, c);
        out.append(self.content.as_str().substring_char(i, self.content.unicode_len()));
        self.content = out;
        self.cursor_position = self.cursor_position + 1;
    }

    /// The pieces the console line is drawn from, given whether the
    /// blinking cursor shows.
    pub fn cursor_spans(&self, cursor_visible: bool) -> (r: Vec<(String, PartStyle)>)
        ensures
            parts_view(r@) == line_parts(self@, cursor_visible),
    {
        let ghost m = self@;
        let mut parts: Vec<(String, PartStyle)> = Vec::new();
        let n = self.content.unicode_len();
        if n == 0 {
            if self.focused {
                parts.push(
                    (
                        String::from_str(" "),
                        if cursor_visible {
                            PartStyle::Cursor
                        } else {
                            PartStyle::Text
                        },
                    ),
                );
                parts.push((String::from_str("send command (<help> for info)"), PartStyle::Dim));
            } else {
                parts.push((String::from_str(" send command (<help> for info)"), PartStyle::Dim));
            }
            assert(parts_view(parts@) =~= line_parts(m, cursor_visible));
            return parts;
        }
        let i = self.text_index();
        let s = self.content.as_str();
        let before = s.substring_char(0, i);
        let after = s.substring_char(i, n);
        let ghost head: Seq<(Seq<char>, PartStyle)>;
        if s.get_char(0) == '/' && i >= 1 {
            parts.push((String::from_str("/"), PartStyle::Dim));
            if i > 1 {
                parts.push((String::from_str(before.substring_char(1, i)), PartStyle::Text));
            }
            proof {
                head = parts_view(parts@);
                let rest = before@.subrange(1, before@.len() as int);
                assert(head =~= seq![("/"@, PartStyle::Dim)] + if rest.len() > 0 {
                    seq![(rest, PartStyle::Text)]
                } else {
                    Seq::empty()
                });
            }
        } else {
            if i > 0 {
                parts.push((String::from_str(before), PartStyle::Text));
            }
            proof {
                head = parts_view(parts@);
                assert(head =~= if before@.len() > 0 {
                    seq![(before@, PartStyle::Text)]
                } else {
                    Seq::empty()
                });
            }
        }
        let ghost with_head = parts@;
        if cursor_visible && self.focused {
            parts.push((String::from_str(" "), PartStyle::Cursor));
        }
        let ghost with_cursor = parts@;
        if i < n {
            parts.push((String::from_str(after), PartStyle::Text));
        }
        proof {
            let cur: Seq<(Seq<char>, PartStyle)> = if cursor_visible && m.focused {
                seq![(" "@, PartStyle::Cursor)]
            } else {
                Seq::empty()
            };
            let tail: Seq<(Seq<char>, PartStyle)> = if after@.len() > 0 {
                seq![(after@, PartStyle::Text)]
            } else {
                Seq::empty()
            };
            assert(parts_view(with_cursor) =~= head + cur);
            assert(parts_view(parts@) =~= head + cur + tail);
        }
        parts
    }

    /// Handles a key press.
    pub fn interact(&mut self, key: ConsoleKey) -> (r: ConsoleAction)
        requires
            key is Char ==> old(self)@.cursor < usize::MAX,
        ensures
            (final(self)@, action_model(r)) == console_key(old(self)@, key),
            old(self)@.cursor <= old(self)@.content.len() ==> final(self)@.cursor <= final(self)@.content.len(),
    {
        match key {
            ConsoleKey::Enter => {
                if self.content.unicode_len() == 0 {
                    return ConsoleAction::EmptyLine;
                }
                let command = self.content.clone();
                self.content = String::new();
                self.cursor_position = 0;
                self.tab_index = 0;
                ConsoleAction::Run(command)
            },
            ConsoleKey::Backspace => {
                self.delete_at_cursor();
                ConsoleAction::Handled
            },
            ConsoleKey::Delete => {
                let len = self.content.unicode_len();
                if self.cursor_position < len {
                    let start = self.cursor_position;
                    let next = cut_text(self.content.as_str(), start, start + 1);
                    self.content = next;
                }
                ConsoleAction::Handled
            },
            ConsoleKey::Left => {
                self.move_cursor_left();
                ConsoleAction::Handled
            },
            ConsoleKey::Right => {
                self.move_cursor_right();
                ConsoleAction::Handled
            },
            ConsoleKey::Home => {
                self.cursor_position = 0;
                ConsoleAction::Handled
            },
            ConsoleKey::End => {
                self.cursor_position = self.content.unicode_len();
                ConsoleAction::Handled
            },
            ConsoleKey::Tab => {
                if self.content.unicode_len() > 0 && self.content.as_str().get_char(0) == '/' {
                    self.tab_index = if self.tab_index < usize::MAX {
                        self.tab_index + 1
                    } else {
                        self.tab_index
                    };
                }
                ConsoleAction::Handled
            },
            ConsoleKey::Char(c) => {
                self.insert_at_cursor(c);
                ConsoleAction::Handled
            },
            ConsoleKey::Other => ConsoleAction::Unhandled,
        }
    }
}

/// A line names the shutdown command exactly when it is `shutdown` or its
/// synonym `stop`, and the reload command exactly when it is `reload` or its
/// synonym `restart`.
pub proof fn lemma_command_synonyms(line: Seq<char>)
    ensures
        command_of(split_char(line, ' ')) is Shutdown <==> (line == "shutdown"@ || line == "stop"@),
        command_of(split_char(line, ' ')) is Reload <==> (line == "reload"@ || line == "restart"@),
{
    reveal_strlit("shutdown");
    reveal_strlit("stop");
    reveal_strlit("reload");
    reveal_strlit("restart");
    reveal_strlit("tasks");
    reveal_strlit("fps");
    reveal_strlit("help");
    reveal_strlit("ping");
    lemma_split_char_single(line, ' ');
    let parts = split_char(line, ' ');
    if line == "shutdown"@ || line == "stop"@ || line == "reload"@ || line == "restart"@ {
        assert(forall|j: int| 0 <= j < line.len() ==> line[j] != ' ');
        assert(parts.len() == 1 && parts[0] == line);
        assert(line != "tasks"@ && line != "fps"@ && line != "help"@ && line != "ping"@) by {
            assert("tasks"@.len() == 5 && "fps"@.len() == 3 && "help"@.len() == 4 && "ping"@.len() == 4);
            assert("help"@[0] == 'h' && "ping"@[0] == 'p' && "stop"@[0] == 's');
            assert(line.len() == 4 ==> line == "stop"@);
        }
    }
    if command_of(parts) is Shutdown || command_of(parts) is Reload {
        assert(parts.len() == 1);
        assert(parts[0] == line);
    }
}

/// The command a line of console input names.
pub fn parse_command(command: &str) -> (r: ConsoleCommand)
    ensures
        command_model(r) == command_of(split_char(command@, ' ')),
{
    let parts = split_on_char(command, ' ');
    let ghost p = views(parts@);
    assert(p.len() == parts@.len());
    if parts.len() == 1 {
        let a = parts[0].as_str();
        assert(a@ == p[0]);
        if str_eq(a, "tasks") {
            ConsoleCommand::Tasks
        } else if str_eq(a, "fps") {
            ConsoleCommand::Fps
        } else if str_eq(a, "help") {
            ConsoleCommand::Help
        } else if str_eq(a, "ping") {
            ConsoleCommand::Ping(20)
        } else if str_eq(a, "reload") || str_eq(a, "restart") {
            ConsoleCommand::Reload
        } else if str_eq(a, "shutdown") || str_eq(a, "stop") {
            ConsoleCommand::Shutdown
        } else {
            ConsoleCommand::Unknown
        }
    } else if parts.len() == 2 {
        let a = parts[0].as_str();
        let b = parts[1].as_str();
        assert(a@ == p[0] && b@ == p[1]);
        if str_eq(a, "help") && str_eq(b, "tasks") {
            ConsoleCommand::HelpTasks
        } else if str_eq(a, "help") && str_eq(b, "fps") {
            ConsoleCommand::HelpFps
        } else if str_eq(a, "help") && str_eq(b, "ping") {
            ConsoleCommand::HelpPing
        } else if str_eq(a, "help") && str_eq(b, "user") {
            ConsoleCommand::HelpUser
        } else if str_eq(a, "ping") {
            ConsoleCommand::Ping(
                match parse_u64(b) {
                    Some(t) => t,
                    None => 20,
                },
            )
        } else if str_eq(a, "user") && str_eq(b, "list") {
            ConsoleCommand::UserList
        } else {
            ConsoleCommand::Unknown
        }
    } else if parts.len() == 3 && str_eq(parts[0].as_str(), "user") {
        let b = parts[1].as_str();
        assert(b@ == p[1] && parts@[2]@ == p[2]);
        if str_eq(b, "add") {
            ConsoleCommand::UserAdd(parts[2].clone())
        } else if str_eq(b, "remove") {
            ConsoleCommand::UserRemove(parts[2].clone())
        } else if str_eq(b, "info") {
            ConsoleCommand::UserInfo(parts[2].clone())
        } else {
            ConsoleCommand::Unknown
        }
    } else {
        proof {
            if parts@.len() == 3 {
                assert(parts@[0]@ == p[0]);
            }
        }
        ConsoleCommand::Unknown
    }
}


/// The state after a sequence of key presses.
pub open spec fn after_keys(m: ConsoleModel, keys: Seq<ConsoleKey>) -> ConsoleModel
    decreases keys.len(),
{
    if keys.len() == 0 {
        m
    } else {
        after_keys(console_key(m, keys[0]).0, keys.drop_first())
    }
}

/// A cursor that lies within the text stays within it, whatever keys are
/// pressed.
pub proof fn lemma_cursor_within_content(m: ConsoleModel, keys: Seq<ConsoleKey>)
    requires
        m.cursor <= m.content.len(),
    ensures
        after_keys(m, keys).cursor <= after_keys(m, keys).content.len(),
    decreases keys.len(),
{
    if keys.len() > 0 {
        let next = console_key(m, keys[0]).0;
        assert(next.cursor <= next.content.len());
        lemma_cursor_within_content(next, keys.drop_first());
    }
}

/// Typing a character and deleting it again with backspace leaves the line
/// as it was, when the cursor stands within the text.
pub proof fn lemma_insert_then_backspace(m: ConsoleModel, c: char)
    requires
        m.cursor <= m.content.len(),
    ensures
        backspaced(inserted(m, c)) == m,
{
    let i = m.cursor as int;
    let m1 = inserted(m, c);
    assert(cursor_at(m) == i);
    assert(m1.content.len() == m.content.len() + 1);
    assert(cursor_at(m1) == i + 1);
    assert(cut(m1.content, i, i + 1) =~= m.content);
}

} // verus!

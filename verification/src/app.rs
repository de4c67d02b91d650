//! The client's screen state: which screen is up, the command line being
//! edited, the history, and the message log.
//!
//! Time is a logical reading handed in by the caller's clock; the input
//! line is kept as characters so the cursor always sits on a character
//! boundary.

use vstd::prelude::*;

verus! {

#[derive(Clone, Copy, Debug, PartialEq, Eq, Structural)]
pub enum Screen {
    Connection,
    Command,
    Help,
}

#[derive(Clone, Copy, Debug, PartialEq, Eq, Structural)]
pub enum ConnectionFocus {
    Address,
    Port,
}

#[derive(Clone, Copy, Debug, PartialEq, Eq, Structural)]
pub enum MessageKind {
    Info,
    Error,
    Success,
}

/// One line of the message log.
#[derive(Clone, Debug)]
pub struct Message {
    pub timestamp: u64,
    pub kind: MessageKind,
    pub content: String,
}

/// The whole screen state.
pub struct App {
    pub screen: Screen,
    pub should_quit: bool,
    pub server_addr: String,
    pub server_port: String,
    pub connection_focus: ConnectionFocus,
    pub connected: bool,
    pub current_dir: String,
    pub command_input: Vec<char>,
    pub command_history: Vec<Vec<char>>,
    pub history_index: Option<usize>,
    pub messages: Vec<Message>,
    pub cursor_position: usize,
    pub last_tick: u64,
}

/// Connection and screen fields that the editing and logging methods
/// never touch.
pub open spec fn spec_chrome_unchanged(a: &App, b: &App) -> bool {
    &&& b.screen == a.screen
    &&& b.should_quit == a.should_quit
    &&& b.server_addr@ == a.server_addr@
    &&& b.server_port@ == a.server_port@
    &&& b.connection_focus == a.connection_focus
    &&& b.connected == a.connected
    &&& b.current_dir@ == a.current_dir@
    &&& b.last_tick == a.last_tick
}

/// What one log append leaves: the new line at the end, stamped with the
/// current tick; past a thousand lines the hundred oldest go, order kept.
pub open spec fn spec_log_appended(
    a: &App,
    b: &App,
    kind: MessageKind,
    content: Seq<char>,
) -> bool {
    exists|m: Message|
        m.timestamp == a.last_tick && m.kind == kind && m.content@ == content
            && b.messages@ == (if a.messages@.len() < 1000 {
            #[trigger] a.messages@.push(m)
        } else {
            a.messages@.push(m).skip(100)
        })
}

/// The cursor always sits within the input line, and any history index
/// points at a stored command.
pub open spec fn spec_app_wf(app: &App) -> bool {
    &&& app.cursor_position <= app.command_input@.len()
    &&& app.messages@.len() <= 1000
    &&& match app.history_index {
        Some(i) => i < app.command_history@.len(),
        None => true,
    }
}

impl App {
    /// A fresh client at the connection screen.
    pub fn new() -> (r: App)
        ensures
            spec_app_wf(&r),
            r.screen == Screen::Connection,
            !r.should_quit,
            r.server_addr@ == "127.0.0.1"@,
            r.server_port@ == "5555"@,
            r.connection_focus == ConnectionFocus::Address,
            !r.connected,
            r.current_dir@ == "/"@,
            r.command_input@.len() == 0,
            r.command_history@.len() == 0,
            r.history_index is None,
            r.messages@.len() == 0,
            r.cursor_position == 0,
            r.last_tick == 0,
    {
        App {
            screen: Screen::Connection,
            should_quit: false,
            server_addr: String::from_str("127.0.0.1"),
            server_port: String::from_str("5555"),
            connection_focus: ConnectionFocus::Address,
            connected: false,
            current_dir: String::from_str("/"),
            command_input: Vec::new(),
            command_history: Vec::new(),
            history_index: None,
            messages: Vec::new(),
            cursor_position: 0,
            last_tick: 0,
        }
    }

    /// Appends to the log, dropping the oldest hundred lines once a
    /// thousand accumulate.
    pub fn add_message(&mut self, kind: MessageKind, content: String)
        requires
            spec_app_wf(old(self)),
        ensures
            spec_app_wf(final(self)),
            spec_log_appended(old(self), final(self), kind, content@),
            final(self).messages@.len() <= 1000,
            final(self).messages@.len() > 0,
            final(self).messages@.last().kind == kind,
            final(self).messages@.last().content@ == content@,
            spec_chrome_unchanged(old(self), final(self)),
            final(self).command_input@ == old(self).command_input@,
            final(self).cursor_position == old(self).cursor_position,
            final(self).command_history@ == old(self).command_history@,
            final(self).history_index == old(self).history_index,
    {
        let timestamp = self.last_tick;
        let msg = Message { timestamp, kind, content };
        let ghost logged = msg;
        let ghost before = *self;
        self.messages.push(msg);
        if self.messages.len() > 1000 {
            let ghost full = self.messages@;
            let mut k: usize = 0;
            while k < 100
                invariant
                    k <= 100,
                    full.len() == 1001,
                    self.messages@ == full.skip(k as int),
                    spec_chrome_unchanged(&before, self),
                    self.command_input@ == before.command_input@,
                    self.cursor_position == before.cursor_position,
                    self.command_history@ == before.command_history@,
                    self.history_index == before.history_index,
                decreases 100 - k,
            {
                self.messages.remove(0);
                proof {
                    assert(self.messages@ =~= full.skip(k + 1));
                }
                k = k + 1;
            }
            proof {
                assert(self.messages@.last() == full.last());
                assert(self.messages@ == old(self).messages@.push(logged).skip(100));
            }
        }
        proof {
            assert(spec_log_appended(old(self), self, kind, logged.content@));
        }
    }

    pub fn info(&mut self, content: String)
        requires
            spec_app_wf(old(self)),
        ensures
            spec_app_wf(final(self)),
            spec_log_appended(old(self), final(self), MessageKind::Info, content@),
            final(self).messages@.len() > 0,
            final(self).messages@.last().kind == MessageKind::Info,
            final(self).messages@.last().content@ == content@,
            spec_chrome_unchanged(old(self), final(self)),
            final(self).command_input@ == old(self).command_input@,
            final(self).cursor_position == old(self).cursor_position,
            final(self).command_history@ == old(self).command_history@,
            final(self).history_index == old(self).history_index,
    {
        self.add_message(MessageKind::Info, content);
    }

    pub fn error(&mut self, content: String)
        requires
            spec_app_wf(old(self)),
        ensures
            spec_app_wf(final(self)),
            spec_log_appended(old(self), final(self), MessageKind::Error, content@),
            final(self).messages@.len() > 0,
            final(self).messages@.last().kind == MessageKind::Error,
            final(self).messages@.last().content@ == content@,
            spec_chrome_unchanged(old(self), final(self)),
            final(self).command_input@ == old(self).command_input@,
            final(self).cursor_position == old(self).cursor_position,
            final(self).command_history@ == old(self).command_history@,
            final(self).history_index == old(self).history_index,
    {
        self.add_message(MessageKind::Error, content);
    }

    pub fn success(&mut self, content: String)
        requires
            spec_app_wf(old(self)),
        ensures
            spec_app_wf(final(self)),
            spec_log_appended(old(self), final(self), MessageKind::Success, content@),
            final(self).messages@.len() > 0,
            final(self).messages@.last().kind == MessageKind::Success,
            final(self).messages@.last().content@ == content@,
            spec_chrome_unchanged(old(self), final(self)),
            final(self).command_input@ == old(self).command_input@,
            final(self).cursor_position == old(self).cursor_position,
            final(self).command_history@ == old(self).command_history@,
            final(self).history_index == old(self).history_index,
    {
        self.add_message(MessageKind::Success, content);
    }

    /// Remembers a non-empty command and leaves history browsing.
    pub fn add_to_history(&mut self, command: Vec<char>)
        requires
            spec_app_wf(old(self)),
        ensures
            spec_app_wf(final(self)),
            command@.len() > 0 ==> final(self).command_history@
                == old(self).command_history@.push(command) && final(self).history_index is None,
            command@.len() == 0 ==> final(self).command_history@ == old(self).command_history@
                && final(self).history_index == old(self).history_index,
            spec_chrome_unchanged(old(self), final(self)),
            final(self).command_input@ == old(self).command_input@,
            final(self).cursor_position == old(self).cursor_position,
            final(self).messages@ == old(self).messages@,
    {
        if command.len() > 0 {
            self.command_history.push(command);
            self.history_index = None;
        }
    }

    /// Steps back through the history, wrapping from the oldest entry to
    /// the newest.
    pub fn history_previous(&mut self)
        requires
            spec_app_wf(old(self)),
        ensures
            spec_app_wf(final(self)),
            old(self).command_history@.len() == 0 ==> *final(self) == *old(self),
            old(self).command_history@.len() > 0 ==> {
                let idx = match old(self).history_index {
                    Some(i) => if i == 0 {
                        (old(self).command_history@.len() - 1) as int
                    } else {
                        i - 1
                    },
                    None => (old(self).command_history@.len() - 1) as int,
                };
                &&& final(self).history_index == Some(idx as usize)
                &&& final(self).command_input@ == old(self).command_history@[idx]@
                &&& final(self).cursor_position == final(self).command_input@.len()
            },
            spec_chrome_unchanged(old(self), final(self)),
            final(self).command_history@ == old(self).command_history@,
            final(self).messages@ == old(self).messages@,
    {
        if self.command_history.len() == 0 {
            return;
        }
        let index: usize = match self.history_index {
            Some(i) => if i == 0 {
                self.command_history.len() - 1
            } else {
                i - 1
            },
            None => self.command_history.len() - 1,
        };
        self.history_index = Some(index);
        self.command_input = clone_chars(&self.command_history[index]);
        self.cursor_position = self.command_input.len();
    }

    /// Steps forward through the history, stopping at the newest entry.
    pub fn history_next(&mut self)
        requires
            spec_app_wf(old(self)),
        ensures
            spec_app_wf(final(self)),
            match old(self).history_index {
                None => *final(self) == *old(self),
                Some(i) => {
                    if i + 1 < old(self).command_history@.len() {
                        &&& final(self).history_index == Some((i + 1) as usize)
                        &&& final(self).command_input@ == old(self).command_history@[i + 1]@
                        &&& final(self).cursor_position == final(self).command_input@.len()
                    } else {
                        *final(self) == *old(self)
                    }
                },
            },
            spec_chrome_unchanged(old(self), final(self)),
            final(self).command_history@ == old(self).command_history@,
            final(self).messages@ == old(self).messages@,
    {
        match self.history_index {
            None => {},
            Some(i) => {
                let n = self.command_history.len();
                proof {
                    assert(i < n);
                }
                if i + 1 < n {
                    self.history_index = Some(i + 1);
                    self.command_input = clone_chars(&self.command_history[i + 1]);
                    self.cursor_position = self.command_input.len();
                }
            },
        }
    }

    /// Inserts a character at the cursor.
    pub fn insert_char(&mut self, c: char)
        requires
            spec_app_wf(old(self)),
            old(self).command_input@.len() < usize::MAX,
        ensures
            spec_app_wf(final(self)),
            final(self).command_input@ == old(self).command_input@.insert(
                old(self).cursor_position as int,
                c,
            ),
            final(self).cursor_position == old(self).cursor_position + 1,
            final(self).history_index is None,
            spec_chrome_unchanged(old(self), final(self)),
            final(self).command_history@ == old(self).command_history@,
            final(self).messages@ == old(self).messages@,
    {
        self.command_input.insert(self.cursor_position, c);
        self.cursor_position = self.cursor_position + 1;
        self.history_index = None;
    }

    /// Deletes the character before the cursor, if any.
    pub fn delete_char(&mut self)
        requires
            spec_app_wf(old(self)),
        ensures
            spec_app_wf(final(self)),
            old(self).cursor_position > 0 ==> final(self).command_input@ == old(
                self,
            ).command_input@.remove(old(self).cursor_position - 1) && final(self).cursor_position
                == old(self).cursor_position - 1,
            old(self).cursor_position == 0 ==> *final(self) == *old(self),
            spec_chrome_unchanged(old(self), final(self)),
            final(self).command_history@ == old(self).command_history@,
            final(self).history_index == old(self).history_index,
            final(self).messages@ == old(self).messages@,
    {
        if self.cursor_position > 0 {
            self.command_input.remove(self.cursor_position - 1);
            self.cursor_position = self.cursor_position - 1;
        }
    }

    pub fn move_cursor_left(&mut self)
        requires
            spec_app_wf(old(self)),
        ensures
            spec_app_wf(final(self)),
            final(self).cursor_position == if old(self).cursor_position > 0 {
                (old(self).cursor_position - 1) as usize
            } else {
                0usize
            },
            final(self).command_input@ == old(self).command_input@,
            spec_chrome_unchanged(old(self), final(self)),
            final(self).command_history@ == old(self).command_history@,
            final(self).history_index == old(self).history_index,
            final(self).messages@ == old(self).messages@,
    {
        if self.cursor_position > 0 {
            self.cursor_position = self.cursor_position - 1;
        }
    }

    pub fn move_cursor_right(&mut self)
        requires
            spec_app_wf(old(self)),
        ensures
            spec_app_wf(final(self)),
            final(self).cursor_position == if old(self).cursor_position < old(
                self,
            ).command_input@.len() {
                (old(self).cursor_position + 1) as usize
            } else {
                old(self).cursor_position
            },
            final(self).command_input@ == old(self).command_input@,
            spec_chrome_unchanged(old(self), final(self)),
            final(self).command_history@ == old(self).command_history@,
            final(self).history_index == old(self).history_index,
            final(self).messages@ == old(self).messages@,
    {
        if self.cursor_position < self.command_input.len() {
            self.cursor_position = self.cursor_position + 1;
        }
    }

    pub fn move_cursor_start(&mut self)
        requires
            spec_app_wf(old(self)),
        ensures
            spec_app_wf(final(self)),
            final(self).cursor_position == 0,
            final(self).command_input@ == old(self).command_input@,
            spec_chrome_unchanged(old(self), final(self)),
            final(self).command_history@ == old(self).command_history@,
            final(self).history_index == old(self).history_index,
            final(self).messages@ == old(self).messages@,
    {
        self.cursor_position = 0;
    }

    pub fn move_cursor_end(&mut self)
        requires
            spec_app_wf(old(self)),
        ensures
            spec_app_wf(final(self)),
            final(self).cursor_position == old(self).command_input@.len(),
            final(self).command_input@ == old(self).command_input@,
            spec_chrome_unchanged(old(self), final(self)),
            final(self).command_history@ == old(self).command_history@,
            final(self).history_index == old(self).history_index,
            final(self).messages@ == old(self).messages@,
    {
        self.cursor_position = self.command_input.len();
    }

    /// Hands the typed command over and clears the input line.
    pub fn take_command(&mut self) -> (r: Vec<char>)
        requires
            spec_app_wf(old(self)),
        ensures
            spec_app_wf(final(self)),
            r@ == old(self).command_input@,
            final(self).command_input@.len() == 0,
            final(self).cursor_position == 0,
            final(self).history_index is None,
            spec_chrome_unchanged(old(self), final(self)),
            final(self).command_history@ == old(self).command_history@,
            final(self).messages@ == old(self).messages@,
    {
        let cmd = clone_chars(&self.command_input);
        self.command_input = Vec::new();
        self.cursor_position = 0;
        self.history_index = None;
        cmd
    }

    /// Advances the logical clock.
    pub fn tick(&mut self, now: u64)
        requires
            spec_app_wf(old(self)),
        ensures
            spec_app_wf(final(self)),
            final(self).last_tick == now,
            final(self).screen == old(self).screen,
            final(self).should_quit == old(self).should_quit,
            final(self).server_addr@ == old(self).server_addr@,
            final(self).server_port@ == old(self).server_port@,
            final(self).connection_focus == old(self).connection_focus,
            final(self).connected == old(self).connected,
            final(self).current_dir@ == old(self).current_dir@,
            final(self).command_input@ == old(self).command_input@,
            final(self).cursor_position == old(self).cursor_position,
            final(self).command_history@ == old(self).command_history@,
            final(self).history_index == old(self).history_index,
            final(self).messages@ == old(self).messages@,
    {
        self.last_tick = now;
    }
}

impl Default for App {
    /// A fresh client at the connection screen.
    fn default() -> (r: App)
        ensures
            spec_app_wf(&r),
    {
        App::new()
    }
}

/// Copies a character vector.
fn clone_chars(v: &Vec<char>) -> (r: Vec<char>)
    ensures
        r@ == v@,
{
    let mut out: Vec<char> = Vec::new();
    let mut i: usize = 0;
    while i < v.len()
        invariant
            i <= v@.len(),
            out@ == v@.take(i as int),
        decreases v@.len() - i,
    {
        out.push(v[i]);
        proof {
            assert(out@ =~= v@.take(i + 1));
        }
        i = i + 1;
    }
    proof {
        assert(v@.take(v@.len() as int) =~= v@);
    }
    out
}

} // verus!

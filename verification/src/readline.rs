//! The text side of the `readline` module: splitting input into lines, the
//! state of an interface, and the terminal control sequences it writes.
use crate::text::{chars_of, push_int_decimal, push_str_chars, string_from_chars, int_decimal};
use vstd::prelude::*;
use vstd::string::StringSliceAdditionalSpecFns;
use vstd::utf8::encode_utf8;

verus! {

/// The byte position of the first line break (`\n` or `\r`) in a string.
pub fn find_newline_index(value: &str) -> (r: Option<usize>)
    ensures
        match r {
            Some(i) => i < value.spec_bytes().len() && (value.spec_bytes()[i as int] == 10u8
                || value.spec_bytes()[i as int] == 13u8) && forall|j: int|
                0 <= j < i ==> #[trigger] value.spec_bytes()[j] != 10u8 && value.spec_bytes()[j]
                    != 13u8,
            None => forall|j: int|
                0 <= j < value.spec_bytes().len() ==> #[trigger] value.spec_bytes()[j] != 10u8
                    && value.spec_bytes()[j] != 13u8,
        },
{
    let bytes = value.as_bytes();
    let n = bytes.len();
    let mut i: usize = 0;
    while i < n
        invariant
            bytes@ == value.spec_bytes(),
            n == bytes@.len(),
            i <= n,
            forall|j: int| 0 <= j < i ==> #[trigger] bytes@[j] != 10u8 && bytes@[j] != 13u8,
        decreases n - i,
    {
        let b = bytes[i];
        if b == 10u8 || b == 13u8 {
            return Some(i);
        }
        i = i + 1;
    }
    None
}

/// The sequence that clears the cursor's line: left of it (`dir < 0`), right of
/// it (`dir > 0`), or all of it.
pub open spec fn spec_clear_line_sequence(dir: i32) -> Seq<char> {
    if dir < 0 {
        seq!['\x1b', '[', '1', 'K']
    } else if dir > 0 {
        seq!['\x1b', '[', '0', 'K']
    } else {
        seq!['\x1b', '[', '2', 'K']
    }
}

pub fn clear_line_sequence(dir: i32) -> (r: String)
    ensures
        r@ == spec_clear_line_sequence(dir),
{
    let mut out: Vec<char> = Vec::new();
    out.push('\x1b');
    out.push('[');
    if dir < 0 {
        out.push('1');
    } else if dir > 0 {
        out.push('0');
    } else {
        out.push('2');
    }
    out.push('K');
    assert(out@ =~= spec_clear_line_sequence(dir));
    string_from_chars(&out)
}

/// The sequence that clears the screen from the cursor down.
pub fn clear_screen_down_sequence() -> (r: String)
    ensures
        r@ == seq!['\x1b', '[', '0', 'J'],
{
    let mut out: Vec<char> = Vec::new();
    out.push('\x1b');
    out.push('[');
    out.push('0');
    out.push('J');
    string_from_chars(&out)
}

/// The sequence that moves the cursor to column `x` (and row `y`), counted from 0.
pub open spec fn spec_cursor_to_sequence(x: i32, y: Option<i32>) -> Seq<char> {
    match y {
        Some(y) => seq!['\x1b', '['] + int_decimal(y + 1) + seq![';'] + int_decimal(x + 1) + seq!['H'],
        None => seq!['\x1b', '['] + int_decimal(x + 1) + seq!['G'],
    }
}

pub fn cursor_to_sequence(x: i32, y: Option<i32>) -> (r: String)
    requires
        x < i32::MAX,
        y matches Some(y) ==> y < i32::MAX,
    ensures
        r@ == spec_cursor_to_sequence(x, y),
{
    let mut out: Vec<char> = Vec::new();
    out.push('\x1b');
    out.push('[');
    match y {
        Some(y) => {
            push_int_decimal(&mut out, (y + 1) as i64);
            out.push(';');
            push_int_decimal(&mut out, (x + 1) as i64);
            out.push('H');
        },
        None => {
            push_int_decimal(&mut out, (x + 1) as i64);
            out.push('G');
        },
    }
    assert(out@ =~= spec_cursor_to_sequence(x, y));
    string_from_chars(&out)
}

/// The sequence that moves the cursor by `dx` columns (left when negative) and
/// `dy` rows (up when negative); nothing for a zero move.
pub open spec fn spec_move_cursor_sequence(dx: i32, dy: i32) -> Seq<char> {
    let horizontal = if dx < 0 {
        seq!['\x1b', '['] + int_decimal(-dx) + seq!['D']
    } else if dx > 0 {
        seq!['\x1b', '['] + int_decimal(dx as int) + seq!['C']
    } else {
        Seq::empty()
    };
    let vertical = if dy < 0 {
        seq!['\x1b', '['] + int_decimal(-dy) + seq!['A']
    } else if dy > 0 {
        seq!['\x1b', '['] + int_decimal(dy as int) + seq!['B']
    } else {
        Seq::empty()
    };
    horizontal + vertical
}

pub fn move_cursor_sequence(dx: i32, dy: i32) -> (r: String)
    requires
        dx > i32::MIN,
        dy > i32::MIN,
    ensures
        r@ == spec_move_cursor_sequence(dx, dy),
{
    let mut out: Vec<char> = Vec::new();
    if dx < 0 {
        out.push('\x1b');
        out.push('[');
        push_int_decimal(&mut out, (-dx) as i64);
        out.push('D');
    } else if dx > 0 {
        out.push('\x1b');
        out.push('[');
        push_int_decimal(&mut out, dx as i64);
        out.push('C');
    }
    let ghost h = out@;
    if dy < 0 {
        out.push('\x1b');
        out.push('[');
        push_int_decimal(&mut out, (-dy) as i64);
        out.push('A');
    } else if dy > 0 {
        out.push('\x1b');
        out.push('[');
        push_int_decimal(&mut out, dy as i64);
        out.push('B');
    }
    assert(out@ =~= spec_move_cursor_sequence(dx, dy));
    string_from_chars(&out)
}


pub open spec fn is_line_break(c: char) -> bool {
    c == '\n' || c == '\r'
}

/// The position of the first line break.
pub open spec fn first_line_break(s: Seq<char>) -> Option<int>
    decreases s.len(),
{
    if s.len() == 0 {
        None
    } else if is_line_break(s[0]) {
        Some(0)
    } else {
        match first_line_break(s.drop_first()) {
            Some(i) => Some(i + 1),
            None => None,
        }
    }
}

pub proof fn lemma_first_line_break(s: Seq<char>)
    ensures
        match first_line_break(s) {
            Some(i) => 0 <= i < s.len() && is_line_break(s[i]) && forall|j: int|
                0 <= j < i ==> !is_line_break(#[trigger] s[j]),
            None => forall|j: int| 0 <= j < s.len() ==> !is_line_break(#[trigger] s[j]),
        },
    decreases s.len(),
{
    if s.len() > 0 {
        lemma_first_line_break(s.drop_first());
        if !is_line_break(s[0]) {
            assert forall|j: int| 1 <= j < s.len() implies #[trigger] s[j] == s.drop_first()[j - 1] by {}
        }
    }
}

/// How many characters a line break at `i` takes: two for `\r\n`, else one.
pub open spec fn break_width(s: Seq<char>, i: int) -> int {
    if s[i] == '\r' && i + 1 < s.len() && s[i + 1] == '\n' {
        2
    } else {
        1
    }
}

/// The complete lines at the front of `s` (each ended by `\n`, `\r` or
/// `\r\n`, which are dropped), and what follows the last of them.
pub open spec fn split_lines(s: Seq<char>) -> (Seq<Seq<char>>, Seq<char>)
    decreases s.len(),
{
    match first_line_break(s) {
        None => (Seq::empty(), s),
        Some(i) => {
            proof {
                lemma_first_line_break(s);
            }
            let rest = split_lines(s.skip(i + break_width(s, i)));
            (seq![s.take(i)] + rest.0, rest.1)
        },
    }
}

/// No line and no rest that [`split_lines`] gives holds a line break.
pub proof fn lemma_split_lines_no_breaks(s: Seq<char>)
    ensures
        forall|k: int, j: int|
            0 <= k < split_lines(s).0.len() && 0 <= j < split_lines(s).0[k].len() ==> !is_line_break(
                #[trigger] split_lines(s).0[k][j],
            ),
        forall|j: int| 0 <= j < split_lines(s).1.len() ==> !is_line_break(#[trigger] split_lines(s).1[j]),
    decreases s.len(),
{
    lemma_first_line_break(s);
    match first_line_break(s) {
        None => {},
        Some(i) => {
            let rest = s.skip(i + break_width(s, i));
            lemma_split_lines_no_breaks(rest);
            assert(split_lines(s).1 == split_lines(rest).1);
            let ls = split_lines(s).0;
            assert forall|k: int, j: int| 0 <= k < ls.len() && 0 <= j < ls[k].len() implies !is_line_break(
                #[trigger] ls[k][j],
            ) by {
                if k == 0 {
                    assert(ls[0] == s.take(i));
                    assert(ls[0][j] == s[j]);
                } else {
                    assert(ls[k] == split_lines(rest).0[k - 1]);
                }
            }
        },
    }
}

/// The text state of a readline interface.
#[derive(Debug, Clone)]
pub struct InterfaceState {
    pub terminal: bool,
    pub prompt: String,
    /// What has been typed of the current line.
    pub line: String,
    /// The cursor's byte position in `line`.
    pub cursor: usize,
    pub history: Vec<String>,
    /// Input received that does not yet end a line.
    pub buffer: String,
    /// Lines received and not yet taken, oldest first.
    pub pending_lines: Vec<String>,
    pub closed: bool,
}

pub open spec fn string_views(v: Seq<String>) -> Seq<Seq<char>> {
    v.map_values(|s: String| s@)
}

impl InterfaceState {
    /// A fresh interface state.
    pub fn new(terminal: bool, prompt: String, history: Vec<String>) -> (r: InterfaceState)
        ensures
            r.terminal == terminal,
            r.prompt@ == prompt@,
            r.history@ == history@,
            r.line@.len() == 0,
            r.cursor == 0,
            r.buffer@.len() == 0,
            r.pending_lines@.len() == 0,
            !r.closed,
    {
        InterfaceState {
            terminal,
            prompt,
            line: String::new(),
            cursor: 0,
            history,
            buffer: String::new(),
            pending_lines: Vec::new(),
            closed: false,
        }
    }

    /// The oldest line received and not yet taken.
    pub fn take_line(&mut self) -> (r: Option<String>)
        ensures
            old(self).pending_lines@.len() == 0 ==> r is None && final(self).pending_lines@
                == old(self).pending_lines@,
            old(self).pending_lines@.len() > 0 ==> r == Some(old(self).pending_lines@[0])
                && final(self).pending_lines@ == old(self).pending_lines@.drop_first(),
            final(self).buffer == old(self).buffer,
            final(self).line == old(self).line,
            final(self).cursor == old(self).cursor,
            final(self).history == old(self).history,
            final(self).closed == old(self).closed,
            final(self).terminal == old(self).terminal,
            final(self).prompt == old(self).prompt,
    {
        if self.pending_lines.len() == 0 {
            None
        } else {
            let l = self.pending_lines.remove(0);
            assert(self.pending_lines@ =~= old(self).pending_lines@.drop_first());
            Some(l)
        }
    }

    /// Adds received input: every complete line is split off and queued (see
    /// [`split_lines`]); the rest stays in the buffer, which is also the
    /// current line, with the cursor at its end.
    pub fn push_chunk(&mut self, chunk: &str)
        ensures
            ({
                let (lines, rest) = split_lines(old(self).buffer@ + chunk@);
                &&& string_views(final(self).pending_lines@) == string_views(old(self).pending_lines@) + lines
                &&& final(self).buffer@ == rest
                &&& final(self).line@ == rest
                &&& final(self).cursor == encode_utf8(final(self).line@).len() as usize
            }),
            final(self).history == old(self).history,
            final(self).closed == old(self).closed,
            final(self).prompt == old(self).prompt,
            final(self).terminal == old(self).terminal,
    {
        let mut cs = chars_of(self.buffer.as_str());
        let extra = chars_of(chunk);
        let m = extra.len();
        let mut k: usize = 0;
        while k < m
            invariant
                m == extra@.len(),
                k <= m,
                cs@ == old(self).buffer@ + chunk@.subrange(0, k as int),
                extra@ == chunk@,
            decreases m - k,
        {
            cs.push(extra[k]);
            k = k + 1;
            assert(cs@ =~= old(self).buffer@ + chunk@.subrange(0, k as int));
        }
        assert(chunk@.subrange(0, m as int) =~= chunk@);
        let ghost all = cs@;
        let ghost done: Seq<Seq<char>> = Seq::empty();
        assert(split_lines(all) == (done + split_lines(cs@).0, split_lines(cs@).1));
        loop
            invariant
                split_lines(all) == (done + split_lines(cs@).0, split_lines(cs@).1),
                string_views(self.pending_lines@) == string_views(old(self).pending_lines@) + done,
                self.history == old(self).history,
                self.closed == old(self).closed,
                self.prompt == old(self).prompt,
                self.terminal == old(self).terminal,
            ensures
                split_lines(all) == (done, cs@),
                string_views(self.pending_lines@) == string_views(old(self).pending_lines@) + done,
                self.history == old(self).history,
                self.closed == old(self).closed,
                self.prompt == old(self).prompt,
                self.terminal == old(self).terminal,
            decreases cs@.len(),
        {
            let n = cs.len();
            let mut i: usize = 0;
            while i < n && cs[i] != '\n' && cs[i] != '\r'
                invariant
                    n == cs@.len(),
                    i <= n,
                    forall|j: int| 0 <= j < i ==> !is_line_break(#[trigger] cs@[j]),
                decreases n - i,
            {
                i = i + 1;
            }
            proof {
                lemma_first_line_break(cs@);
            }
            if i == n {
                assert(first_line_break(cs@) is None) by {
                    if let Some(f) = first_line_break(cs@) {
                        assert(!is_line_break(cs@[f]));
                    }
                }
                assert(split_lines(cs@) == (Seq::<Seq<char>>::empty(), cs@));
                assert(done + Seq::<Seq<char>>::empty() =~= done);
                break;
            }
            assert(first_line_break(cs@) == Some(i as int)) by {
                let f = first_line_break(cs@).unwrap();
                if f < i {
                    assert(!is_line_break(cs@[f]));
                }
                if f > i {
                    assert(!is_line_break(cs@[i as int]));
                }
            }
            let advance: usize = if cs[i] == '\r' && i + 1 < n && cs[i + 1] == '\n' {
                2
            } else {
                1
            };
            assert(advance == break_width(cs@, i as int));
            let mut line_chars: Vec<char> = Vec::new();
            let mut j: usize = 0;
            while j < i
                invariant
                    i < n,
                    n == cs@.len(),
                    j <= i,
                    line_chars@ == cs@.subrange(0, j as int),
                decreases i - j,
            {
                line_chars.push(cs[j]);
                j = j + 1;
                assert(line_chars@ =~= cs@.subrange(0, j as int));
            }
            let mut rest: Vec<char> = Vec::new();
            let mut j: usize = i + advance;
            while j < n
                invariant
                    i + advance <= j <= n,
                    n == cs@.len(),
                    rest@ == cs@.subrange(i + advance, j as int),
                decreases n - j,
            {
                rest.push(cs[j]);
                j = j + 1;
                assert(rest@ =~= cs@.subrange(i + advance, j as int));
            }
            let ghost before = cs@;
            let line = string_from_chars(&line_chars);
            let ghost pv = self.pending_lines@;
            self.pending_lines.push(line);
            proof {
                let sl = split_lines(before);
                assert(line_chars@ == before.take(i as int));
                assert(rest@ =~= before.skip(i as int + advance as int));
                assert(sl == (seq![before.take(i as int)] + split_lines(rest@).0, split_lines(rest@).1));
                assert(done + sl.0 =~= done.push(before.take(i as int)) + split_lines(rest@).0);
                assert(string_views(self.pending_lines@) =~= string_views(pv).push(line@));
                assert(string_views(old(self).pending_lines@) + done.push(before.take(i as int))
                    =~= (string_views(old(self).pending_lines@) + done).push(before.take(i as int)));
                done = done.push(before.take(i as int));
            }
            cs = rest;
        }
        assert(split_lines(all) == (done, cs@));
        let buffer = string_from_chars(&cs);
        let line = string_from_chars(&cs);
        self.buffer = buffer;
        self.cursor = line.as_str().len();
        self.line = line;
    }

    /// At the end of the input: the buffered rest of a line, if any (without
    /// a trailing `\r`); the current line is cleared.
    pub fn take_final_line(&mut self) -> (r: Option<String>)
        ensures
            old(self).buffer@.len() == 0 ==> r is None && *final(self) == *old(self),
            old(self).buffer@.len() > 0 ==> {
                let b = old(self).buffer@;
                &&& r matches Some(l) && l@ == (if b.last() == '\r' {
                    b.drop_last()
                } else {
                    b
                })
                &&& final(self).buffer@.len() == 0
                &&& final(self).line@.len() == 0
                &&& final(self).cursor == 0
                &&& final(self).pending_lines == old(self).pending_lines
                &&& final(self).history == old(self).history
                &&& final(self).closed == old(self).closed
            },
    {
        if self.buffer.as_str().is_empty() {
            return None;
        }
        let mut cs = chars_of(self.buffer.as_str());
        let n = cs.len();
        if cs[n - 1] == '\r' {
            cs.pop();
            assert(cs@ =~= old(self).buffer@.drop_last());
        }
        self.buffer = String::new();
        self.line = String::new();
        self.cursor = 0;
        Some(string_from_chars(&cs))
    }

    /// Bookkeeping for a line that was delivered: it goes to the history and
    /// the current line is cleared.
    pub fn finish_line(&mut self, line: String)
        ensures
            final(self).history@ == old(self).history@.push(line),
            final(self).line@.len() == 0,
            final(self).cursor == 0,
            final(self).buffer == old(self).buffer,
            final(self).pending_lines == old(self).pending_lines,
            final(self).closed == old(self).closed,
    {
        self.line = String::new();
        self.cursor = 0;
        self.history.push(line);
    }

    /// Closes the interface; says whether it was open (and so `close` is to be
    /// emitted).
    pub fn close(&mut self) -> (should_emit: bool)
        ensures
            should_emit == !old(self).closed,
            final(self).closed,
            final(self).buffer == old(self).buffer,
            final(self).pending_lines == old(self).pending_lines,
            final(self).history == old(self).history,
    {
        if self.closed {
            false
        } else {
            self.closed = true;
            true
        }
    }
}

/// The `Readline` editor: control sequences queued until a commit, or written
/// at once when it commits automatically.
#[derive(Debug, Clone)]
pub struct ReadlineEditor {
    pub auto_commit: bool,
    pub actions: Vec<String>,
}

pub open spec fn concat_all(v: Seq<Seq<char>>) -> Seq<char>
    decreases v.len(),
{
    if v.len() == 0 {
        Seq::empty()
    } else {
        concat_all(v.drop_last()) + v.last()
    }
}

impl ReadlineEditor {
    pub fn new(auto_commit: bool) -> (r: ReadlineEditor)
        ensures
            r.auto_commit == auto_commit,
            r.actions@.len() == 0,
    {
        ReadlineEditor { auto_commit, actions: Vec::new() }
    }

    /// Queues a sequence, or hands it back to be written now when the editor
    /// commits automatically.
    pub fn queue_or_commit(&mut self, sequence: String) -> (r: Option<String>)
        ensures
            final(self).auto_commit == old(self).auto_commit,
            old(self).auto_commit ==> r == Some(sequence) && final(self).actions@ == old(self).actions@,
            !old(self).auto_commit ==> r is None && final(self).actions@ == old(self).actions@.push(sequence),
    {
        if self.auto_commit {
            Some(sequence)
        } else {
            self.actions.push(sequence);
            None
        }
    }

    /// Takes the queued sequences: their concatenation, in order, if there are any.
    pub fn commit(&mut self) -> (r: Option<String>)
        ensures
            final(self).actions@.len() == 0,
            final(self).auto_commit == old(self).auto_commit,
            old(self).actions@.len() == 0 ==> r is None,
            old(self).actions@.len() > 0 ==> (r matches Some(s) && s@ == concat_all(string_views(old(self).actions@))),
    {
        let n = self.actions.len();
        if n == 0 {
            return None;
        }
        let mut out: Vec<char> = Vec::new();
        let mut i: usize = 0;
        while i < n
            invariant
                n == self.actions@.len(),
                i <= n,
                out@ == concat_all(string_views(self.actions@.subrange(0, i as int))),
            decreases n - i,
        {
            let ghost before = out@;
            push_str_chars(&mut out, self.actions[i].as_str());
            proof {
                let t = string_views(self.actions@.subrange(0, i as int + 1));
                assert(t.drop_last() =~= string_views(self.actions@.subrange(0, i as int)));
                assert(t.last() == self.actions@[i as int]@);
            }
            i = i + 1;
        }
        assert(self.actions@.subrange(0, n as int) =~= self.actions@);
        self.actions = Vec::new();
        Some(string_from_chars(&out))
    }

    /// Drops the queued sequences.
    pub fn rollback(&mut self)
        ensures
            final(self).actions@.len() == 0,
            final(self).auto_commit == old(self).auto_commit,
    {
        self.actions = Vec::new();
    }
}


/// The `readline` module.
pub struct ReadlineModule;

impl ReadlineModule {
    /// The name the module is imported by.
    pub fn name() -> (r: &'static str)
        ensures
            r@ == "readline"@,
    {
        "readline"
    }

    /// The names the module exports.
    pub fn declared_exports() -> (r: Vec<&'static str>)
        ensures
            r@.map_values(|s: &str| s@) == seq![
                "Interface"@,
                "clearLine"@,
                "clearScreenDown"@,
                "createInterface"@,
                "cursorTo"@,
                "moveCursor"@,
                "promises"@,
                "default"@,
            ],
    {
        let mut v: Vec<&'static str> = Vec::new();
        v.push("Interface");
        v.push("clearLine");
        v.push("clearScreenDown");
        v.push("createInterface");
        v.push("cursorTo");
        v.push("moveCursor");
        v.push("promises");
        v.push("default");
        assert(v@.map_values(|s: &str| s@) =~= seq![
            "Interface"@,
            "clearLine"@,
            "clearScreenDown"@,
            "createInterface"@,
            "cursorTo"@,
            "moveCursor"@,
            "promises"@,
            "default"@,
        ]);
        v
    }
}

/// The `readline/promises` module.
pub struct ReadlinePromisesModule;

impl ReadlinePromisesModule {
    /// The name the module is imported by.
    pub fn name() -> (r: &'static str)
        ensures
            r@ == "readline/promises"@,
    {
        "readline/promises"
    }

    /// The names the module exports.
    pub fn declared_exports() -> (r: Vec<&'static str>)
        ensures
            r@.map_values(|s: &str| s@) == seq!["Interface"@, "Readline"@, "createInterface"@, "default"@],
    {
        let mut v: Vec<&'static str> = Vec::new();
        v.push("Interface");
        v.push("Readline");
        v.push("createInterface");
        v.push("default");
        assert(v@.map_values(|s: &str| s@) =~= seq!["Interface"@, "Readline"@, "createInterface"@, "default"@]);
        v
    }
}


/// What waiting for a line comes to.
#[derive(Debug, Clone, PartialEq, Eq)]
pub enum LineStep {
    /// The interface is closed: no line.
    Closed,
    /// The input ended with no line left; the interface is now closed, and
    /// `close` is to be emitted if it was open.
    Ended(bool),
    /// A line (it went to the history and is to be emitted).
    Line(String),
    /// More input is needed.
    NeedInput,
}

impl InterfaceState {
    /// The first step of waiting for the next line: none when closed, else
    /// the oldest pending line, which is finished; else more input is needed,
    /// and the caller reads some and hands it to [`InterfaceState::on_input`].
    pub fn poll_line(&mut self) -> (r: LineStep)
        ensures
            old(self).closed ==> r == LineStep::Closed && *final(self) == *old(self),
            !old(self).closed && old(self).pending_lines@.len() == 0 ==> r == LineStep::NeedInput
                && *final(self) == *old(self),
            !old(self).closed && old(self).pending_lines@.len() > 0 ==> {
                &&& r matches LineStep::Line(l) && l@ == old(self).pending_lines@[0]@
                &&& final(self).pending_lines@ == old(self).pending_lines@.drop_first()
                &&& string_views(final(self).history@) == string_views(old(self).history@).push(old(self).pending_lines@[0]@)
                &&& final(self).line@.len() == 0 && final(self).cursor == 0
                &&& !final(self).closed
            },
    {
        if self.closed {
            return LineStep::Closed;
        }
        if self.pending_lines.len() == 0 {
            return LineStep::NeedInput;
        }
        match self.take_line() {
            Some(line) => {
                let ghost h = self.history@;
                let copy = line.clone();
                self.finish_line(copy);
                assert(string_views(self.history@) =~= string_views(h).push(line@));
                LineStep::Line(line)
            },
            None => LineStep::NeedInput,
        }
    }

    /// The second step of waiting for the next line, once input was read: a
    /// chunk (see [`InterfaceState::push_chunk`]), after which the oldest
    /// pending line is taken; or the end of the input (`None`), which gives the
    /// buffered rest of a line, or else closes the interface. On
    /// [`LineStep::NeedInput`] the wait goes back to [`InterfaceState::poll_line`].
    pub fn on_input(&mut self, chunk: Option<&str>) -> (r: LineStep)
        ensures
            chunk is None && old(self).buffer@.len() == 0 ==> r == LineStep::Ended(!old(self).closed)
                && final(self).closed,
            chunk is None && old(self).buffer@.len() > 0 ==> (r matches LineStep::Line(l) && l@ == (
            if old(self).buffer@.last() == '\r' {
                old(self).buffer@.drop_last()
            } else {
                old(self).buffer@
            })) && final(self).buffer@.len() == 0,
            chunk matches Some(c) ==> {
                let (lines, rest) = split_lines(old(self).buffer@ + c@);
                let pending = string_views(old(self).pending_lines@) + lines;
                &&& final(self).buffer@ == rest
                &&& pending.len() == 0 ==> r == LineStep::NeedInput
                &&& pending.len() > 0 ==> (r matches LineStep::Line(l) && l@ == pending[0])
                &&& string_views(final(self).pending_lines@) == if pending.len() > 0 {
                    pending.drop_first()
                } else {
                    pending
                }
                &&& final(self).closed == old(self).closed
            },
            r matches LineStep::Line(l) ==> {
                &&& string_views(final(self).history@) == string_views(old(self).history@).push(l@)
                &&& final(self).line@.len() == 0
                &&& final(self).cursor == 0
                &&& final(self).closed == old(self).closed
            },
            !(r is Line) ==> final(self).history == old(self).history,
    {
        match chunk {
            None => match self.take_final_line() {
                Some(line) => {
                    let ghost h = self.history@;
                    let copy = line.clone();
                    self.finish_line(copy);
                    assert(string_views(self.history@) =~= string_views(h).push(line@));
                    LineStep::Line(line)
                },
                None => {
                    let should_emit = self.close();
                    LineStep::Ended(should_emit)
                },
            },
            Some(c) => {
                self.push_chunk(c);
                let ghost pv = self.pending_lines@;
                match self.take_line() {
                    Some(line) => {
                        assert(string_views(pv)[0] == pv[0]@);
                        assert(string_views(self.pending_lines@) =~= string_views(pv).drop_first());
                        let ghost h = self.history@;
                        let copy = line.clone();
                        self.finish_line(copy);
                        assert(string_views(self.history@) =~= string_views(h).push(line@));
                        LineStep::Line(line)
                    },
                    None => {
                        assert(string_views(pv).len() == 0);
                        LineStep::NeedInput
                    },
                }
            },
        }
    }
}

/// Why a question is refused at once.
pub fn question_refusal(closed: bool, aborted: bool) -> (r: Option<&'static str>)
    ensures
        closed ==> (r matches Some(m) && m@ == "readline was closed"@),
        !closed && aborted ==> (r matches Some(m) && m@ == "The operation was aborted"@),
        !closed && !aborted ==> r is None,
{
    if closed {
        Some("readline was closed")
    } else if aborted {
        Some("The operation was aborted")
    } else {
        None
    }
}

/// The options object of `createInterface`, when given one with an `input`.
pub struct InterfaceOptions<V, O> {
    pub input: V,
    pub output: Option<O>,
    pub terminal: Option<bool>,
    pub prompt: Option<String>,
    pub history: Option<Vec<String>>,
}

/// What an interface is made from.
pub struct InterfaceArgs<V, O> {
    pub input: V,
    pub output: Option<O>,
    pub terminal: bool,
    pub prompt: String,
    pub history: Vec<String>,
}

/// The arguments of an interface: from the options object where one with an
/// `input` was given (its `output` and `terminal` before the separate ones),
/// else from the input and the separate arguments; `terminal` defaults to
/// false, the prompt and the history to empty.
pub fn parse_interface_args<V, O>(
    input_or_options: V,
    options: Option<InterfaceOptions<V, O>>,
    output: Option<O>,
    terminal: Option<bool>,
) -> (r: InterfaceArgs<V, O>)
    ensures
        match options {
            Some(o) => {
                &&& r.input == o.input
                &&& r.output == (if o.output is Some { o.output } else { output })
                &&& r.terminal == (if let Some(t) = o.terminal { t } else if let Some(t) = terminal { t } else { false })
                &&& r.prompt@ == (if let Some(p) = o.prompt { p@ } else { Seq::<char>::empty() })
                &&& r.history@ == (if let Some(h) = o.history { h@ } else { Seq::<String>::empty() })
            },
            None => {
                &&& r.input == input_or_options
                &&& r.output == output
                &&& r.terminal == (if let Some(t) = terminal { t } else { false })
                &&& r.prompt@.len() == 0
                &&& r.history@.len() == 0
            },
        },
{
    match options {
        Some(o) => {
            let output = match o.output {
                Some(x) => Some(x),
                None => output,
            };
            let terminal = match o.terminal {
                Some(t) => t,
                None => match terminal {
                    Some(t) => t,
                    None => false,
                },
            };
            let prompt = match o.prompt {
                Some(p) => p,
                None => String::new(),
            };
            let history = match o.history {
                Some(h) => h,
                None => Vec::new(),
            };
            InterfaceArgs { input: o.input, output, terminal, prompt, history }
        },
        None => {
            let terminal = match terminal {
                Some(t) => t,
                None => false,
            };
            InterfaceArgs { input: input_or_options, output, terminal, prompt: String::new(), history: Vec::new() }
        },
    }
}

} // verus!

//! The input line state: the edit buffer, the prompt, and a bounded
//! history. Drawing the line and reading keys are terminal I/O and live
//! with the embedding application.

use vstd::prelude::*;

use std::collections::VecDeque;

use crate::strutil::{drop_trailing_ws, trim_spec};

verus! {

/// A key press, reduced to what the line editor reacts to. The embedding
/// application translates its event source into this.
#[derive(Debug, Clone, Copy, PartialEq, Eq, Structural)]
pub enum InputKey {
    Enter,
    /// A printable character without modifiers.
    Char(char),
    /// A character pressed together with control.
    Ctrl(char),
    Backspace,
    Delete,
    Left,
    Right,
    Home,
    End,
    Up,
    Down,
    Tab,
    /// Any key the editor ignores.
    Other,
}

/// The last index at which `c` occurs in `s`, or `-1` when it does not.
pub open spec fn last_occurrence(s: Seq<char>, c: char) -> int
    decreases s.len(),
{
    if s.len() == 0 {
        -1
    } else if s.last() == c {
        s.len() - 1
    } else {
        last_occurrence(s.drop_last(), c)
    }
}

proof fn lemma_last_occurrence_none(s: Seq<char>, c: char)
    requires
        forall|k: int| 0 <= k < s.len() ==> s[k] != c,
    ensures
        last_occurrence(s, c) == -1,
    decreases s.len(),
{
    if s.len() > 0 {
        let t = s.drop_last();
        assert(forall|k: int| 0 <= k < t.len() ==> t[k] == s[k]);
        lemma_last_occurrence_none(t, c);
    }
}

proof fn lemma_last_occurrence_at(s: Seq<char>, c: char, idx: int)
    requires
        0 <= idx < s.len(),
        s[idx] == c,
        forall|k: int| idx < k < s.len() ==> s[k] != c,
    ensures
        last_occurrence(s, c) == idx,
    decreases s.len(),
{
    if idx == s.len() - 1 {
    } else {
        let t = s.drop_last();
        assert(forall|k: int| idx < k < t.len() ==> t[k] == s[k]);
        lemma_last_occurrence_at(t, c, idx);
    }
}

/// Where a backwards word deletion from position `cur` cuts the buffer:
/// just after the last space of the part before the cursor with its
/// trailing whitespace removed, or the start when there is no space.
pub open spec fn word_cut_spec(buffer: Seq<char>, cur: int) -> int {
    let trimmed = drop_trailing_ws(buffer.take(cur));
    last_occurrence(trimmed, ' ') + 1
}

/// The history entries appended by a load: each given line whose trimmed
/// form is non-empty, untrimmed, in order, from index `i` on.
pub open spec fn nonblank_raw_from(lines: Seq<Seq<char>>, i: int) -> Seq<Seq<char>>
    decreases lines.len() - i,
{
    if i < 0 || i >= lines.len() {
        Seq::empty()
    } else {
        (if trim_spec(lines[i]).len() > 0 {
            seq![lines[i]]
        } else {
            Seq::empty()
        }) + nonblank_raw_from(lines, i + 1)
    }
}

/// The input handler: an edit buffer with a cursor, a prompt, and a
/// history capped at `max_history` entries.
#[derive(Debug)]
pub struct InputHandler {
    pub buffer: String,
    pub cursor_pos: usize,
    pub history: VecDeque<String>,
    pub history_index: Option<usize>,
    /// Temporary storage for the live buffer while history is browsed.
    pub temp_buffer: Option<String>,
    pub prompt: String,
    pub max_history: usize,
}

impl InputHandler {
    /// The history entry values in order.
    pub open spec fn history_view(self) -> Seq<Seq<char>> {
        self.history@.map_values(|s: String| s@)
    }

    /// A fresh handler with the given prompt, an empty buffer and no
    /// history, keeping at most a thousand entries.
    pub fn new(prompt: &str) -> (r: InputHandler)
        ensures
            r.buffer@.len() == 0,
            r.cursor_pos == 0,
            r.history@.len() == 0,
            r.history_index is None,
            r.temp_buffer is None,
            r.prompt@ == prompt@,
            r.max_history == 1000,
    {
        InputHandler {
            buffer: String::new(),
            cursor_pos: 0,
            history: VecDeque::new(),
            history_index: None,
            temp_buffer: None,
            prompt: prompt.to_owned(),
            max_history: 1000,
        }
    }

    /// Replace the prompt.
    pub fn set_prompt(&mut self, prompt: &str)
        ensures
            final(self).prompt@ == prompt@,
            final(self).buffer == old(self).buffer,
            final(self).cursor_pos == old(self).cursor_pos,
            final(self).history == old(self).history,
            final(self).history_index == old(self).history_index,
            final(self).temp_buffer == old(self).temp_buffer,
            final(self).max_history == old(self).max_history,
    {
        self.prompt = prompt.to_owned();
    }

    /// Append an entry to the history: blank entries and a repeat of the
    /// newest entry are ignored, and the oldest entry falls out when the
    /// cap is exceeded.
    pub fn add_to_history(&mut self, entry: String)
        requires
            old(self).history@.len() <= old(self).max_history,
        ensures
            final(self).buffer == old(self).buffer,
            final(self).cursor_pos == old(self).cursor_pos,
            final(self).prompt == old(self).prompt,
            final(self).max_history == old(self).max_history,
            final(self).history@.len() <= final(self).max_history,
            trim_spec(entry@).len() == 0 ==> final(self).history == old(self).history,
            trim_spec(entry@).len() > 0 && old(self).history@.len() > 0 && old(self).history_view().last() == entry@ ==> final(self).history == old(self).history,
            trim_spec(entry@).len() > 0 && (old(self).history@.len() == 0 || old(self).history_view().last() != entry@) ==> final(self).history_view() == (if old(self).history@.len() < old(self).max_history {
                old(self).history_view().push(entry@)
            } else {
                old(self).history_view().push(entry@).drop_first()
            }),
    {
        let trimmed = crate::strutil::trim_str(entry.as_str());
        if trimmed.as_str().is_empty() {
            return ;
        }

        let n = self.history.len();
        if n > 0 {
            proof {
                assert(self.history_view()[n - 1] == self.history@[n - 1]@);
            }
            if crate::strutil::str_eq(self.history[n - 1].as_str(), entry.as_str()) {
                return ;
            }
        }

        self.history.push_back(entry);
        if self.history.len() > self.max_history {
            let _dropped = self.history.pop_front();
        }
        proof {
            assert(self.history_view() =~= (if old(self).history@.len() < old(self).max_history {
                old(self).history_view().push(entry@)
            } else {
                old(self).history_view().push(entry@).drop_first()
            }));
        }
    }

    /// Load history lines: each line with a non-blank trimmed form is
    /// appended as it is, then the oldest entries fall out until the cap
    /// holds.
    pub fn load_history(&mut self, lines: Vec<String>)
        ensures
            final(self).buffer == old(self).buffer,
            final(self).cursor_pos == old(self).cursor_pos,
            final(self).prompt == old(self).prompt,
            final(self).max_history == old(self).max_history,
            ({
                let appended = old(self).history_view() + nonblank_raw_from(
                    lines@.map_values(|l: String| l@),
                    0,
                );
                final(self).history_view() == (if appended.len() <= old(self).max_history {
                    appended
                } else {
                    appended.skip(appended.len() - old(self).max_history)
                })
            }),
    {
        let ghost lv = lines@.map_values(|l: String| l@);
        let ghost start = self.history_view();
        let n = lines.len();
        let mut i: usize = 0;
        while i < n
            invariant
                lv == lines@.map_values(|l: String| l@),
                n == lines@.len(),
                i <= n,
                self.history_view() + nonblank_raw_from(lv, i as int) =~= start
                    + nonblank_raw_from(lv, 0),
                self.buffer == old(self).buffer,
                self.cursor_pos == old(self).cursor_pos,
                self.prompt == old(self).prompt,
                self.max_history == old(self).max_history,
                self.history_index == old(self).history_index,
                self.temp_buffer == old(self).temp_buffer,
            decreases n - i,
        {
            proof {
                assert(lv[i as int] == lines@[i as int]@);
            }
            let line = lines[i].clone();
            let ghost before = self.history_view();
            if !crate::strutil::trim_str(line.as_str()).as_str().is_empty() {
                self.history.push_back(line);
                proof {
                    assert(self.history_view() =~= before.push(lv[i as int]));
                }
            }
            proof {
                assert(self.history_view() + nonblank_raw_from(lv, i + 1) =~= start
                    + nonblank_raw_from(lv, 0));
            }
            i = i + 1;
        }
        proof {
            assert(self.history_view() =~= start + nonblank_raw_from(lv, 0));
        }
        let ghost appended = self.history_view();
        while self.history.len() > self.max_history
            invariant
                self.max_history == old(self).max_history,
                self.buffer == old(self).buffer,
                self.cursor_pos == old(self).cursor_pos,
                self.prompt == old(self).prompt,
                self.history_index == old(self).history_index,
                self.temp_buffer == old(self).temp_buffer,
                appended.len() >= self.history@.len(),
                self.history@.len() >= self.max_history || self.history@.len() == appended.len(),
                self.history_view() == appended.skip(appended.len() - self.history@.len()),
            decreases self.history@.len(),
        {
            let ghost prev = self.history@;
            let ghost a = appended.len() - prev.len();
            let _dropped = self.history.pop_front();
            proof {
                assert forall|k: int|
                    0 <= k < self.history@.len() implies #[trigger] self.history_view()[k]
                    == appended.skip(appended.len() - self.history@.len())[k] by {
                    assert(self.history@[k] == prev[k + 1]);
                    assert(appended.skip(a)[k + 1] == appended[a + k + 1]);
                    assert(appended.skip(appended.len() - self.history@.len())[k] == appended[
                        a + k + 1
                    ]);
                };
                assert(self.history_view() =~= appended.skip(
                    appended.len() - self.history@.len(),
                ));
            }
        }
        proof {
            if appended.len() <= self.max_history {
                assert(self.history@.len() == appended.len());
                assert(appended.skip(0) =~= appended);
            }
        }
    }

    /// The history entries, oldest first.
    pub fn get_history(&self) -> (r: Vec<String>)
        ensures
            r@.map_values(|s: String| s@) == self.history_view(),
    {
        let mut out: Vec<String> = Vec::new();
        let n = self.history.len();
        let mut i: usize = 0;
        while i < n
            invariant
                n == self.history@.len(),
                i <= n,
                out@.len() == i,
                out@.map_values(|s: String| s@) =~~= self.history_view().take(i as int),
            decreases n - i,
        {
            let item = self.history[i].clone();
            proof {
                assert(item == self.history@[i as int]);
            }
            out.push(item);
            proof {
                assert(out@.len() == i + 1);
                assert(out@[i as int] == self.history@[i as int]);
                assert(out@.map_values(|s: String| s@)[i as int] == self.history_view()[i as int]);
                assert(out@.map_values(|s: String| s@) =~~= self.history_view().take(i + 1));
            }
            i = i + 1;
        }
        proof {
            assert(self.history_view().take(n as int) =~~= self.history_view());
        }
        out
    }

    /// The cursor stays on the buffer and any history index stays on the
    /// history.
    pub open spec fn wf(self) -> bool {
        &&& self.cursor_pos <= self.buffer@.len()
        &&& (self.history_index matches Some(i) ==> i < self.history@.len())
    }

    /// Insert a character at the cursor and step past it.
    fn insert_char_at(&mut self, c: char)
        requires
            old(self).wf(),
            old(self).buffer@.len() < usize::MAX,
        ensures
            final(self).buffer@ == old(self).buffer@.take(old(self).cursor_pos as int).push(c)
                + old(self).buffer@.skip(old(self).cursor_pos as int),
            final(self).cursor_pos == old(self).cursor_pos + 1,
            final(self).history == old(self).history,
            final(self).history_index == old(self).history_index,
            final(self).temp_buffer == old(self).temp_buffer,
            final(self).prompt == old(self).prompt,
            final(self).max_history == old(self).max_history,
            final(self).wf(),
    {
        let len = self.buffer.as_str().unicode_len();
        let left = self.buffer.as_str().substring_char(0, self.cursor_pos);
        let right = self.buffer.as_str().substring_char(self.cursor_pos, len);
        let mut rebuilt = left.to_owned();
        rebuilt.push(c);
        rebuilt.append(right);
        proof {
            assert(rebuilt@ =~= old(self).buffer@.take(old(self).cursor_pos as int).push(c)
                + old(self).buffer@.skip(old(self).cursor_pos as int));
        }
        self.buffer = rebuilt;
        self.cursor_pos = self.cursor_pos + 1;
    }

    /// Remove the character at `pos`, leaving the cursor where it is.
    fn remove_char_at(&mut self, pos: usize)
        requires
            old(self).wf(),
            pos < old(self).buffer@.len(),
        ensures
            final(self).buffer@ == old(self).buffer@.take(pos as int) + old(self).buffer@.skip(
                pos + 1,
            ),
            final(self).cursor_pos == old(self).cursor_pos,
            final(self).history == old(self).history,
            final(self).history_index == old(self).history_index,
            final(self).temp_buffer == old(self).temp_buffer,
            final(self).prompt == old(self).prompt,
            final(self).max_history == old(self).max_history,
    {
        let len = self.buffer.as_str().unicode_len();
        let left = self.buffer.as_str().substring_char(0, pos);
        let right = self.buffer.as_str().substring_char(pos + 1, len);
        let mut rebuilt = left.to_owned();
        rebuilt.append(right);
        proof {
            assert(rebuilt@ =~= old(self).buffer@.take(pos as int) + old(self).buffer@.skip(
                pos + 1,
            ));
        }
        self.buffer = rebuilt;
    }

    /// Where a backwards word deletion from the cursor cuts the buffer.
    fn word_cut(&self) -> (r: usize)
        requires
            self.wf(),
        ensures
            r == word_cut_spec(self.buffer@, self.cursor_pos as int),
            r <= self.cursor_pos,
    {
        let ghost before = self.buffer@.take(self.cursor_pos as int);
        proof {
            assert(before.len() == self.cursor_pos);
        }
        let mut j: usize = self.cursor_pos;
        while j > 0 && crate::strutil::char_is_wspace(self.buffer.as_str().get_char(j - 1))
            invariant
                self.wf(),
                before == self.buffer@.take(self.cursor_pos as int),
                before.len() == self.cursor_pos,
                j <= self.cursor_pos,
                forall|k: int| j <= k < self.cursor_pos ==> crate::strutil::is_wspace(
                    #[trigger] before[k],
                ),
            decreases j,
        {
            proof {
                assert(before[j - 1] == self.buffer@[j - 1]);
            }
            j = j - 1;
        }
        proof {
            if j == 0 {
                crate::strutil::lemma_drop_trailing_ws_take(before, 0);
            } else {
                assert(!crate::strutil::is_wspace(before[j - 1]));
                crate::strutil::lemma_drop_trailing_ws_take(before, j as int);
            }
            assert(drop_trailing_ws(before) == before.take(j as int));
            assert(before.take(j as int) =~= self.buffer@.take(j as int));
        }
        let ghost trimmed = self.buffer@.take(j as int);
        let mut k: usize = j;
        while k > 0 && self.buffer.as_str().get_char(k - 1) != ' '
            invariant
                self.wf(),
                k <= j <= self.cursor_pos,
                trimmed == self.buffer@.take(j as int),
                forall|m: int| k <= m < j ==> trimmed[m] != ' ',
            decreases k,
        {
            k = k - 1;
        }
        proof {
            if k == 0 {
                lemma_last_occurrence_none(trimmed, ' ');
            } else {
                assert(trimmed[k - 1] == ' ');
                lemma_last_occurrence_at(trimmed, ' ', k - 1);
            }
        }
        k
    }

    /// Apply one key press to the editor state, returning the submitted
    /// line on enter and the control markers `"__CTRL_C__"` and
    /// `"__CTRL_D__"` on their shortcuts. Redrawing the line afterwards is
    /// the embedding application's work.
    pub fn handle_key(&mut self, key: InputKey) -> (r: Option<String>)
        requires
            old(self).wf(),
            old(self).buffer@.len() < usize::MAX,
            old(self).history@.len() <= old(self).max_history,
        ensures
            final(self).wf(),
            final(self).prompt == old(self).prompt,
            final(self).max_history == old(self).max_history,
            final(self).history == old(self).history,
            key == InputKey::Enter ==> (r matches Some(line) && line@ == old(self).buffer@
                && final(self).buffer@.len() == 0 && final(self).cursor_pos == 0 && final(self).history_index is None && final(self).temp_buffer is None),
            key matches InputKey::Char(c) ==> (r is None && final(self).buffer@ == old(self).buffer@.take(old(self).cursor_pos as int).push(c) + old(self).buffer@.skip(
                old(self).cursor_pos as int,
            ) && final(self).cursor_pos == old(self).cursor_pos + 1 && final(self).history_index is None),
            key matches InputKey::Ctrl(c) ==> {
                &&& ((c == 'c' || c == 'C') ==> (r matches Some(m) && m@ == "__CTRL_C__"@
                    && final(self).buffer@.len() == 0 && final(self).cursor_pos == 0))
                &&& ((c == 'd' || c == 'D') && old(self).buffer@.len() == 0 ==> (r matches Some(m)
                    && m@ == "__CTRL_D__"@))
                &&& ((c == 'u' || c == 'U') ==> (r is None && final(self).buffer@.len() == 0
                    && final(self).cursor_pos == 0))
                &&& ((c == 'a' || c == 'A') ==> (r is None && final(self).cursor_pos == 0 && final(self).buffer == old(self).buffer))
                &&& ((c == 'e' || c == 'E') ==> (r is None && final(self).cursor_pos == final(self).buffer@.len() && final(self).buffer == old(self).buffer))
                &&& ((c == 'w' || c == 'W') && old(self).cursor_pos > 0 ==> (r is None && final(self).buffer@ == old(self).buffer@.take(
                    word_cut_spec(old(self).buffer@, old(self).cursor_pos as int),
                ) + old(self).buffer@.skip(old(self).cursor_pos as int) && final(self).cursor_pos
                    == word_cut_spec(old(self).buffer@, old(self).cursor_pos as int)))
            },
            key == InputKey::Backspace && old(self).cursor_pos > 0 ==> (r is None && final(self).buffer@ == old(self).buffer@.take(old(self).cursor_pos - 1) + old(self).buffer@.skip(old(self).cursor_pos as int) && final(self).cursor_pos == old(self).cursor_pos - 1),
            key == InputKey::Delete && old(self).cursor_pos < old(self).buffer@.len() ==> (
            r is None && final(self).buffer@ == old(self).buffer@.take(old(self).cursor_pos as int)
                + old(self).buffer@.skip(old(self).cursor_pos + 1) && final(self).cursor_pos
                == old(self).cursor_pos),
            key == InputKey::Left ==> (r is None && final(self).buffer == old(self).buffer
                && final(self).cursor_pos == (if old(self).cursor_pos > 0 {
                old(self).cursor_pos - 1
            } else {
                0int
            })),
            key == InputKey::Right ==> (r is None && final(self).buffer == old(self).buffer
                && final(self).cursor_pos == (if old(self).cursor_pos < old(self).buffer@.len() {
                old(self).cursor_pos + 1
            } else {
                old(self).cursor_pos as int
            })),
            key == InputKey::Home ==> (r is None && final(self).buffer == old(self).buffer
                && final(self).cursor_pos == 0),
            key == InputKey::End ==> (r is None && final(self).buffer == old(self).buffer && final(self).cursor_pos == old(self).buffer@.len()),
            key == InputKey::Up && old(self).history@.len() == 0 ==> (r is None && final(self).buffer == old(self).buffer && final(self).history_index == old(self).history_index),
            key == InputKey::Up && old(self).history@.len() > 0 ==> (r is None && ({
                let idx = (if old(self).history_index is None {
                    old(self).history@.len() - 1
                } else if old(self).history_index->0 > 0 {
                    old(self).history_index->0 - 1
                } else {
                    0int
                });
                &&& final(self).history_index == Some(idx as usize)
                &&& final(self).buffer@ == old(self).history_view()[idx]
                &&& final(self).cursor_pos == final(self).buffer@.len()
                &&& (old(self).history_index is None ==> (final(self).temp_buffer matches Some(t)
                    && t@ == old(self).buffer@))
                &&& (old(self).history_index is Some ==> final(self).temp_buffer == old(self).temp_buffer)
            })),
            key == InputKey::Down ==> (r is None && (old(self).history_index is None ==> final(self).buffer == old(self).buffer && final(self).history_index is None) && (old(self).history_index matches Some(i) ==> (if i + 1 < old(self).history@.len() {
                &&& final(self).history_index == Some((i + 1) as usize)
                &&& final(self).buffer@ == old(self).history_view()[i + 1]
                &&& final(self).temp_buffer == old(self).temp_buffer
            } else {
                &&& final(self).history_index is None
                &&& final(self).temp_buffer is None
                &&& final(self).buffer@ == (match old(self).temp_buffer {
                    Some(t) => t@,
                    None => Seq::empty(),
                })
            }) && final(self).cursor_pos == final(self).buffer@.len())),
            key == InputKey::Tab || key == InputKey::Other ==> (r is None && final(self).buffer
                == old(self).buffer && final(self).cursor_pos == old(self).cursor_pos),
    {
        match key {
            InputKey::Enter => {
                let input = self.buffer.clone();
                self.buffer = String::new();
                self.cursor_pos = 0;
                self.history_index = None;
                self.temp_buffer = None;
                Some(input)
            },
            InputKey::Char(c) => {
                self.insert_char_at(c);
                self.history_index = None;
                None
            },
            InputKey::Ctrl(c) => {
                if c == 'c' || c == 'C' {
                    self.buffer = String::new();
                    self.cursor_pos = 0;
                    Some(String::from_str("__CTRL_C__"))
                } else if c == 'd' || c == 'D' {
                    if self.buffer.as_str().is_empty() {
                        Some(String::from_str("__CTRL_D__"))
                    } else {
                        None
                    }
                } else if c == 'u' || c == 'U' {
                    self.buffer = String::new();
                    self.cursor_pos = 0;
                    None
                } else if c == 'a' || c == 'A' {
                    self.cursor_pos = 0;
                    None
                } else if c == 'e' || c == 'E' {
                    self.cursor_pos = self.buffer.as_str().unicode_len();
                    None
                } else if c == 'w' || c == 'W' {
                    if self.cursor_pos > 0 {
                        let cut = self.word_cut();
                        let len = self.buffer.as_str().unicode_len();
                        let left = self.buffer.as_str().substring_char(0, cut);
                        let right = self.buffer.as_str().substring_char(self.cursor_pos, len);
                        let mut rebuilt = left.to_owned();
                        rebuilt.append(right);
                        self.buffer = rebuilt;
                        self.cursor_pos = cut;
                    }
                    None
                } else {
                    None
                }
            },
            InputKey::Backspace => {
                if self.cursor_pos > 0 {
                    let pos = self.cursor_pos - 1;
                    self.remove_char_at(pos);
                    self.cursor_pos = pos;
                    self.history_index = None;
                }
                None
            },
            InputKey::Delete => {
                if self.cursor_pos < self.buffer.as_str().unicode_len() {
                    let pos = self.cursor_pos;
                    self.remove_char_at(pos);
                    self.history_index = None;
                }
                None
            },
            InputKey::Left => {
                if self.cursor_pos > 0 {
                    self.cursor_pos = self.cursor_pos - 1;
                }
                None
            },
            InputKey::Right => {
                if self.cursor_pos < self.buffer.as_str().unicode_len() {
                    self.cursor_pos = self.cursor_pos + 1;
                }
                None
            },
            InputKey::Home => {
                self.cursor_pos = 0;
                None
            },
            InputKey::End => {
                self.cursor_pos = self.buffer.as_str().unicode_len();
                None
            },
            InputKey::Up => {
                let n = self.history.len();
                if n == 0 {
                    return None;
                }
                match self.history_index {
                    None => {
                        self.temp_buffer = Some(self.buffer.clone());
                        self.history_index = Some(n - 1);
                    },
                    Some(idx) => {
                        if idx > 0 {
                            self.history_index = Some(idx - 1);
                        }
                    },
                }
                if let Some(idx) = self.history_index {
                    proof {
                        assert(self.history_view()[idx as int] == self.history@[idx as int]@);
                    }
                    self.buffer = self.history[idx].clone();
                    self.cursor_pos = self.buffer.as_str().unicode_len();
                }
                None
            },
            InputKey::Down => {
                match self.history_index {
                    None => {},
                    Some(idx) => {
                        if idx + 1 < self.history.len() {
                            self.history_index = Some(idx + 1);
                            proof {
                                assert(self.history_view()[idx + 1] == self.history@[idx + 1]@);
                            }
                            self.buffer = self.history[idx + 1].clone();
                        } else {
                            self.history_index = None;
                            let mut stashed: Option<String> = None;
                            core::mem::swap(&mut self.temp_buffer, &mut stashed);
                            self.buffer = match stashed {
                                Some(t) => t,
                                None => String::new(),
                            };
                        }
                        self.cursor_pos = self.buffer.as_str().unicode_len();
                    },
                }
                None
            },
            InputKey::Tab => None,
            InputKey::Other => None,
        }
    }

    /// Clear the current input and put the cursor at the start. Redrawing
    /// the emptied line is the embedding application's work.
    pub fn clear(&mut self)
        ensures
            final(self).buffer@.len() == 0,
            final(self).cursor_pos == 0,
            final(self).history == old(self).history,
            final(self).history_index == old(self).history_index,
            final(self).temp_buffer == old(self).temp_buffer,
            final(self).prompt == old(self).prompt,
            final(self).max_history == old(self).max_history,
    {
        self.buffer = String::new();
        self.cursor_pos = 0;
    }
}

} // verus!

//! The editable text line of the editor's tool pane: a character buffer
//! with a cursor, driven by the keys pressed while the line is active.

use vstd::prelude::*;

use crate::tools::Interaction;

verus! {

/// Raised when editing a line finishes (the enter key, or focus moving to
/// another line).
#[derive(Clone, Copy, PartialEq, Eq, Structural, Debug)]
pub struct EditFinished;

/// One pressed key, as the text line sees it. A multi-character text event
/// arrives as one `Character` key per character.
#[derive(Clone, Copy, PartialEq, Eq, Structural, Debug)]
pub enum EditKey {
    ArrowLeft,
    ArrowRight,
    Backspace,
    Delete,
    Enter,
    Character(char),
}

/// The buffer behind one editable text line.
pub struct EditBuffer {
    pub text: Vec<char>,
    pub cursor: usize,
}

/// One key applied to a buffer: the arrows move the cursor within the text,
/// backspace and delete both remove the character before the cursor, and a
/// character key inserts at the cursor.
pub open spec fn apply_key(text: Seq<char>, cursor: int, key: EditKey) -> (Seq<char>, int) {
    match key {
        EditKey::ArrowLeft => (text, if cursor > 0 {
            cursor - 1
        } else {
            cursor
        }),
        EditKey::ArrowRight => (text, if cursor < text.len() {
            cursor + 1
        } else {
            cursor
        }),
        EditKey::Backspace | EditKey::Delete => {
            if cursor > 0 {
                (text.remove(cursor - 1), cursor - 1)
            } else {
                (text, cursor)
            }
        },
        EditKey::Character(c) => (text.insert(cursor, c), cursor + 1),
        EditKey::Enter => (text, cursor),
    }
}

/// A key sequence applied to a buffer. The enter key finishes the line at
/// once: it and everything after it leave the buffer untouched, and the
/// third component reports that editing finished.
pub open spec fn apply_keys(text: Seq<char>, cursor: int, keys: Seq<EditKey>) -> (
    Seq<char>,
    int,
    bool,
)
    decreases keys.len(),
{
    if keys.len() == 0 {
        (text, cursor, false)
    } else if keys[0] is Enter {
        (text, cursor, true)
    } else {
        let stepped = apply_key(text, cursor, keys[0]);
        apply_keys(stepped.0, stepped.1, keys.skip(1))
    }
}

impl EditBuffer {
    /// The cursor stays within the text.
    pub open spec fn wf(self) -> bool {
        self.cursor <= self.text@.len()
    }

    /// A line starts with its initial text and the cursor behind it.
    pub fn new(text: Vec<char>) -> (r: EditBuffer)
        ensures
            r.text@ == text@,
            r.cursor == r.text@.len(),
            r.wf(),
    {
        let cursor = text.len();
        EditBuffer { text, cursor }
    }
}

/// The text-line controller.
pub struct EditLinePlugin;

impl EditLinePlugin {
    /// Feed the keys pressed this tick into the active line, in order. The
    /// enter key finishes the line: the rest of the keys are dropped and
    /// the finish signal is returned for the caller to raise.
    pub fn handle_input(buffer: &mut EditBuffer, keys: &Vec<EditKey>) -> (finished: Option<
        EditFinished,
    >)
        requires
            old(buffer).wf(),
        ensures
            final(buffer).wf(),
            final(buffer).text@ == apply_keys(old(buffer).text@, old(buffer).cursor as int, keys@).0,
            final(buffer).cursor as int == apply_keys(
                old(buffer).text@,
                old(buffer).cursor as int,
                keys@,
            ).1,
            (finished is Some) == apply_keys(old(buffer).text@, old(buffer).cursor as int, keys@).2,
    {
        proof {
            assert(keys@.skip(0) =~= keys@);
        }
        let mut idx: usize = 0;
        while idx < keys.len()
            invariant
                idx <= keys@.len(),
                buffer.wf(),
                apply_keys(old(buffer).text@, old(buffer).cursor as int, keys@) == apply_keys(
                    buffer.text@,
                    buffer.cursor as int,
                    keys@.skip(idx as int),
                ),
            decreases keys@.len() - idx,
        {
            let ghost i0 = idx as int;
            let ghost text0 = buffer.text@;
            let ghost cursor0 = buffer.cursor as int;
            let key = keys[idx];
            proof {
                assert(keys@.skip(i0)[0] == keys@[i0]);
                assert(keys@.skip(i0).skip(1) =~= keys@.skip(i0 + 1));
            }
            match key {
                EditKey::ArrowLeft => {
                    if buffer.cursor > 0 {
                        buffer.cursor = buffer.cursor - 1;
                    }
                },
                EditKey::ArrowRight => {
                    if buffer.cursor < buffer.text.len() {
                        buffer.cursor = buffer.cursor + 1;
                    }
                },
                EditKey::Backspace | EditKey::Delete => {
                    if buffer.cursor > 0 {
                        buffer.text.remove(buffer.cursor - 1);
                        buffer.cursor = buffer.cursor - 1;
                    }
                },
                EditKey::Character(c) => {
                    buffer.text.insert(buffer.cursor, c);
                    let new_len = buffer.text.len();
                    proof {
                        assert(buffer.cursor < new_len);
                    }
                    buffer.cursor = buffer.cursor + 1;
                },
                EditKey::Enter => {
                    proof {
                        assert(apply_keys(text0, cursor0, keys@.skip(i0)) == (text0, cursor0, true));
                    }
                    return Some(EditFinished);
                },
            }
            proof {
                assert((buffer.text@, buffer.cursor as int) == apply_key(
                    text0,
                    cursor0,
                    keys@[i0],
                ));
                assert(apply_keys(text0, cursor0, keys@.skip(i0)) == apply_keys(
                    buffer.text@,
                    buffer.cursor as int,
                    keys@.skip(i0 + 1),
                ));
            }
            idx = idx + 1;
        }
        proof {
            assert(keys@.skip(keys@.len() as int).len() == 0);
        }
        None
    }

    /// The first pressed line, if any, takes the focus.
    pub open spec fn first_pressed(s: Seq<(Interaction, u64)>) -> Option<u64>
        decreases s.len(),
    {
        if s.len() == 0 {
            None
        } else if s[0].0 is Pressed {
            Some(s[0].1)
        } else {
            Self::first_pressed(s.skip(1))
        }
    }

    /// Move the focus to the first pressed line: it is selected and its
    /// cursor jumps behind its text; the line that had the focus loses it,
    /// and finishes if the focus really moved to another line.
    pub fn switch_entry(current: Option<u64>, interactions: &Vec<(Interaction, u64)>) -> (r:
        SwitchEffect)
        ensures
            r.select == Self::first_pressed(interactions@),
            r.finish_prev == (match (current, Self::first_pressed(interactions@)) {
                (Some(c), Some(id)) => if c != id {
                    Some(c)
                } else {
                    None
                },
                _ => None,
            }),
    {
        proof {
            assert(interactions@.skip(0) =~= interactions@);
        }
        let mut idx: usize = 0;
        while idx < interactions.len()
            invariant
                idx <= interactions@.len(),
                Self::first_pressed(interactions@) == Self::first_pressed(
                    interactions@.skip(idx as int),
                ),
                forall|i: int| 0 <= i < idx ==> !((#[trigger] interactions@[i]).0 is Pressed),
            decreases interactions@.len() - idx,
        {
            let ghost i0 = idx as int;
            let entry = interactions[idx];
            proof {
                assert(interactions@.skip(i0)[0] == interactions@[i0]);
                assert(interactions@.skip(i0).skip(1) =~= interactions@.skip(i0 + 1));
            }
            if matches!(entry.0, Interaction::Pressed) {
                let finish_prev = match current {
                    Some(c) => if c != entry.1 {
                        Some(c)
                    } else {
                        None
                    },
                    None => None,
                };
                return SwitchEffect { select: Some(entry.1), finish_prev };
            }
            idx = idx + 1;
        }
        proof {
            assert(interactions@.skip(interactions@.len() as int).len() == 0);
        }
        SwitchEffect { select: None, finish_prev: None }
    }
}

/// What a focus change asks of the engine: which line to select, and which
/// previously focused line to finish.
#[derive(Clone, Copy, PartialEq, Eq, Debug)]
pub struct SwitchEffect {
    pub select: Option<u64>,
    pub finish_prev: Option<u64>,
}

} // verus!

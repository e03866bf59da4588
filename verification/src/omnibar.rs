//! The omnibar's line editor: its text and caret, the highlighted
//! suggestion row, and the lane the text selects. Suggestions themselves are
//! recomputed by the host (they read the graph); each step says when.

use vstd::prelude::*;

use crate::action::CaretMove;
use crate::frisket::SessionId;
use crate::spine::{commits_row, omnibar_moved};
use crate::text::chars_of;

verus! {

/// Which lane the omnibar's text selects.
#[derive(Clone, Copy, Debug, PartialEq, Eq, Structural)]
pub enum OmnibarLane {
    /// Find an open node, or go to an address.
    FindOrGo,
    /// A `>` line: the actions lane.
    Actions,
    /// Renaming a session: the whole line is the new name.
    Rename,
}

/// The omnibar: whether it is open, its text with the caret (a character
/// index), the highlighted row among `rows` suggestions, and, in rename
/// mode, the session being renamed.
pub struct OmnibarState {
    pub open: bool,
    pub text: Vec<char>,
    pub cursor: usize,
    pub selected: usize,
    pub rows: usize,
    pub renaming: Option<SessionId>,
}

/// The caret sits within the text.
pub open spec fn well_formed(o: OmnibarState) -> bool {
    o.cursor <= o.text@.len()
}

/// The lane a state's text selects.
pub open spec fn lane_of(renaming: Option<SessionId>, text: Seq<char>) -> OmnibarLane {
    if renaming is Some {
        OmnibarLane::Rename
    } else if text.len() > 0 && text[0] == '>' {
        OmnibarLane::Actions
    } else {
        OmnibarLane::FindOrGo
    }
}

/// The lane the omnibar is in (see [`lane_of`]).
pub fn lane(o: &OmnibarState) -> (l: OmnibarLane)
    ensures
        l == lane_of(o.renaming, o.text@),
{
    if o.renaming.is_some() {
        OmnibarLane::Rename
    } else if o.text.len() > 0 && o.text[0] == '>' {
        OmnibarLane::Actions
    } else {
        OmnibarLane::FindOrGo
    }
}

/// An editing event on the omnibar.
pub enum OmnibarEvent {
    Open { command: bool },
    Close,
    Char(char),
    Insert(String),
    Backspace,
    Delete,
    Caret(CaretMove),
    Move(i32),
    CommitRow(usize),
}

/// What the host does after an omnibar step.
#[derive(Clone, Copy, Debug, PartialEq, Eq, Structural)]
pub enum OmnibarOutcome {
    /// Only redraw.
    Redraw,
    /// The text changed: recompute the suggestions (then set `rows`), and
    /// redraw.
    Recompute,
    /// Commit the highlighted row through the ordinary commit path.
    Commit,
}

/// The closed omnibar.
pub open spec fn is_closed(o: OmnibarState) -> bool {
    !o.open && o.text@.len() == 0 && o.cursor == 0 && o.selected == 0 && o.rows == 0 && o.renaming is None
}

/// The closed omnibar.
pub fn closed_omnibar() -> (o: OmnibarState)
    ensures
        is_closed(o),
{
    OmnibarState { open: false, text: Vec::new(), cursor: 0, selected: 0, rows: 0, renaming: None }
}

/// `text` with `ins` inserted at `at`.
pub open spec fn inserted(text: Seq<char>, at: int, ins: Seq<char>) -> Seq<char> {
    text.take(at) + ins + text.skip(at)
}

/// `text` without its character at `at`.
pub open spec fn removed(text: Seq<char>, at: int) -> Seq<char> {
    text.take(at) + text.skip(at + 1)
}

/// Where a caret move lands in a text of `len` characters.
pub open spec fn caret_after(cursor: nat, len: nat, m: CaretMove) -> nat {
    match m {
        CaretMove::Left => if cursor > 0 { (cursor - 1) as nat } else { 0 },
        CaretMove::Right => if cursor < len { cursor + 1 } else { len },
        CaretMove::Home => 0,
        CaretMove::End => len,
    }
}

fn insert_chars(o: &mut OmnibarState, ins: &Vec<char>)
    requires
        well_formed(*old(o)),
        old(o).text@.len() + ins@.len() <= usize::MAX,
    ensures
        final(o).text@ == inserted(old(o).text@, old(o).cursor as int, ins@),
        final(o).cursor == old(o).cursor + ins@.len(),
        final(o).open == old(o).open,
        final(o).selected == old(o).selected,
        final(o).rows == old(o).rows,
        final(o).renaming == old(o).renaming,
        well_formed(*final(o)),
{
    let mut j: usize = 0;
    while j < ins.len()
        invariant
            j <= ins.len(),
            old(o).cursor + ins@.len() <= old(o).text@.len() + ins@.len() <= usize::MAX,
            o.cursor == old(o).cursor + j,
            o.text@ == inserted(old(o).text@, old(o).cursor as int, ins@.take(j as int)),
            o.open == old(o).open,
            o.selected == old(o).selected,
            o.rows == old(o).rows,
            o.renaming == old(o).renaming,
        decreases ins.len() - j,
    {
        let c = ins[j];
        let at = o.cursor;
        o.text.insert(at, c);
        o.cursor = at + 1;
        assert(o.text@ =~= inserted(old(o).text@, old(o).cursor as int, ins@.take(j + 1)));
        j = j + 1;
    }
    assert(ins@.take(ins.len() as int) =~= ins@);
}

/// One omnibar step. Opening starts a fresh line (`>` for the actions
/// lane) with the caret at its end; closing empties it. Typed or inserted
/// text lands at the caret, which moves past it; backspace and delete take
/// the character before or under the caret, when there is one; any change
/// of text resets the highlight to the first row and asks for fresh
/// suggestions. Caret moves stay within the line; a highlight move wraps
/// around the rows; a row click on an open omnibar highlights that row and
/// commits it.
pub fn omnibar_step(o: &mut OmnibarState, event: OmnibarEvent) -> (r: OmnibarOutcome)
    requires
        well_formed(*old(o)),
        old(o).selected <= i32::MAX,
        old(o).rows <= i32::MAX,
        event matches OmnibarEvent::Move(d) ==> i32::MIN <= old(o).selected + d <= i32::MAX,
        old(o).text@.len() + 1 <= usize::MAX,
        event matches OmnibarEvent::Insert(s) ==> old(o).text@.len() + s@.len() <= usize::MAX,
    ensures
        well_formed(*final(o)),
        match event {
            OmnibarEvent::Open { command } => {
                &&& final(o).open
                &&& final(o).text@ == (if command { seq!['>'] } else { Seq::<char>::empty() })
                &&& final(o).cursor == final(o).text@.len()
                &&& final(o).selected == 0 && final(o).rows == 0 && final(o).renaming is None
                &&& r == OmnibarOutcome::Recompute
            },
            OmnibarEvent::Close => is_closed(*final(o)) && r == OmnibarOutcome::Redraw,
            OmnibarEvent::Char(c) => {
                &&& final(o).text@ == inserted(old(o).text@, old(o).cursor as int, seq![c])
                &&& final(o).cursor == old(o).cursor + 1
                &&& final(o).selected == 0
                &&& final(o).open == old(o).open && final(o).rows == old(o).rows
                &&& final(o).renaming == old(o).renaming
                &&& r == OmnibarOutcome::Recompute
            },
            OmnibarEvent::Insert(s) => {
                &&& final(o).text@ == inserted(old(o).text@, old(o).cursor as int, s@)
                &&& final(o).cursor == old(o).cursor + s@.len()
                &&& final(o).selected == 0
                &&& final(o).open == old(o).open && final(o).rows == old(o).rows
                &&& final(o).renaming == old(o).renaming
                &&& r == OmnibarOutcome::Recompute
            },
            OmnibarEvent::Backspace => if old(o).cursor > 0 {
                &&& final(o).text@ == removed(old(o).text@, old(o).cursor - 1)
                &&& final(o).cursor == old(o).cursor - 1
                &&& final(o).selected == 0
                &&& final(o).open == old(o).open && final(o).rows == old(o).rows
                &&& final(o).renaming == old(o).renaming
                &&& r == OmnibarOutcome::Recompute
            } else {
                &&& final(o).text@ == old(o).text@ && final(o).cursor == old(o).cursor
                &&& final(o).selected == old(o).selected
                &&& final(o).open == old(o).open && final(o).rows == old(o).rows
                &&& final(o).renaming == old(o).renaming
                &&& r == OmnibarOutcome::Redraw
            },
            OmnibarEvent::Delete => if old(o).cursor < old(o).text@.len() {
                &&& final(o).text@ == removed(old(o).text@, old(o).cursor as int)
                &&& final(o).cursor == old(o).cursor
                &&& final(o).selected == 0
                &&& final(o).open == old(o).open && final(o).rows == old(o).rows
                &&& final(o).renaming == old(o).renaming
                &&& r == OmnibarOutcome::Recompute
            } else {
                &&& final(o).text@ == old(o).text@ && final(o).cursor == old(o).cursor
                &&& final(o).selected == old(o).selected
                &&& final(o).open == old(o).open && final(o).rows == old(o).rows
                &&& final(o).renaming == old(o).renaming
                &&& r == OmnibarOutcome::Redraw
            },
            OmnibarEvent::Caret(m) => {
                &&& final(o).cursor == caret_after(old(o).cursor as nat, old(o).text@.len(), m)
                &&& final(o).text@ == old(o).text@ && final(o).selected == old(o).selected
                &&& final(o).open == old(o).open && final(o).rows == old(o).rows
                &&& final(o).renaming == old(o).renaming
                &&& r == OmnibarOutcome::Redraw
            },
            OmnibarEvent::Move(d) => {
                &&& final(o).selected == (if old(o).rows > 0 {
                    ((old(o).selected + d) % (old(o).rows as int)) as usize
                } else {
                    old(o).selected
                })
                &&& final(o).text@ == old(o).text@ && final(o).cursor == old(o).cursor
                &&& final(o).open == old(o).open && final(o).rows == old(o).rows
                &&& final(o).renaming == old(o).renaming
                &&& r == OmnibarOutcome::Redraw
            },
            OmnibarEvent::CommitRow(i) => {
                &&& final(o).selected == (if old(o).open && i < old(o).rows { i } else { old(o).selected })
                &&& final(o).text@ == old(o).text@ && final(o).cursor == old(o).cursor
                &&& final(o).open == old(o).open && final(o).rows == old(o).rows
                &&& final(o).renaming == old(o).renaming
                &&& r == (if old(o).open && i < old(o).rows { OmnibarOutcome::Commit } else { OmnibarOutcome::Redraw })
            },
        },
{
    match event {
        OmnibarEvent::Open { command } => {
            let mut text: Vec<char> = Vec::new();
            if command {
                text.push('>');
            }
            let cursor = text.len();
            *o = OmnibarState { open: true, text, cursor, selected: 0, rows: 0, renaming: None };
            assert(o.text@ =~= (if command { seq!['>'] } else { Seq::<char>::empty() }));
            OmnibarOutcome::Recompute
        },
        OmnibarEvent::Close => {
            *o = closed_omnibar();
            OmnibarOutcome::Redraw
        },
        OmnibarEvent::Char(c) => {
            let mut ins: Vec<char> = Vec::new();
            ins.push(c);
            assert(ins@ =~= seq![c]);
            insert_chars(o, &ins);
            o.selected = 0;
            OmnibarOutcome::Recompute
        },
        OmnibarEvent::Insert(s) => {
            let ins = chars_of(s.as_str());
            insert_chars(o, &ins);
            o.selected = 0;
            OmnibarOutcome::Recompute
        },
        OmnibarEvent::Backspace => {
            if o.cursor > 0 {
                let at = o.cursor - 1;
                o.text.remove(at);
                o.cursor = at;
                o.selected = 0;
                assert(o.text@ =~= removed(old(o).text@, at as int));
                OmnibarOutcome::Recompute
            } else {
                OmnibarOutcome::Redraw
            }
        },
        OmnibarEvent::Delete => {
            if o.cursor < o.text.len() {
                let at = o.cursor;
                o.text.remove(at);
                o.selected = 0;
                assert(o.text@ =~= removed(old(o).text@, at as int));
                OmnibarOutcome::Recompute
            } else {
                OmnibarOutcome::Redraw
            }
        },
        OmnibarEvent::Caret(m) => {
            let len = o.text.len();
            o.cursor = match m {
                CaretMove::Left => if o.cursor > 0 { o.cursor - 1 } else { 0 },
                CaretMove::Right => if o.cursor < len { o.cursor + 1 } else { len },
                CaretMove::Home => 0,
                CaretMove::End => len,
            };
            OmnibarOutcome::Redraw
        },
        OmnibarEvent::Move(d) => {
            o.selected = omnibar_moved(o.selected, d, o.rows);
            OmnibarOutcome::Redraw
        },
        OmnibarEvent::CommitRow(i) => {
            if commits_row(o.open, i, o.rows) {
                o.selected = i;
                OmnibarOutcome::Commit
            } else {
                OmnibarOutcome::Redraw
            }
        },
    }
}

} // verus!

//! The self-drive scenario lane: the app drives itself from a scenario
//! file, one verb per line (`#` comments), every step lowering to an
//! ordinary [`Action`] through the same spine as a keypress.
//!
//! Coordinates and ratios stay in their scenario text (already checked to be
//! float texts the host's `f32` parse accepts); the host converts them at
//! its pointer and geometry edge.

use vstd::prelude::*;

use crate::action::{palette_action_is, palette_actions, palette_label, palette_len, Action, CaretMove};
use crate::observe::{AppEvent, Snapshot};
use crate::text::{
    contains_chars, contains_text, str_eq, to_lowercase, unicode_lowercase,
};

use crate::text::{
    chars_of, decimal, decimal_string, find_ws, first_ws, is_float_chars, is_float_text, lines,
    lines_of, parse_unsigned, parse_unsigned_chars, seq_eq_lit, split_at_ws, split_chars_at_ws,
    string_of, trim, trim_chars, words, words_of,
};

verus! {

/// An omnibar editing key.
#[derive(Clone, Copy, Debug, PartialEq, Eq, Structural)]
pub enum EditKey {
    Enter,
    Escape,
    Backspace,
    Delete,
    Up,
    Down,
    Left,
    Right,
    Home,
    End,
}

/// A suggestion-count comparison.
#[derive(Clone, Copy, Debug, PartialEq, Eq, Structural)]
pub enum CmpOp {
    Eq,
    Ge,
    Le,
}

/// One parsed scenario step.
#[derive(Debug)]
pub enum Step {
    Open(String),
    Omnibar { command: bool },
    Type(String),
    Insert(String),
    Key(EditKey),
    Act(String),
    /// A pointer click at window pixel coordinates (x, y texts).
    Click(String, String),
    /// A wheel event at window pixel coordinates (x, y, dx, dy texts).
    Scroll(String, String, String, String),
    ClickRow(String),
    Settle(u32),
    Capture(String),
    AssertOmnibar(bool),
    AssertText(String),
    AssertFocused(String),
    AssertSurface(String),
    AssertFocus(String),
    AssertPane(String),
    AssertMaximized(bool),
    AssertRow(String),
    /// Set the active pane's divider ratio (its text).
    Divider(String),
    AssertSuggestions(CmpOp, usize),
    AssertVisible,
    AssertContentLive,
    AssertEvent(String),
    Log(String),
}

/// [`Step`] with its texts as character sequences.
pub enum StepView {
    Open(Seq<char>),
    Omnibar { command: bool },
    Type(Seq<char>),
    Insert(Seq<char>),
    Key(EditKey),
    Act(Seq<char>),
    Click(Seq<char>, Seq<char>),
    Scroll(Seq<char>, Seq<char>, Seq<char>, Seq<char>),
    ClickRow(Seq<char>),
    Settle(u32),
    Capture(Seq<char>),
    AssertOmnibar(bool),
    AssertText(Seq<char>),
    AssertFocused(Seq<char>),
    AssertSurface(Seq<char>),
    AssertFocus(Seq<char>),
    AssertPane(Seq<char>),
    AssertMaximized(bool),
    AssertRow(Seq<char>),
    Divider(Seq<char>),
    AssertSuggestions(CmpOp, usize),
    AssertVisible,
    AssertContentLive,
    AssertEvent(Seq<char>),
    Log(Seq<char>),
}

impl View for Step {
    type V = StepView;

    open spec fn view(&self) -> StepView {
        match self {
            Step::Open(s) => StepView::Open(s@),
            Step::Omnibar { command } => StepView::Omnibar { command: *command },
            Step::Type(s) => StepView::Type(s@),
            Step::Insert(s) => StepView::Insert(s@),
            Step::Key(k) => StepView::Key(*k),
            Step::Act(s) => StepView::Act(s@),
            Step::Click(x, y) => StepView::Click(x@, y@),
            Step::Scroll(x, y, dx, dy) => StepView::Scroll(x@, y@, dx@, dy@),
            Step::ClickRow(s) => StepView::ClickRow(s@),
            Step::Settle(n) => StepView::Settle(*n),
            Step::Capture(s) => StepView::Capture(s@),
            Step::AssertOmnibar(b) => StepView::AssertOmnibar(*b),
            Step::AssertText(s) => StepView::AssertText(s@),
            Step::AssertFocused(s) => StepView::AssertFocused(s@),
            Step::AssertSurface(s) => StepView::AssertSurface(s@),
            Step::AssertFocus(s) => StepView::AssertFocus(s@),
            Step::AssertPane(s) => StepView::AssertPane(s@),
            Step::AssertMaximized(b) => StepView::AssertMaximized(*b),
            Step::AssertRow(s) => StepView::AssertRow(s@),
            Step::Divider(s) => StepView::Divider(s@),
            Step::AssertSuggestions(op, n) => StepView::AssertSuggestions(*op, *n),
            Step::AssertVisible => StepView::AssertVisible,
            Step::AssertContentLive => StepView::AssertContentLive,
            Step::AssertEvent(s) => StepView::AssertEvent(s@),
            Step::Log(s) => StepView::Log(s@),
        }
    }
}

/// What one scenario line amounts to.
pub enum LineOutcome {
    /// A blank or comment line.
    Skip,
    Step(StepView),
    /// The parse error, naming the line.
    Fail(Seq<char>),
}

/// The error for line `n` (1-based) holding `line`.
pub open spec fn line_error(n: nat, msg: Seq<char>, line: Seq<char>) -> Seq<char> {
    "line "@ + decimal(n) + ": "@ + msg + ": '"@ + line + "'"@
}

/// The float texts among `ws`, in order.
pub open spec fn float_words(ws: Seq<Seq<char>>) -> Seq<Seq<char>>
    decreases ws.len(),
{
    if ws.len() == 0 {
        Seq::empty()
    } else if is_float_text(ws.last()) {
        float_words(ws.drop_last()).push(ws.last())
    } else {
        float_words(ws.drop_last())
    }
}

/// The editing key a `key` argument names.
pub open spec fn edit_key(arg: Seq<char>) -> Option<EditKey> {
    if arg == "enter"@ { Some(EditKey::Enter) }
    else if arg == "escape"@ { Some(EditKey::Escape) }
    else if arg == "backspace"@ { Some(EditKey::Backspace) }
    else if arg == "delete"@ { Some(EditKey::Delete) }
    else if arg == "up"@ { Some(EditKey::Up) }
    else if arg == "down"@ { Some(EditKey::Down) }
    else if arg == "left"@ { Some(EditKey::Left) }
    else if arg == "right"@ { Some(EditKey::Right) }
    else if arg == "home"@ { Some(EditKey::Home) }
    else if arg == "end"@ { Some(EditKey::End) }
    else { None }
}

/// The outcome of an `assert` line whose rest is `rest`.
pub open spec fn assert_outcome(n: nat, line: Seq<char>, rest: Seq<char>) -> LineOutcome {
    let what = split_at_ws(rest).0;
    let arg = trim(split_at_ws(rest).1);
    if what == "omnibar"@ {
        if arg == "open"@ { LineOutcome::Step(StepView::AssertOmnibar(true)) }
        else if arg == "closed"@ { LineOutcome::Step(StepView::AssertOmnibar(false)) }
        else { LineOutcome::Fail(line_error(n, "assert omnibar wants open|closed"@, line)) }
    } else if what == "text"@ { LineOutcome::Step(StepView::AssertText(arg)) }
    else if what == "event"@ && arg.len() > 0 { LineOutcome::Step(StepView::AssertEvent(arg)) }
    else if what == "focused"@ && arg.len() > 0 { LineOutcome::Step(StepView::AssertFocused(arg)) }
    else if what == "surface"@ && arg.len() > 0 { LineOutcome::Step(StepView::AssertSurface(arg)) }
    else if what == "focus"@ && arg.len() > 0 { LineOutcome::Step(StepView::AssertFocus(arg)) }
    else if what == "pane"@ && arg.len() > 0 { LineOutcome::Step(StepView::AssertPane(arg)) }
    else if what == "maximized"@ { LineOutcome::Step(StepView::AssertMaximized(true)) }
    else if what == "not-maximized"@ { LineOutcome::Step(StepView::AssertMaximized(false)) }
    else if what == "row"@ && arg.len() > 0 { LineOutcome::Step(StepView::AssertRow(arg)) }
    else if what == "suggestions"@ {
        if first_ws(arg, 0) >= arg.len() {
            LineOutcome::Fail("line "@ + decimal(n) + ": assert suggestions wants '<op> <n>'"@)
        } else {
            let op = split_at_ws(arg).0;
            let count = trim(split_at_ws(arg).1);
            let relation = if op == "=="@ { Some(CmpOp::Eq) } else if op == ">="@ { Some(CmpOp::Ge) } else if op == "<="@ { Some(CmpOp::Le) } else { None };
            match relation {
                None => LineOutcome::Fail(line_error(n, "assert suggestions op wants ==|>=|<="@, line)),
                Some(c) => match parse_unsigned(count, usize::MAX as nat) {
                    Some(k) => LineOutcome::Step(StepView::AssertSuggestions(c, k as usize)),
                    None => LineOutcome::Fail("line "@ + decimal(n) + ": bad suggestion count"@),
                },
            }
        }
    } else if what == "visible"@ { LineOutcome::Step(StepView::AssertVisible) }
    else if what == "content-live"@ { LineOutcome::Step(StepView::AssertContentLive) }
    else { LineOutcome::Fail(line_error(n, "unknown assert"@, line)) }
}

/// What the raw line `raw`, the `n`-th (1-based) of a scenario, amounts to.
pub open spec fn line_outcome(raw: Seq<char>, n: nat) -> LineOutcome {
    let line = trim(raw);
    if line.len() == 0 || line[0] == '#' {
        LineOutcome::Skip
    } else {
        let verb = split_at_ws(line).0;
        let rest = trim(split_at_ws(line).1);
        if verb == "open"@ && rest.len() > 0 { LineOutcome::Step(StepView::Open(rest)) }
        else if verb == "omnibar"@ {
            if rest == "find"@ { LineOutcome::Step(StepView::Omnibar { command: false }) }
            else if rest == "actions"@ { LineOutcome::Step(StepView::Omnibar { command: true }) }
            else { LineOutcome::Fail(line_error(n, "omnibar wants find|actions"@, line)) }
        } else if verb == "type"@ && rest.len() > 0 { LineOutcome::Step(StepView::Type(rest)) }
        else if verb == "insert"@ && rest.len() > 0 { LineOutcome::Step(StepView::Insert(rest)) }
        else if verb == "key"@ {
            match edit_key(rest) {
                Some(k) => LineOutcome::Step(StepView::Key(k)),
                None => LineOutcome::Fail(line_error(n, "key wants enter|escape|backspace|delete|up|down|left|right|home|end"@, line)),
            }
        } else if verb == "act"@ && rest.len() > 0 { LineOutcome::Step(StepView::Act(rest)) }
        else if verb == "settle"@ {
            if rest.len() == 0 {
                LineOutcome::Step(StepView::Settle(20))
            } else {
                match parse_unsigned(rest, u32::MAX as nat) {
                    Some(k) => LineOutcome::Step(StepView::Settle(k as u32)),
                    None => LineOutcome::Fail("line "@ + decimal(n) + ": bad settle count '"@ + rest + "'"@),
                }
            }
        } else if verb == "click-row"@ && rest.len() > 0 { LineOutcome::Step(StepView::ClickRow(rest)) }
        else if verb == "click"@ {
            let w = words(rest);
            if w.len() >= 2 && is_float_text(w[0]) && is_float_text(w[1]) {
                LineOutcome::Step(StepView::Click(w[0], w[1]))
            } else {
                LineOutcome::Fail("line "@ + decimal(n) + ": click wants '<x> <y>': '"@ + line + "'"@)
            }
        } else if verb == "scroll"@ {
            let v = float_words(words(rest));
            if v.len() == 3 {
                LineOutcome::Step(StepView::Scroll(v[0], v[1], "0"@, v[2]))
            } else if v.len() == 4 {
                LineOutcome::Step(StepView::Scroll(v[0], v[1], v[2], v[3]))
            } else {
                LineOutcome::Fail(line_error(n, "scroll wants '<x> <y> <dy>' or '<x> <y> <dx> <dy>'"@, line))
            }
        } else if verb == "divider"@ {
            if is_float_text(rest) {
                LineOutcome::Step(StepView::Divider(rest))
            } else {
                LineOutcome::Fail("line "@ + decimal(n) + ": divider wants a ratio: '"@ + line + "'"@)
            }
        } else if verb == "capture"@ && rest.len() > 0 { LineOutcome::Step(StepView::Capture(rest)) }
        else if verb == "assert"@ { assert_outcome(n, line, rest) }
        else if verb == "log"@ { LineOutcome::Step(StepView::Log(rest)) }
        else { LineOutcome::Fail(line_error(n, "unknown verb"@, line)) }
    }
}

/// The result of parsing the first `k` lines of `ls`: the steps so far, or
/// the first error.
pub open spec fn parse_upto(ls: Seq<Seq<char>>, k: int) -> Result<Seq<StepView>, Seq<char>>
    decreases k,
{
    if k <= 0 {
        Ok(Seq::empty())
    } else {
        match parse_upto(ls, k - 1) {
            Err(e) => Err(e),
            Ok(acc) => match line_outcome(ls[k - 1], k as nat) {
                LineOutcome::Skip => Ok(acc),
                LineOutcome::Step(s) => Ok(acc.push(s)),
                LineOutcome::Fail(e) => Err(e),
            },
        }
    }
}

/// The parse of a whole scenario text.
pub open spec fn parse_spec(body: Seq<char>) -> Result<Seq<StepView>, Seq<char>> {
    parse_upto(lines(body), lines(body).len() as int)
}

/// What one scenario line amounts to, executably.
pub enum LineResult {
    Skip,
    Step(Step),
    Fail(String),
}

/// `r` is the executable form of `o`.
pub open spec fn line_result_is(r: LineResult, o: LineOutcome) -> bool {
    match (r, o) {
        (LineResult::Skip, LineOutcome::Skip) => true,
        (LineResult::Step(s), LineOutcome::Step(v)) => s@ == v,
        (LineResult::Fail(e), LineOutcome::Fail(m)) => e@ == m,
        _ => false,
    }
}

fn trim_all(v: &Vec<char>) -> (t: Vec<char>)
    ensures
        t@ == trim(v@),
{
    assert(v@.subrange(0, v.len() as int) =~= v@);
    trim_chars(v, 0, v.len())
}

fn prefix_error(n: usize, msg: &str) -> (e: String)
    ensures
        e@ == "line "@ + decimal(n as nat) + msg@,
{
    let mut e = String::from_str("line ");
    let d = decimal_string(n as u64);
    e.append(d.as_str());
    e.append(msg);
    e
}

fn line_err(n: usize, msg: &str, line: &Vec<char>) -> (e: String)
    ensures
        e@ == line_error(n as nat, msg@, line@),
{
    let mut e = prefix_error(n, ": ");
    e.append(msg);
    e.append(": '");
    let l = string_of(line);
    e.append(l.as_str());
    e.append("'");
    assert(e@ =~= line_error(n as nat, msg@, line@));
    e
}

fn edit_key_of(arg: &Vec<char>) -> (k: Option<EditKey>)
    ensures
        k == edit_key(arg@),
{
    if seq_eq_lit(arg, "enter") { Some(EditKey::Enter) }
    else if seq_eq_lit(arg, "escape") { Some(EditKey::Escape) }
    else if seq_eq_lit(arg, "backspace") { Some(EditKey::Backspace) }
    else if seq_eq_lit(arg, "delete") { Some(EditKey::Delete) }
    else if seq_eq_lit(arg, "up") { Some(EditKey::Up) }
    else if seq_eq_lit(arg, "down") { Some(EditKey::Down) }
    else if seq_eq_lit(arg, "left") { Some(EditKey::Left) }
    else if seq_eq_lit(arg, "right") { Some(EditKey::Right) }
    else if seq_eq_lit(arg, "home") { Some(EditKey::Home) }
    else if seq_eq_lit(arg, "end") { Some(EditKey::End) }
    else { None }
}

fn float_words_of(ws: &Vec<Vec<char>>) -> (v: Vec<Vec<char>>)
    ensures
        v@.map_values(|x: Vec<char>| x@) == float_words(ws@.map_values(|x: Vec<char>| x@)),
{
    let ghost all = ws@.map_values(|x: Vec<char>| x@);
    let mut v: Vec<Vec<char>> = Vec::new();
    let mut i: usize = 0;
    while i < ws.len()
        invariant
            i <= ws.len(),
            all == ws@.map_values(|x: Vec<char>| x@),
            v@.map_values(|x: Vec<char>| x@) == float_words(all.take(i as int)),
        decreases ws.len() - i,
    {
        assert(all.take(i + 1).drop_last() =~= all.take(i as int));
        assert(all.take(i + 1).last() == ws[i as int]@);
        if is_float_chars(&ws[i]) {
            let t = copy_chars(&ws[i]);
            v.push(t);
            assert(v@.map_values(|x: Vec<char>| x@) =~= float_words(all.take(i as int)).push(ws[i as int]@));
        }
        i = i + 1;
    }
    assert(all.take(ws.len() as int) =~= all);
    v
}

fn copy_chars(v: &Vec<char>) -> (w: Vec<char>)
    ensures
        w@ == v@,
{
    let mut w: Vec<char> = Vec::new();
    let mut i: usize = 0;
    while i < v.len()
        invariant
            i <= v.len(),
            w@ == v@.take(i as int),
        decreases v.len() - i,
    {
        w.push(v[i]);
        assert(v@.take(i + 1) =~= v@.take(i as int).push(v@[i as int]));
        i = i + 1;
    }
    assert(v@.take(v.len() as int) =~= v@);
    w
}

fn assert_line(n: usize, line: &Vec<char>, rest: &Vec<char>) -> (r: LineResult)
    ensures
        line_result_is(r, assert_outcome(n as nat, line@, rest@)),
{
    let (what, arg0) = split_chars_at_ws(rest);
    let arg = trim_all(&arg0);
    if seq_eq_lit(&what, "omnibar") {
        if seq_eq_lit(&arg, "open") { LineResult::Step(Step::AssertOmnibar(true)) }
        else if seq_eq_lit(&arg, "closed") { LineResult::Step(Step::AssertOmnibar(false)) }
        else { LineResult::Fail(line_err(n, "assert omnibar wants open|closed", line)) }
    } else if seq_eq_lit(&what, "text") { LineResult::Step(Step::AssertText(string_of(&arg))) }
    else if seq_eq_lit(&what, "event") && arg.len() > 0 { LineResult::Step(Step::AssertEvent(string_of(&arg))) }
    else if seq_eq_lit(&what, "focused") && arg.len() > 0 { LineResult::Step(Step::AssertFocused(string_of(&arg))) }
    else if seq_eq_lit(&what, "surface") && arg.len() > 0 { LineResult::Step(Step::AssertSurface(string_of(&arg))) }
    else if seq_eq_lit(&what, "focus") && arg.len() > 0 { LineResult::Step(Step::AssertFocus(string_of(&arg))) }
    else if seq_eq_lit(&what, "pane") && arg.len() > 0 { LineResult::Step(Step::AssertPane(string_of(&arg))) }
    else if seq_eq_lit(&what, "maximized") { LineResult::Step(Step::AssertMaximized(true)) }
    else if seq_eq_lit(&what, "not-maximized") { LineResult::Step(Step::AssertMaximized(false)) }
    else if seq_eq_lit(&what, "row") && arg.len() > 0 { LineResult::Step(Step::AssertRow(string_of(&arg))) }
    else if seq_eq_lit(&what, "suggestions") {
        if find_ws(&arg, 0) >= arg.len() {
            LineResult::Fail(prefix_error(n, ": assert suggestions wants '<op> <n>'"))
        } else {
            let (op, count0) = split_chars_at_ws(&arg);
            let count = trim_all(&count0);
            let relation = if seq_eq_lit(&op, "==") { Some(CmpOp::Eq) }
                else if seq_eq_lit(&op, ">=") { Some(CmpOp::Ge) }
                else if seq_eq_lit(&op, "<=") { Some(CmpOp::Le) }
                else { None };
            match relation {
                None => LineResult::Fail(line_err(n, "assert suggestions op wants ==|>=|<=", line)),
                Some(c) => match parse_unsigned_chars(&count, usize::MAX as u64) {
                    Some(k) => LineResult::Step(Step::AssertSuggestions(c, k as usize)),
                    None => LineResult::Fail(prefix_error(n, ": bad suggestion count")),
                },
            }
        }
    } else if seq_eq_lit(&what, "visible") { LineResult::Step(Step::AssertVisible) }
    else if seq_eq_lit(&what, "content-live") { LineResult::Step(Step::AssertContentLive) }
    else { LineResult::Fail(line_err(n, "unknown assert", line)) }
}

/// Parse one raw scenario line, the `n`-th (1-based).
pub fn parse_line(raw: &Vec<char>, n: usize) -> (r: LineResult)
    ensures
        line_result_is(r, line_outcome(raw@, n as nat)),
{
    let line = trim_all(raw);
    if line.len() == 0 || line[0] == '#' {
        return LineResult::Skip;
    }
    let (verb, rest0) = split_chars_at_ws(&line);
    let rest = trim_all(&rest0);
    if seq_eq_lit(&verb, "open") && rest.len() > 0 { LineResult::Step(Step::Open(string_of(&rest))) }
    else if seq_eq_lit(&verb, "omnibar") {
        if seq_eq_lit(&rest, "find") { LineResult::Step(Step::Omnibar { command: false }) }
        else if seq_eq_lit(&rest, "actions") { LineResult::Step(Step::Omnibar { command: true }) }
        else { LineResult::Fail(line_err(n, "omnibar wants find|actions", &line)) }
    } else if seq_eq_lit(&verb, "type") && rest.len() > 0 { LineResult::Step(Step::Type(string_of(&rest))) }
    else if seq_eq_lit(&verb, "insert") && rest.len() > 0 { LineResult::Step(Step::Insert(string_of(&rest))) }
    else if seq_eq_lit(&verb, "key") {
        match edit_key_of(&rest) {
            Some(k) => LineResult::Step(Step::Key(k)),
            None => LineResult::Fail(line_err(n, "key wants enter|escape|backspace|delete|up|down|left|right|home|end", &line)),
        }
    } else if seq_eq_lit(&verb, "act") && rest.len() > 0 { LineResult::Step(Step::Act(string_of(&rest))) }
    else if seq_eq_lit(&verb, "settle") {
        if rest.len() == 0 {
            LineResult::Step(Step::Settle(20))
        } else {
            match parse_unsigned_chars(&rest, u32::MAX as u64) {
                Some(k) => LineResult::Step(Step::Settle(k as u32)),
                None => {
                    let mut e = prefix_error(n, ": bad settle count '");
                    let r = string_of(&rest);
                    e.append(r.as_str());
                    e.append("'");
                    LineResult::Fail(e)
                },
            }
        }
    } else if seq_eq_lit(&verb, "click-row") && rest.len() > 0 { LineResult::Step(Step::ClickRow(string_of(&rest))) }
    else if seq_eq_lit(&verb, "click") {
        let w = words_of(&rest);
        if w.len() >= 2 && is_float_chars(&w[0]) && is_float_chars(&w[1]) {
            assert(w@.map_values(|x: Vec<char>| x@)[0] == w[0]@);
            assert(w@.map_values(|x: Vec<char>| x@)[1] == w[1]@);
            LineResult::Step(Step::Click(string_of(&w[0]), string_of(&w[1])))
        } else {
            proof {
                if w.len() >= 2 {
                    assert(w@.map_values(|x: Vec<char>| x@)[0] == w[0]@);
                    assert(w@.map_values(|x: Vec<char>| x@)[1] == w[1]@);
                }
            }
            let mut e = prefix_error(n, ": click wants '<x> <y>': '");
            let l = string_of(&line);
            e.append(l.as_str());
            e.append("'");
            LineResult::Fail(e)
        }
    } else if seq_eq_lit(&verb, "scroll") {
        let w = words_of(&rest);
        let v = float_words_of(&w);
        let ghost vv = v@.map_values(|x: Vec<char>| x@);
        if v.len() == 3 {
            assert(vv[0] == v[0]@ && vv[1] == v[1]@ && vv[2] == v[2]@);
            LineResult::Step(Step::Scroll(string_of(&v[0]), string_of(&v[1]), String::from_str("0"), string_of(&v[2])))
        } else if v.len() == 4 {
            assert(vv[0] == v[0]@ && vv[1] == v[1]@ && vv[2] == v[2]@ && vv[3] == v[3]@);
            LineResult::Step(Step::Scroll(string_of(&v[0]), string_of(&v[1]), string_of(&v[2]), string_of(&v[3])))
        } else {
            LineResult::Fail(line_err(n, "scroll wants '<x> <y> <dy>' or '<x> <y> <dx> <dy>'", &line))
        }
    } else if seq_eq_lit(&verb, "divider") {
        if is_float_chars(&rest) {
            LineResult::Step(Step::Divider(string_of(&rest)))
        } else {
            let mut e = prefix_error(n, ": divider wants a ratio: '");
            let l = string_of(&line);
            e.append(l.as_str());
            e.append("'");
            LineResult::Fail(e)
        }
    } else if seq_eq_lit(&verb, "capture") && rest.len() > 0 { LineResult::Step(Step::Capture(string_of(&rest))) }
    else if seq_eq_lit(&verb, "assert") { assert_line(n, &line, &rest) }
    else if seq_eq_lit(&verb, "log") { LineResult::Step(Step::Log(string_of(&rest))) }
    else { LineResult::Fail(line_err(n, "unknown verb", &line)) }
}

/// Once a line fails, the parse stays at that first error.
proof fn lemma_error_persists(ls: Seq<Seq<char>>, k: int, m: int)
    requires
        0 <= k <= m,
        parse_upto(ls, k) is Err,
    ensures
        parse_upto(ls, m) == parse_upto(ls, k),
    decreases m - k,
{
    if k < m {
        lemma_error_persists(ls, k, m - 1);
    }
}

/// Whether a scenario line is an instruction: neither blank nor a comment.
pub open spec fn is_instruction(raw: Seq<char>) -> bool {
    trim(raw).len() > 0 && trim(raw)[0] != '#'
}

/// How many of the first `k` lines are instructions.
pub open spec fn instruction_count(ls: Seq<Seq<char>>, k: int) -> nat
    decreases k,
{
    if k <= 0 {
        0
    } else {
        instruction_count(ls, k - 1) + if is_instruction(ls[k - 1]) { 1nat } else { 0nat }
    }
}

/// The line law of the scenario parser, over its first `k` lines: the parse
/// succeeds exactly when no line fails, and then every instruction line
/// gives one step (blank and comment lines give none), in line order; a
/// failed parse carries the error of the first line that fails (the error
/// names that line's 1-based number).
pub proof fn lemma_parse_line_law(ls: Seq<Seq<char>>, k: int)
    requires
        0 <= k <= ls.len(),
    ensures
        parse_upto(ls, k) is Ok <==> forall|j: int| 0 <= j < k ==> !(#[trigger] line_outcome(ls[j], (j + 1) as nat) is Fail),
        parse_upto(ls, k) matches Ok(steps) ==> steps.len() == instruction_count(ls, k),
        parse_upto(ls, k) matches Err(e) ==> exists|j: int| 0 <= j < k
            && #[trigger] line_outcome(ls[j], (j + 1) as nat) == LineOutcome::Fail(e)
            && forall|i: int| 0 <= i < j ==> !(#[trigger] line_outcome(ls[i], (i + 1) as nat) is Fail),
    decreases k,
{
    if k > 0 {
        lemma_parse_line_law(ls, k - 1);
        let o = line_outcome(ls[k - 1], k as nat);
        assert(((k - 1) + 1) as nat == k as nat);
        match parse_upto(ls, k - 1) {
            Err(e) => {
                let j = choose|j: int| 0 <= j < k - 1
                    && #[trigger] line_outcome(ls[j], (j + 1) as nat) == LineOutcome::Fail(e)
                    && forall|i: int| 0 <= i < j ==> !(#[trigger] line_outcome(ls[i], (i + 1) as nat) is Fail);
                assert(line_outcome(ls[j], (j + 1) as nat) is Fail);
            },
            Ok(acc) => {
                match o {
                    LineOutcome::Fail(e) => {
                        assert(line_outcome(ls[k - 1], ((k - 1) + 1) as nat) == LineOutcome::Fail(e));
                    },
                    LineOutcome::Skip => {
                        assert(!is_instruction(ls[k - 1]));
                    },
                    LineOutcome::Step(_) => {
                        assert(is_instruction(ls[k - 1]));
                    },
                }
            },
        }
    }
}

/// Parse a scenario text into its steps, or the first error (which names
/// its 1-based line).
pub fn parse(body: &str) -> (r: Result<Vec<Step>, String>)
    ensures
        match r {
            Ok(steps) => parse_spec(body@) == Ok::<Seq<StepView>, Seq<char>>(steps@.map_values(|s: Step| s@)),
            Err(e) => parse_spec(body@) == Err::<Seq<StepView>, Seq<char>>(e@),
        },
{
    let chars = chars_of(body);
    let ls = lines_of(&chars);
    let ghost lv = ls@.map_values(|x: Vec<char>| x@);
    let mut steps: Vec<Step> = Vec::new();
    assert(steps@.map_values(|s: Step| s@) =~= Seq::<StepView>::empty());
    let mut i: usize = 0;
    while i < ls.len()
        invariant
            i <= ls.len(),
            lv == ls@.map_values(|x: Vec<char>| x@),
            lv == lines(body@),
            parse_upto(lv, i as int) == Ok::<Seq<StepView>, Seq<char>>(steps@.map_values(|s: Step| s@)),
        decreases ls.len() - i,
    {
        assert(lv[i as int] == ls[i as int]@);
        match parse_line(&ls[i], i + 1) {
            LineResult::Skip => {},
            LineResult::Step(s) => {
                steps.push(s);
                assert(steps@.map_values(|s: Step| s@) =~= parse_upto(lv, i as int)->Ok_0.push(steps@.last()@));
            },
            LineResult::Fail(e) => {
                proof {
                    lemma_error_persists(lv, i + 1, lv.len() as int);
                }
                return Err(e);
            },
        }
        i = i + 1;
    }
    Ok(steps)
}

/// What the host should do this frame.
pub enum Tick {
    /// Lower these actions through the spine, then keep pumping frames.
    Act(Vec<Action>),
    /// A pointer click at window coordinates (x, y texts).
    Click { x: String, y: String },
    /// A wheel event at window coordinates (x, y, dx, dy texts).
    Scroll { x: String, y: String, dx: String, dy: String },
    /// Click the list-pane row containing this substring.
    ClickRow { substr: String },
    /// Set the active pane's divider ratio (its text); the host lowers it
    /// as the divider action.
    Divider { ratio: String },
    /// Still settling; pump another frame.
    Wait,
    /// Compose and read back the current frame to this file name (beside
    /// the run's other outputs).
    Capture(String),
    /// Every step is consumed.
    Done,
}

/// The debug rendering std writes for a list of strings (`{:?}` of a `Vec<String>`).
pub uninterp spec fn debug_list_text(items: Seq<Seq<char>>) -> Seq<char>;

/// `format!("{:?}", items)`: std's `Debug` rendering of a list of strings
/// (brackets, quoted and escaped items). The contract names the result.
#[verifier::external_body]
fn debug_list(items: &Vec<String>) -> (d: String)
    ensures
        d@ == debug_list_text(texts(items@)),
{
    format!("{:?}", items)
}

/// The texts of a list of strings.
pub open spec fn texts(v: Seq<String>) -> Seq<Seq<char>> {
    v.map_values(|s: String| s@)
}

/// A parsed scenario plus its run state. The host pumps [`Scenario::tick`]
/// once per rendered frame; one step is consumed per frame.
pub struct Scenario {
    steps: Vec<Step>,
    idx: usize,
    settle: u32,
    log: Vec<String>,
    failed: bool,
    /// The app's semantic events, described.
    events: Vec<String>,
}

/// The run state of a scenario.
pub struct ScenarioView {
    pub steps: Seq<StepView>,
    pub idx: nat,
    pub settle: nat,
    pub log: Seq<Seq<char>>,
    pub failed: bool,
    pub events: Seq<Seq<char>>,
}

impl View for Scenario {
    type V = ScenarioView;

    closed spec fn view(&self) -> ScenarioView {
        ScenarioView {
            steps: self.steps@.map_values(|s: Step| s@),
            idx: self.idx as nat,
            settle: self.settle as nat,
            log: texts(self.log@),
            failed: self.failed,
            events: texts(self.events@),
        }
    }
}

/// The run state after a failure with message `why`.
pub open spec fn failed_with(v: ScenarioView, why: Seq<char>) -> ScenarioView {
    ScenarioView { failed: true, log: v.log.push("FAIL: "@ + why), ..v }
}

/// The first palette row at or after `from` whose lowercased label is `wanted`.
pub open spec fn palette_match(wanted: Seq<char>, from: int) -> Option<int>
    decreases 34 - from,
{
    if from >= 34 {
        None
    } else if unicode_lowercase(palette_label(from)) == wanted {
        Some(from)
    } else {
        palette_match(wanted, from + 1)
    }
}

/// The first content state recorded for `node`.
pub open spec fn content_label(content: Seq<(u128, String)>, node: u128, from: int) -> Option<Seq<char>>
    decreases content.len() - from,
{
    if from >= content.len() {
        None
    } else if content[from].0 == node {
        Some(content[from].1@)
    } else {
        content_label(content, node, from + 1)
    }
}

/// The key action of an editing key.
pub open spec fn key_action(k: EditKey) -> Action {
    match k {
        EditKey::Enter => Action::OmnibarCommit,
        EditKey::Escape => Action::OmnibarClose,
        EditKey::Backspace => Action::OmnibarBackspace,
        EditKey::Delete => Action::OmnibarDelete,
        EditKey::Up => Action::OmnibarMove(-1i32),
        EditKey::Down => Action::OmnibarMove(1i32),
        EditKey::Left => Action::OmnibarCaret(CaretMove::Left),
        EditKey::Right => Action::OmnibarCaret(CaretMove::Right),
        EditKey::Home => Action::OmnibarCaret(CaretMove::Home),
        EditKey::End => Action::OmnibarCaret(CaretMove::End),
    }
}

/// Whether the tick lowers exactly one action satisfying `p`.
pub open spec fn acts_one(t: Tick, p: spec_fn(Action) -> bool) -> bool {
    t matches Tick::Act(a) && a@.len() == 1 && p(a@[0])
}

/// The text the focused-node assertion searches.
pub open spec fn focused_hay(snap: Snapshot) -> Seq<char> {
    match snap.focused {
        Some(f) => unicode_lowercase(f.url@ + " "@ + f.caption@),
        None => Seq::empty(),
    }
}

/// Whether some text of `rows` contains `needle`.
pub open spec fn any_contains(rows: Seq<Seq<char>>, needle: Seq<char>) -> bool {
    exists|i: int| 0 <= i < rows.len() && contains_text(#[trigger] rows[i], needle)
}

/// Each text after `prefix` and followed by a newline, in order.
pub open spec fn prefixed_lines(ls: Seq<Seq<char>>, prefix: Seq<char>) -> Seq<char>
    decreases ls.len(),
{
    if ls.len() == 0 {
        Seq::empty()
    } else {
        prefixed_lines(ls.drop_last(), prefix) + prefix + ls.last() + "\n"@
    }
}

/// The latest (at most twelve) events, oldest first.
pub open spec fn event_tail(events: Seq<Seq<char>>) -> Seq<Seq<char>> {
    let start = if events.len() <= 12 { 0 } else { events.len() - 12 };
    events.subrange(start, events.len() as int)
}

/// The sentinel a finished run leaves for its driver: `RESULT ok` or
/// `RESULT fail`, then the log lines; on failure the event tail follows,
/// each line as `event: <event>`.
pub open spec fn sentinel(v: ScenarioView) -> Seq<char> {
    "RESULT "@ + (if v.failed { "fail"@ } else { "ok"@ }) + "\n"@ + prefixed_lines(v.log, ""@)
        + (if v.failed { prefixed_lines(event_tail(v.events), "event: "@) } else { Seq::empty() })
}

fn append_lines(body: &mut String, ls: &Vec<String>, from: usize, prefix: &str)
    requires
        from <= ls.len(),
    ensures
        final(body)@ == old(body)@ + prefixed_lines(texts(ls@).subrange(from as int, ls.len() as int), prefix@),
{
    let mut i: usize = from;
    assert(texts(ls@).subrange(from as int, from as int) =~= Seq::<Seq<char>>::empty());
    assert(old(body)@ + Seq::<char>::empty() =~= old(body)@);
    while i < ls.len()
        invariant
            from <= i <= ls.len(),
            body@ == old(body)@ + prefixed_lines(texts(ls@).subrange(from as int, i as int), prefix@),
        decreases ls.len() - i,
    {
        let ghost pre = body@;
        body.append(prefix);
        body.append(ls[i].as_str());
        body.append("\n");
        let ghost part = texts(ls@).subrange(from as int, i + 1);
        assert(part.drop_last() =~= texts(ls@).subrange(from as int, i as int));
        assert(part.last() == ls@[i as int]@);
        assert(body@ =~= old(body)@ + prefixed_lines(part, prefix@));
        i = i + 1;
    }
}

/// The latest (at most six) events, newest first.
pub open spec fn recent_events(events: Seq<Seq<char>>) -> Seq<Seq<char>> {
    let r = events.reverse();
    if r.len() <= 6 { r } else { r.take(6) }
}

/// `None` when `ok` holds, else the failure message `why`.
pub open spec fn verdict(ok: bool, why: Seq<char>) -> Option<Seq<char>> {
    if ok { None } else { Some(why) }
}

/// The failure message of an assertion step against `snap` and the events
/// seen so far, or `None` when it holds (and for every other step).
pub open spec fn assert_verdict(step: StepView, snap: Snapshot, events: Seq<Seq<char>>) -> Option<Seq<char>> {
    match step {
        StepView::AssertOmnibar(open) => verdict(snap.omnibar.open == open,
            "assert omnibar "@ + (if open { "open"@ } else { "closed"@ }) + ": it is not"@),
        StepView::AssertText(want) => verdict(snap.omnibar.text@ == want,
            "assert text '"@ + want + "': the omnibar holds '"@ + snap.omnibar.text@ + "'"@),
        StepView::AssertFocused(substr) => verdict(contains_text(focused_hay(snap), unicode_lowercase(substr)),
            "assert focused '"@ + substr + "': focused is '"@ + focused_hay(snap) + "'"@),
        StepView::AssertSurface(kind) => verdict(texts(snap.surfaces@).contains(kind),
            "assert surface '"@ + kind + "': the plan is "@ + debug_list_text(texts(snap.surfaces@))),
        StepView::AssertFocus(kind) => verdict(snap.focus@ == kind,
            "assert focus '"@ + kind + "': focus is '"@ + snap.focus@ + "'"@),
        StepView::AssertPane(tag) => verdict(texts(snap.panes@).contains(tag),
            "assert pane '"@ + tag + "': the tree holds "@ + debug_list_text(texts(snap.panes@))),
        StepView::AssertMaximized(want) => verdict(snap.maximized == want,
            "assert "@ + (if want { "maximized"@ } else { "not maximized"@ }) + ": it is not"@),
        StepView::AssertRow(substr) => verdict(
            any_contains(texts(snap.trail_rows@), substr) || any_contains(texts(snap.roster_rows@), substr),
            "assert row '"@ + substr + "': trail "@ + debug_list_text(texts(snap.trail_rows@)) + " roster "@
                + debug_list_text(texts(snap.roster_rows@))),
        StepView::AssertSuggestions(op, n) => {
            let len = snap.omnibar.suggestions@.len();
            let ok = match op {
                CmpOp::Eq => len == n,
                CmpOp::Ge => len >= n,
                CmpOp::Le => len <= n,
            };
            verdict(ok, "assert suggestions: have "@ + decimal(len) + " ("@
                + debug_list_text(texts(snap.omnibar.suggestions@)) + "), wanted "@ + decimal(n as nat))
        },
        StepView::AssertVisible => verdict(snap.graph_visible, "assert visible: every node is off-screen"@),
        StepView::AssertContentLive => {
            let state = match snap.focused {
                Some(f) => content_label(snap.content@, f.member, 0),
                None => None,
            };
            verdict(state == Some("live"@), "assert content-live: focused node is "@ + match state {
                Some(l) => l,
                None => "without content state"@,
            })
        },
        StepView::AssertEvent(substr) => verdict(any_contains(events, substr),
            "assert event '"@ + substr + "': not in the stream (last: "@
                + debug_list_text(recent_events(events)) + ")"@),
        _ => None,
    }
}

/// The run state after evaluating an assertion step against `snap`.
pub open spec fn assert_state(a: ScenarioView, step: StepView, snap: Snapshot) -> ScenarioView {
    match assert_verdict(step, snap, a.events) {
        Some(why) => failed_with(a, why),
        None => a,
    }
}

/// What one tick does to the run state `v` against `snap`: the new state
/// `w` and the tick `t`.
pub open spec fn tick_step(v: ScenarioView, snap: Snapshot, w: ScenarioView, t: Tick) -> bool {
    if v.settle > 0 {
        w == ScenarioView { settle: (v.settle - 1) as nat, ..v } && t is Wait
    } else if v.idx >= v.steps.len() {
        w == v && t is Done
    } else {
        let a = ScenarioView { idx: v.idx + 1, ..v };
        match v.steps[v.idx as int] {
            StepView::Open(url) => w == a && acts_one(t, |x: Action| x matches Action::OpenAddress(u) && u@ == url),
            StepView::Omnibar { command } => w == a && acts_one(t, |x: Action| x == Action::OmnibarOpen { command }),
            StepView::Type(text) => w == a && (t matches Tick::Act(acts) && acts@.len() == text.len()
                && forall|j: int| 0 <= j < text.len() ==> acts@[j] == Action::OmnibarChar(#[trigger] text[j])),
            StepView::Insert(text) => w == a && acts_one(t, |x: Action| x matches Action::OmnibarInsert(s) && s@ == text),
            StepView::Key(k) => w == a && acts_one(t, |x: Action| x == key_action(k)),
            StepView::Act(label) => match palette_match(unicode_lowercase(label), 0) {
                Some(i) => w == a && acts_one(t, |x: Action| palette_action_is(i, x)),
                None => w == failed_with(a, "act: no palette action labelled '"@ + label + "'"@) && t is Wait,
            },
            StepView::Settle(frames) => w == ScenarioView { settle: frames as nat, ..a } && t is Wait,
            StepView::Click(x, y) => w == a && (t matches Tick::Click { x: tx, y: ty } && tx@ == x && ty@ == y),
            StepView::ClickRow(substr) => w == a && (t matches Tick::ClickRow { substr: s } && s@ == substr),
            StepView::Scroll(x, y, dx, dy) => w == a && (t matches Tick::Scroll { x: tx, y: ty, dx: tdx, dy: tdy }
                && tx@ == x && ty@ == y && tdx@ == dx && tdy@ == dy),
            StepView::Capture(name) => w == a && (t matches Tick::Capture(f) && f@ == name + ".png"@),
            StepView::Divider(ratio) => w == a && (t matches Tick::Divider { ratio: r } && r@ == ratio),
            StepView::Log(text) => w == ScenarioView { log: a.log.push(text), ..a } && t is Wait,
            step => w == assert_state(a, step, snap) && t is Wait,
        }
    }
}

/// A tick never forgets: the steps stay, the cursor only advances (by at
/// most one step), the log only grows, and a failed run stays failed.
pub proof fn lemma_tick_keeps_history(v: ScenarioView, snap: Snapshot, w: ScenarioView, t: Tick)
    requires
        tick_step(v, snap, w, t),
    ensures
        w.steps == v.steps,
        v.idx <= w.idx <= v.idx + 1,
        v.log.len() <= w.log.len(),
        w.log.take(v.log.len() as int) == v.log,
        v.failed ==> w.failed,
        w.events == v.events,
{
    if v.settle == 0 && v.idx < v.steps.len() {
        let a = ScenarioView { idx: v.idx + 1, ..v };
        match assert_verdict(v.steps[v.idx as int], snap, a.events) {
            Some(why) => {},
            None => {},
        }
        assert(w.log.take(v.log.len() as int) =~= v.log);
    } else {
        assert(w.log.take(v.log.len() as int) =~= v.log);
    }
}

/// `vs`, `snaps` and `ts` record consecutive ticks: tick `k` met the run
/// state `vs[k]` and the snapshot `snaps[k]`, returned `ts[k]` and left
/// `vs[k + 1]`.
pub open spec fn is_run(vs: Seq<ScenarioView>, snaps: Seq<Snapshot>, ts: Seq<Tick>) -> bool {
    &&& vs.len() == ts.len() + 1
    &&& snaps.len() == ts.len()
    &&& forall|k: int| 0 <= k < ts.len() ==> tick_step(vs[k], snaps[k], vs[k + 1], #[trigger] ts[k])
}

proof fn lemma_settle_prefix(vs: Seq<ScenarioView>, snaps: Seq<Snapshot>, ts: Seq<Tick>, frames: u32, k: int)
    requires
        is_run(vs, snaps, ts),
        vs[0].settle == 0,
        vs[0].idx < vs[0].steps.len(),
        vs[0].steps[vs[0].idx as int] == StepView::Settle(frames),
        1 <= k <= frames + 1,
        k <= ts.len(),
    ensures
        vs[k].idx == vs[0].idx + 1,
        vs[k].settle == frames + 1 - k,
        vs[k].steps == vs[0].steps,
        forall|j: int| 0 <= j < k ==> #[trigger] ts[j] is Wait,
    decreases k,
{
    assert(tick_step(vs[0], snaps[0], vs[1], ts[0]));
    if k > 1 {
        lemma_settle_prefix(vs, snaps, ts, frames, k - 1);
        assert(tick_step(vs[k - 1], snaps[k - 1], vs[k], ts[k - 1]));
    }
}

/// A settle of `frames` holds the run for exactly that many further frames:
/// the tick that meets it and each of the `frames` ticks after it wait, with
/// the cursor just past the settle and the countdown falling by one a frame;
/// the tick after those takes the next step, or reports done when there is
/// none.
pub proof fn lemma_settle_counts_down(vs: Seq<ScenarioView>, snaps: Seq<Snapshot>, ts: Seq<Tick>, frames: u32)
    requires
        is_run(vs, snaps, ts),
        vs[0].settle == 0,
        vs[0].idx < vs[0].steps.len(),
        vs[0].steps[vs[0].idx as int] == StepView::Settle(frames),
    ensures
        forall|k: int| 0 <= k <= frames && k < ts.len() ==> {
            &&& #[trigger] ts[k] is Wait
            &&& vs[k + 1].idx == vs[0].idx + 1
            &&& vs[k + 1].settle == frames - k
        },
        ts.len() > frames + 1 && vs[0].idx + 1 < vs[0].steps.len() ==> vs[frames + 2].idx == vs[0].idx + 2,
        ts.len() > frames + 1 && vs[0].idx + 1 >= vs[0].steps.len() ==> ts[frames + 1] is Done && vs[frames + 2]
            == vs[frames + 1],
{
    assert forall|k: int| 0 <= k <= frames && k < ts.len() implies {
        &&& #[trigger] ts[k] is Wait
        &&& vs[k + 1].idx == vs[0].idx + 1
        &&& vs[k + 1].settle == frames - k
    } by {
        lemma_settle_prefix(vs, snaps, ts, frames, k + 1);
    }
    if ts.len() > frames + 1 {
        let n = frames + 1;
        lemma_settle_prefix(vs, snaps, ts, frames, n);
        assert(tick_step(vs[n], snaps[n], vs[n + 1], ts[n]));
        if vs[0].idx + 1 < vs[0].steps.len() {
            lemma_tick_keeps_history(vs[n], snaps[n], vs[n + 1], ts[n]);
            assert(vs[n + 1].idx == vs[n].idx + 1);
        }
    }
}

/// A `key` step lowers to the one edit its key names: `down` moves the
/// highlight one row down (+1) and `up` one row up (-1), `enter` commits,
/// `escape` closes, `backspace` and `delete` erase, and the arrow, home and
/// end keys move the caret that way; the cursor moves past the step.
pub proof fn lemma_key_steps_lower_to_their_edit(v: ScenarioView, snap: Snapshot, w: ScenarioView, t: Tick, k: EditKey)
    requires
        tick_step(v, snap, w, t),
        v.settle == 0,
        v.idx < v.steps.len(),
        v.steps[v.idx as int] == StepView::Key(k),
    ensures
        w == (ScenarioView { idx: v.idx + 1, ..v }),
        t matches Tick::Act(acts) && acts@.len() == 1 && {
            &&& k == EditKey::Down ==> acts@[0] == Action::OmnibarMove(1i32)
            &&& k == EditKey::Up ==> acts@[0] == Action::OmnibarMove(-1i32)
            &&& k == EditKey::Enter ==> acts@[0] == Action::OmnibarCommit
            &&& k == EditKey::Escape ==> acts@[0] == Action::OmnibarClose
            &&& k == EditKey::Backspace ==> acts@[0] == Action::OmnibarBackspace
            &&& k == EditKey::Delete ==> acts@[0] == Action::OmnibarDelete
            &&& k == EditKey::Left ==> acts@[0] == Action::OmnibarCaret(CaretMove::Left)
            &&& k == EditKey::Right ==> acts@[0] == Action::OmnibarCaret(CaretMove::Right)
            &&& k == EditKey::Home ==> acts@[0] == Action::OmnibarCaret(CaretMove::Home)
            &&& k == EditKey::End ==> acts@[0] == Action::OmnibarCaret(CaretMove::End)
        },
{
}

/// A run whose steps are all consumed, with nothing settling, is done and
/// stays as it is.
pub proof fn lemma_done_is_final(v: ScenarioView, snap: Snapshot, w: ScenarioView, t: Tick)
    requires
        tick_step(v, snap, w, t),
        v.settle == 0,
        v.idx >= v.steps.len(),
    ensures
        t is Done,
        w == v,
{
}

/// A failed assertion marks the run failed and logs a line naming the
/// assertion; a passing one changes nothing but the cursor.
pub proof fn lemma_assert_outcome(v: ScenarioView, snap: Snapshot, w: ScenarioView, t: Tick)
    requires
        tick_step(v, snap, w, t),
        v.settle == 0,
        v.idx < v.steps.len(),
        assert_verdict(v.steps[v.idx as int], snap, v.events) is Some,
    ensures
        t is Wait,
        w.failed,
        w.log == v.log.push("FAIL: "@ + assert_verdict(v.steps[v.idx as int], snap, v.events)->Some_0),
{
    match v.steps[v.idx as int] {
        StepView::Open(_) => {},
        StepView::Omnibar { .. } => {},
        StepView::Type(_) => {},
        StepView::Insert(_) => {},
        StepView::Key(_) => {},
        StepView::Act(_) => {},
        StepView::Settle(_) => {},
        StepView::Click(..) => {},
        StepView::ClickRow(_) => {},
        StepView::Scroll(..) => {},
        StepView::Capture(_) => {},
        StepView::Divider(_) => {},
        StepView::Log(_) => {},
        _ => {},
    }
}

fn concat3(a: &str, b: &str, c: &str) -> (s: String)
    ensures
        s@ == a@ + b@ + c@,
{
    let mut s = String::from_str(a);
    s.append(b);
    s.append(c);
    s
}

fn texts_contain(rows: &Vec<String>, want: &str) -> (b: bool)
    ensures
        b == texts(rows@).contains(want@),
{
    let mut i: usize = 0;
    while i < rows.len()
        invariant
            i <= rows.len(),
            forall|j: int| 0 <= j < i ==> rows@[j]@ != want@,
        decreases rows.len() - i,
    {
        if str_eq(rows[i].as_str(), want) {
            assert(texts(rows@)[i as int] == want@);
            return true;
        }
        i = i + 1;
    }
    assert(!texts(rows@).contains(want@)) by {
        if texts(rows@).contains(want@) {
            let j = choose|j: int| 0 <= j < texts(rows@).len() && texts(rows@)[j] == want@;
            assert(rows@[j]@ == want@);
        }
    }
    false
}

fn rows_contain_text(rows: &Vec<String>, needle: &Vec<char>) -> (b: bool)
    ensures
        b == any_contains(texts(rows@), needle@),
{
    let mut i: usize = 0;
    while i < rows.len()
        invariant
            i <= rows.len(),
            forall|j: int| 0 <= j < i ==> !contains_text(#[trigger] texts(rows@)[j], needle@),
        decreases rows.len() - i,
    {
        let row = chars_of(rows[i].as_str());
        if contains_chars(&row, needle) {
            assert(texts(rows@)[i as int] == row@);
            return true;
        }
        assert(texts(rows@)[i as int] == row@);
        i = i + 1;
    }
    false
}

/// A state change a step asks of the run, besides advancing.
enum Change {
    Nothing,
    Fail(String),
    Settle(u32),
    Log(String),
}

/// The run state `a` after the change `c`.
spec fn applied(a: ScenarioView, c: Change) -> ScenarioView {
    match c {
        Change::Nothing => a,
        Change::Fail(why) => failed_with(a, why@),
        Change::Settle(n) => ScenarioView { settle: n as nat, ..a },
        Change::Log(line) => ScenarioView { log: a.log.push(line@), ..a },
    }
}

/// `t` lowers exactly the single action `a`.
fn one(a: Action) -> (t: Tick)
    ensures
        t matches Tick::Act(v) && v@ == seq![a],
{
    let mut v: Vec<Action> = Vec::new();
    v.push(a);
    assert(v@ =~= seq![a]);
    Tick::Act(v)
}

fn key_action_of(k: EditKey) -> (a: Action)
    ensures
        a == key_action(k),
{
    match k {
        EditKey::Enter => Action::OmnibarCommit,
        EditKey::Escape => Action::OmnibarClose,
        EditKey::Backspace => Action::OmnibarBackspace,
        EditKey::Delete => Action::OmnibarDelete,
        EditKey::Up => Action::OmnibarMove(-1i32),
        EditKey::Down => Action::OmnibarMove(1i32),
        EditKey::Left => Action::OmnibarCaret(CaretMove::Left),
        EditKey::Right => Action::OmnibarCaret(CaretMove::Right),
        EditKey::Home => Action::OmnibarCaret(CaretMove::Home),
        EditKey::End => Action::OmnibarCaret(CaretMove::End),
    }
}

fn char_act(c: char) -> (a: Action)
    ensures
        a == Action::OmnibarChar(c),
{
    Action::OmnibarChar(c)
}

fn typed(text: &String) -> (t: Tick)
    ensures
        t matches Tick::Act(acts) && acts@.len() == text@.len()
            && forall|j: int| 0 <= j < text@.len() ==> acts@[j] == Action::OmnibarChar(#[trigger] text@[j]),
{
    let cs = chars_of(text.as_str());
    let mut out: Vec<Action> = Vec::new();
    let mut i: usize = 0;
    while i < cs.len()
        invariant
            cs@ == text@,
            i <= cs.len(),
            out@.len() == i,
            forall|j: int| 0 <= j < i ==> out@[j] == Action::OmnibarChar(#[trigger] cs@[j]),
        decreases cs.len() - i,
    {
        let a = char_act(cs[i]);
        out.push(a);
        i = i + 1;
    }
    Tick::Act(out)
}

/// Look a label up in the palette, case-insensitively (full lowercasing).
fn palette_lookup(label: &String) -> (r: Option<Action>)
    ensures
        match palette_match(unicode_lowercase(label@), 0) {
            Some(i) => r matches Some(a) && palette_action_is(i, a),
            None => r is None,
        },
{
    let wanted = to_lowercase(label.as_str());
    let mut rows = palette_actions();
    let mut j: usize = 0;
    while j < rows.len()
        invariant
            rows@.len() == palette_len(),
            forall|i: int| 0 <= i < rows@.len() ==> crate::action::palette_row(i, #[trigger] rows@[i].0@, rows@[i].1),
            j <= rows.len(),
            wanted@ == unicode_lowercase(label@),
            palette_match(wanted@, 0) == palette_match(wanted@, j as int),
        decreases rows.len() - j,
    {
        let l = to_lowercase(rows[j].0);
        assert(crate::action::palette_row(j as int, rows@[j as int].0@, rows@[j as int].1));
        if str_eq(l.as_str(), wanted.as_str()) {
            assert(palette_match(wanted@, j as int) == Some(j as int));
            let ghost picked = rows@[j as int].1;
            let (_, a) = rows.remove(j);
            assert(a == picked);
            return Some(a);
        }
        j = j + 1;
    }
    None
}

fn focused_hay_of(snap: &Snapshot) -> (h: String)
    ensures
        h@ == focused_hay(*snap),
{
    match &snap.focused {
        Some(f) => {
            let both = concat3(f.url.as_str(), " ", f.caption.as_str());
            to_lowercase(both.as_str())
        },
        None => String::new(),
    }
}

fn content_label_of(content: &Vec<(u128, String)>, node: u128) -> (r: Option<String>)
    ensures
        match content_label(content@, node, 0) {
            Some(l) => r matches Some(s) && s@ == l,
            None => r is None,
        },
{
    let mut i: usize = 0;
    while i < content.len()
        invariant
            i <= content.len(),
            content_label(content@, node, 0) == content_label(content@, node, i as int),
        decreases content.len() - i,
    {
        if content[i].0 == node {
            return Some(content[i].1.clone());
        }
        i = i + 1;
    }
    None
}

fn recent_events_of(events: &Vec<String>) -> (r: Vec<String>)
    ensures
        texts(r@) == recent_events(texts(events@)),
{
    let mut r: Vec<String> = Vec::new();
    let n = events.len();
    let ghost rev = texts(events@).reverse();
    let mut k: usize = 0;
    while k < n && k < 6
        invariant
            n == events.len(),
            rev == texts(events@).reverse(),
            k <= n,
            k <= 6,
            texts(r@) == rev.take(k as int),
        decreases n - k,
    {
        let e = events[n - 1 - k].clone();
        r.push(e);
        assert(rev[k as int] == events@[n - 1 - k]@);
        assert(texts(r@) =~= rev.take(k as int).push(rev[k as int]));
        assert(rev.take(k + 1) =~= rev.take(k as int).push(rev[k as int]));
        k = k + 1;
    }
    if n <= 6 {
        assert(rev.take(n as int) =~= rev);
    }
    r
}

fn verdict_of(ok: bool, why: String) -> (r: Option<String>)
    ensures
        match r {
            Some(w) => verdict(ok, why@) == Some(w@),
            None => verdict(ok, why@) is None,
        },
{
    if ok { None } else { Some(why) }
}

/// The failure message of an assertion step (see [`assert_verdict`]).
fn assert_verdict_of(step: &Step, snap: &Snapshot, events: &Vec<String>) -> (r: Option<String>)
    ensures
        match r {
            Some(w) => assert_verdict(step@, *snap, texts(events@)) == Some(w@),
            None => assert_verdict(step@, *snap, texts(events@)) is None,
        },
{
    match step {
        Step::AssertOmnibar(open) => {
            let state = if *open { "open" } else { "closed" };
            verdict_of(snap.omnibar.open == *open, concat3("assert omnibar ", state, ": it is not"))
        },
        Step::AssertText(want) => {
            let mut why = concat3("assert text '", want.as_str(), "': the omnibar holds '");
            why.append(snap.omnibar.text.as_str());
            why.append("'");
            verdict_of(str_eq(snap.omnibar.text.as_str(), want.as_str()), why)
        },
        Step::AssertFocused(substr) => {
            let needle = to_lowercase(substr.as_str());
            let hay = focused_hay_of(snap);
            let ok = contains_chars(&chars_of(hay.as_str()), &chars_of(needle.as_str()));
            let mut why = concat3("assert focused '", substr.as_str(), "': focused is '");
            why.append(hay.as_str());
            why.append("'");
            verdict_of(ok, why)
        },
        Step::AssertSurface(kind) => {
            let mut why = concat3("assert surface '", kind.as_str(), "': the plan is ");
            why.append(debug_list(&snap.surfaces).as_str());
            verdict_of(texts_contain(&snap.surfaces, kind.as_str()), why)
        },
        Step::AssertFocus(kind) => {
            let mut why = concat3("assert focus '", kind.as_str(), "': focus is '");
            why.append(snap.focus.as_str());
            why.append("'");
            verdict_of(str_eq(snap.focus.as_str(), kind.as_str()), why)
        },
        Step::AssertPane(tag) => {
            let mut why = concat3("assert pane '", tag.as_str(), "': the tree holds ");
            why.append(debug_list(&snap.panes).as_str());
            verdict_of(texts_contain(&snap.panes, tag.as_str()), why)
        },
        Step::AssertMaximized(want) => {
            let state = if *want { "maximized" } else { "not maximized" };
            verdict_of(snap.maximized == *want, concat3("assert ", state, ": it is not"))
        },
        Step::AssertRow(substr) => {
            let needle = chars_of(substr.as_str());
            let ok = rows_contain_text(&snap.trail_rows, &needle) || rows_contain_text(&snap.roster_rows, &needle);
            let mut why = concat3("assert row '", substr.as_str(), "': trail ");
            why.append(debug_list(&snap.trail_rows).as_str());
            why.append(" roster ");
            why.append(debug_list(&snap.roster_rows).as_str());
            verdict_of(ok, why)
        },
        Step::AssertSuggestions(op, n) => {
            let len = snap.omnibar.suggestions.len();
            let ok = match op {
                CmpOp::Eq => len == *n,
                CmpOp::Ge => len >= *n,
                CmpOp::Le => len <= *n,
            };
            let mut why = concat3("assert suggestions: have ", decimal_string(len as u64).as_str(), " (");
            why.append(debug_list(&snap.omnibar.suggestions).as_str());
            why.append("), wanted ");
            why.append(decimal_string(*n as u64).as_str());
            verdict_of(ok, why)
        },
        Step::AssertVisible => {
            verdict_of(snap.graph_visible, String::from_str("assert visible: every node is off-screen"))
        },
        Step::AssertContentLive => {
            let state = match &snap.focused {
                Some(f) => content_label_of(&snap.content, f.member),
                None => None,
            };
            match state {
                Some(l) => {
                    let ok = str_eq(l.as_str(), "live");
                    let mut why = String::from_str("assert content-live: focused node is ");
                    why.append(l.as_str());
                    verdict_of(ok, why)
                },
                None => {
                    proof {
                        assert(!(None::<Seq<char>> == Some("live"@)));
                    }
                    let mut why = String::from_str("assert content-live: focused node is ");
                    why.append("without content state");
                    verdict_of(false, why)
                },
            }
        },
        Step::AssertEvent(substr) => {
            let ok = rows_contain_text(events, &chars_of(substr.as_str()));
            let mut why = concat3("assert event '", substr.as_str(), "': not in the stream (last: ");
            why.append(debug_list(&recent_events_of(events)).as_str());
            why.append(")");
            verdict_of(ok, why)
        },
        _ => None,
    }
}

impl Scenario {
    /// A fresh run over parsed steps.
    pub fn from_steps(steps: Vec<Step>) -> (sc: Self)
        ensures
            sc@.steps == steps@.map_values(|s: Step| s@),
            sc@.idx == 0,
            sc@.settle == 0,
            sc@.log == Seq::<Seq<char>>::empty(),
            !sc@.failed,
            sc@.events == Seq::<Seq<char>>::empty(),
    {
        let sc = Scenario { steps, idx: 0, settle: 0, log: Vec::new(), failed: false, events: Vec::new() };
        assert(texts(sc.log@) =~= Seq::<Seq<char>>::empty());
        assert(texts(sc.events@) =~= Seq::<Seq<char>>::empty());
        sc
    }

    /// A run that is already failed with `why` in its log, so a driver
    /// waiting on the run's end learns WHY instead of timing out.
    pub fn stillborn(why: &str) -> (sc: Self)
        ensures
            sc@.steps == Seq::<StepView>::empty(),
            sc@.idx == 0,
            sc@.settle == 0,
            sc@.log == seq!["FAIL: "@ + why@],
            sc@.failed,
            sc@.events == Seq::<Seq<char>>::empty(),
    {
        let mut log: Vec<String> = Vec::new();
        let mut line = String::from_str("FAIL: ");
        line.append(why);
        log.push(line);
        let sc = Scenario { steps: Vec::new(), idx: 0, settle: 0, log, failed: true, events: Vec::new() };
        assert(texts(sc.log@) =~= seq!["FAIL: "@ + why@]);
        assert(texts(sc.events@) =~= Seq::<Seq<char>>::empty());
        assert(sc.steps@.map_values(|s: Step| s@) =~= Seq::<StepView>::empty());
        sc
    }

    /// The run for a scenario text: its steps, or a stillborn run naming the
    /// parse error.
    pub fn from_text(body: &str) -> (sc: Self)
        ensures
            match parse_spec(body@) {
                Ok(steps) => sc@.steps == steps && !sc@.failed && sc@.log.len() == 0 && sc@.idx == 0
                    && sc@.settle == 0 && sc@.events.len() == 0,
                Err(e) => sc@.steps.len() == 0 && sc@.failed && sc@.log == seq!["FAIL: "@ + ("parse error: "@ + e)]
                    && sc@.events.len() == 0,
            },
    {
        match parse(body) {
            Ok(steps) => Scenario::from_steps(steps),
            Err(err) => {
                let mut why = String::from_str("parse error: ");
                why.append(err.as_str());
                let sc = Scenario::stillborn(why.as_str());
                sc
            },
        }
    }

    /// What the step at the cursor does: the tick, and the change it asks
    /// of the run besides advancing.
    fn step_outcome(&self, snap: &Snapshot) -> (r: (Tick, Change))
        requires
            self@.settle == 0,
            self@.idx < self@.steps.len(),
        ensures
            tick_step(self@, *snap, applied(ScenarioView { idx: self@.idx + 1, ..self@ }, r.1), r.0),
    {
        let ghost a = ScenarioView { idx: self@.idx + 1, ..self@ };
        let step = &self.steps[self.idx];
        assert(self@.steps[self@.idx as int] == step@);
        match step {
            Step::Open(url) => (one(Action::OpenAddress(url.clone())), Change::Nothing),
            Step::Omnibar { command } => (one(Action::OmnibarOpen { command: *command }), Change::Nothing),
            Step::Type(text) => (typed(text), Change::Nothing),
            Step::Insert(text) => (one(Action::OmnibarInsert(text.clone())), Change::Nothing),
            Step::Key(k) => (one(key_action_of(*k)), Change::Nothing),
            Step::Act(label) => match palette_lookup(label) {
                Some(act) => (one(act), Change::Nothing),
                None => {
                    let why = concat3("act: no palette action labelled '", label.as_str(), "'");
                    (Tick::Wait, Change::Fail(why))
                },
            },
            Step::Settle(frames) => (Tick::Wait, Change::Settle(*frames)),
            Step::Click(x, y) => (Tick::Click { x: x.clone(), y: y.clone() }, Change::Nothing),
            Step::ClickRow(substr) => (Tick::ClickRow { substr: substr.clone() }, Change::Nothing),
            Step::Scroll(x, y, dx, dy) => (
                Tick::Scroll { x: x.clone(), y: y.clone(), dx: dx.clone(), dy: dy.clone() },
                Change::Nothing,
            ),
            Step::Capture(name) => {
                let mut file = name.clone();
                file.append(".png");
                (Tick::Capture(file), Change::Nothing)
            },
            Step::Divider(ratio) => (Tick::Divider { ratio: ratio.clone() }, Change::Nothing),
            Step::Log(text) => (Tick::Wait, Change::Log(text.clone())),
            _ => match assert_verdict_of(step, snap, &self.events) {
                Some(why) => (Tick::Wait, Change::Fail(why)),
                None => (Tick::Wait, Change::Nothing),
            },
        }
    }

    /// One frame of the run: what the host should do now. One step is
    /// consumed per frame; a settle counts frames down first.
    pub fn tick(&mut self, snap: &Snapshot) -> (t: Tick)
        ensures
            tick_step(old(self)@, *snap, final(self)@, t),
    {
        if self.settle > 0 {
            self.settle = self.settle - 1;
            return Tick::Wait;
        }
        if self.idx >= self.steps.len() {
            return Tick::Done;
        }
        let (t, change) = self.step_outcome(snap);
        self.idx = self.idx + 1;
        match change {
            Change::Nothing => {},
            Change::Fail(why) => self.fail(why),
            Change::Settle(n) => self.settle = n,
            Change::Log(line) => {
                self.log.push(line);
                assert(texts(self.log@) =~= texts(old(self).log@).push(line@));
            },
        }
        t
    }

    /// The sentinel text a finished run leaves for its driver (see
    /// [`sentinel`]); the host writes it beside the run's outputs.
    pub fn sentinel_text(&self) -> (s: String)
        ensures
            s@ == sentinel(self@),
    {
        let mut body = String::from_str("RESULT ");
        body.append(if self.failed { "fail" } else { "ok" });
        body.append("\n");
        append_lines(&mut body, &self.log, 0, "");
        assert(texts(self.log@).subrange(0, self.log@.len() as int) =~= texts(self.log@));
        if self.failed {
            let n = self.events.len();
            let start = if n <= 12 { 0 } else { n - 12 };
            append_lines(&mut body, &self.events, start, "event: ");
        } else {
            assert(body@ =~= body@ + Seq::<char>::empty());
        }
        body
    }

    /// Whether the run has failed.
    pub fn failed(&self) -> (b: bool)
        ensures
            b == self@.failed,
    {
        self.failed
    }

    /// The run's log lines.
    pub fn log(&self) -> (l: &Vec<String>)
        ensures
            texts(l@) == self@.log,
    {
        &self.log
    }

    fn fail(&mut self, why: String)
        ensures
            final(self)@ == failed_with(old(self)@, why@),
    {
        self.failed = true;
        let mut line = String::from_str("FAIL: ");
        line.append(why.as_str());
        self.log.push(line);
        assert(texts(self.log@) =~= texts(old(self).log@).push("FAIL: "@ + why@));
    }

    /// Fold a frame's drained semantic events into the run.
    pub fn note_events(&mut self, events: &Vec<AppEvent>)
        ensures
            final(self)@ == (ScenarioView {
                events: old(self)@.events + events@.map_values(|e: AppEvent| crate::observe::event_text(e)),
                ..old(self)@
            }),
    {
        let mut i: usize = 0;
        while i < events.len()
            invariant
                i <= events.len(),
                self@ == (ScenarioView {
                    events: old(self)@.events + events@.take(i as int).map_values(|e: AppEvent| crate::observe::event_text(e)),
                    ..old(self)@
                }),
            decreases events.len() - i,
        {
            let d = events[i].describe();
            let ghost before = texts(self.events@);
            self.events.push(d);
            assert(texts(self.events@) =~= before.push(d@));
            assert(events@.take(i + 1).map_values(|e: AppEvent| crate::observe::event_text(e))
                =~= events@.take(i as int).map_values(|e: AppEvent| crate::observe::event_text(e)).push(crate::observe::event_text(events@[i as int])));
            assert(texts(self.events@) =~= texts(old(self).events@) + events@.take(i + 1).map_values(|e: AppEvent| crate::observe::event_text(e)));
            i = i + 1;
        }
        assert(events@.take(events.len() as int) =~= events@);
    }

    /// Record a capture's outcome (the host owns the GPU work); `path` is
    /// the capture file's display text.
    pub fn note_capture(&mut self, path: &str, ok: bool)
        ensures
            final(self)@ == (if ok {
                ScenarioView { log: old(self)@.log.push("captured "@ + path@), ..old(self)@ }
            } else {
                failed_with(old(self)@, "capture failed: "@ + path@)
            }),
    {
        if ok {
            let mut line = String::from_str("captured ");
            line.append(path);
            self.log.push(line);
            assert(texts(self.log@) =~= texts(old(self).log@).push("captured "@ + path@));
        } else {
            let mut why = String::from_str("capture failed: ");
            why.append(path);
            self.fail(why);
        }
    }
}

} // verus!

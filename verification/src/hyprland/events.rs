//! Events read from the compositor's event socket.
//!
//! The socket delivers newline-separated records of the shape
//! `name>>data`, with comma-separated fields inside `data`.  Because field
//! values may themselves contain commas, fields are split at the rightmost
//! commas.  [`parse_event`] decodes a whole read into [`Event`] values:
//! unrecognized or superseded records are skipped, and a recognized record
//! with an unparsable workspace id fails the whole read.

use vstd::prelude::*;

use super::types::{Address, WorkspaceId};

verus! {

/// Workspace data carried by events.
#[derive(Debug, Clone, PartialEq, Eq, PartialOrd, Ord)]
pub enum WorkspaceType {
    /// A named workspace.
    Regular(String),
    /// The special workspace, with its name if it has one.
    Special(Option<String>),
}

/// Window event data.
#[derive(Debug, Clone, PartialEq, Eq)]
pub struct WindowEventData {
    /// The window class.
    pub window_class: String,
    /// The window title.
    pub window_title: String,
    /// The window address.
    pub window_address: Address,
}

/// Window title event data.
#[derive(Debug, Clone, PartialEq, Eq)]
pub struct WindowTitleEventData {
    /// The window address.
    pub window_address: Address,
    /// The window title.
    pub window_title: String,
}

/// Monitor event data.
#[derive(Debug, Clone, PartialEq, Eq)]
pub struct MonitorEventData {
    /// The monitor name.
    pub monitor_name: String,
    /// The workspace.
    pub workspace: WorkspaceType,
}

/// Floating-mode event data.
#[derive(Debug, Clone, PartialEq, Eq)]
pub struct WindowFloatEventData {
    /// The window address.
    pub window_address: Address,
    /// The float state.
    pub is_floating: bool,
}

/// Workspace event data.
#[derive(Debug, Clone, PartialEq, Eq)]
pub struct WorkspaceEventData {
    /// The workspace id.
    pub workspace_id: WorkspaceId,
    /// The workspace name.
    pub workspace_name: String,
}

/// Minimize event data.
#[derive(Debug, Clone, PartialEq, Eq)]
pub struct MinimizeEventData {
    /// The window address.
    pub window_address: Address,
    /// Whether the window is now minimized.
    pub is_minimized: bool,
}

/// Screencast event data.
#[derive(Debug, Clone, Copy, PartialEq, Eq, Structural)]
pub struct ScreencastEventData {
    /// Whether the screencast is turning on.
    pub is_turning_on: bool,
    /// Whether the owner is a monitor.
    pub is_monitor: bool,
}

/// Data for a window moved to another workspace.
#[derive(Debug, Clone, PartialEq, Eq)]
pub struct WindowMoveEvent {
    /// The window address.
    pub window_address: Address,
    /// The workspace name.
    pub workspace_name: String,
}

/// Data for a newly opened window.
#[derive(Debug, Clone)]
pub struct WindowOpenEvent {
    /// The window address.
    pub window_address: Address,
    /// The workspace name.
    pub workspace_name: String,
    /// The window class.
    pub window_class: String,
    /// The window title.
    pub window_title: String,
}

/// Data for a keyboard layout change.
#[derive(Debug, Clone, PartialEq, Eq)]
pub struct LayoutEvent {
    /// The keyboard name.
    pub keyboard_name: String,
    /// The layout name.
    pub layout_name: String,
}

/// A decoded compositor event.
#[derive(Debug, Clone)]
pub enum Event {
    Workspace(WorkspaceEventData),
    DestroyWorkspace(WorkspaceEventData),
    CreateWorkspace(WorkspaceEventData),
    MoveWorkspace(MonitorEventData),
    RenameWorkspace(WorkspaceEventData),
    ActiveWindow(Option<Address>),
    FocusedMon(MonitorEventData),
    Fullscreen(bool),
    MonitorAdded(String),
    MonitorRemoved(String),
    OpenWindow(WindowOpenEvent),
    CloseWindow(Address),
    MoveWindow(WindowMoveEvent),
    ActiveLayout(LayoutEvent),
    SubMap(String),
    OpenLayer(String),
    CloseLayer(String),
    ChangeFloatingMode(WindowFloatEventData),
    Urgent(Address),
    Minimize(MinimizeEventData),
    WindowTitle(WindowTitleEventData),
    Screencast(ScreencastEventData),
}

/// Index of the first occurrence of `c` in `s` at or after `i`; `s.len()`
/// if there is none.
pub open spec fn first_char_from(s: Seq<char>, c: char, i: int) -> int
    decreases s.len() - i when 0 <= i <= s.len()
{
    if i >= s.len() {
        s.len() as int
    } else if s[i] == c {
        i
    } else {
        first_char_from(s, c, i + 1)
    }
}

pub proof fn lemma_first_char_from_bounds(s: Seq<char>, c: char, i: int)
    requires
        0 <= i <= s.len(),
    ensures
        i <= first_char_from(s, c, i) <= s.len(),
        first_char_from(s, c, i) < s.len() ==> s[first_char_from(s, c, i)] == c,
    decreases s.len() - i,
{
    if i < s.len() && s[i] != c {
        lemma_first_char_from_bounds(s, c, i + 1);
    }
}

/// Whether `prefix` is a prefix of `s`.
pub open spec fn has_prefix(s: Seq<char>, prefix: Seq<char>) -> bool {
    s.len() >= prefix.len() && s.subrange(0, prefix.len() as int) == prefix
}

/// Equality of two strings' character sequences.
fn str_eq(a: &str, b: &str) -> (r: bool)
    ensures
        r == (a@ == b@),
{
    let na: usize = a.unicode_len();
    let nb: usize = b.unicode_len();
    if na != nb {
        proof {
            assert(a@ != b@);
        }
        return false;
    }
    let mut i: usize = 0;
    while i < na
        invariant
            0 <= i <= na,
            na == a@.len(),
            na == b@.len(),
            forall|k: int| 0 <= k < i ==> a@[k] == b@[k],
        decreases na - i,
    {
        if a.get_char(i) != b.get_char(i) {
            return false;
        }
        i = i + 1;
    }
    proof {
        assert(a@ =~= b@);
    }
    true
}

/// Whether `s` starts with `prefix`, over characters.
fn str_starts_with(s: &str, prefix: &str) -> (r: bool)
    ensures
        r == has_prefix(s@, prefix@),
{
    let n: usize = s.unicode_len();
    let np: usize = prefix.unicode_len();
    if n < np {
        return false;
    }
    let mut i: usize = 0;
    while i < np
        invariant
            0 <= i <= np,
            n == s@.len(),
            np == prefix@.len(),
            np <= n,
            forall|k: int| 0 <= k < i ==> s@[k] == prefix@[k],
        decreases np - i,
    {
        if s.get_char(i) != prefix.get_char(i) {
            proof {
                assert(s@.subrange(0, np as int)[i as int] != prefix@[i as int]);
            }
            return false;
        }
        i = i + 1;
    }
    proof {
        assert(s@.subrange(0, np as int) =~= prefix@);
    }
    true
}

/// Find the first occurrence of `c` at or after `from`.
fn find_char_from(s: &str, c: char, from: usize) -> (j: usize)
    requires
        from <= s@.len(),
    ensures
        j == first_char_from(s@, c, from as int),
        from <= j <= s@.len(),
{
    let n: usize = s.unicode_len();
    let mut i: usize = from;
    while i < n
        invariant
            from <= i <= n,
            n == s@.len(),
            first_char_from(s@, c, from as int) == first_char_from(s@, c, i as int),
        decreases n - i,
    {
        if s.get_char(i) == c {
            return i;
        }
        i = i + 1;
    }
    n
}

/// Copy the characters `from..to` of `s` into an owned string.
fn substr(s: &str, from: usize, to: usize) -> (r: String)
    requires
        from <= to <= s@.len(),
    ensures
        r@ == s@.subrange(from as int, to as int),
{
    String::from_str(s.substring_char(from, to))
}

/// Index of the first `:` at or after position 8 (the end of the
/// `special:` prefix), bounding the special workspace's name.
pub open spec fn special_name_end(s: Seq<char>) -> int {
    first_char_from(s, ':', 8)
}

/// How a workspace string decodes: `special` is the anonymous special
/// workspace; `special:NAME` (up to the next `:`) is the named one;
/// anything else is a regular workspace of that name.
pub open spec fn workspace_matches(text: Seq<char>, w: WorkspaceType) -> bool {
    if text == "special"@ {
        w == WorkspaceType::Special(None)
    } else if has_prefix(text, "special:"@) {
        match w {
            WorkspaceType::Special(Some(n)) => n@ == text.subrange(8, special_name_end(text)),
            _ => false,
        }
    } else {
        match w {
            WorkspaceType::Regular(n) => n@ == text,
            _ => false,
        }
    }
}

/// Decode a workspace string.
pub fn parse_workspace(str: String) -> (w: WorkspaceType)
    ensures
        workspace_matches(str@, w),
{
    if str_eq(str.as_str(), "special") {
        WorkspaceType::Special(None)
    } else if str_starts_with(str.as_str(), "special:") {
        proof {
            reveal_strlit("special:");
            lemma_first_char_from_bounds(str@, ':', 8);
        }
        let end = find_char_from(str.as_str(), ':', 8);
        let name = substr(str.as_str(), 8, end);
        WorkspaceType::Special(Some(name))
    } else {
        WorkspaceType::Regular(str)
    }
}

} // verus!

verus! {

/// An ASCII decimal digit.
pub open spec fn is_digit(c: char) -> bool {
    48 <= (c as u32) && (c as u32) <= 57
}

/// Every character of `s` is a digit.
pub open spec fn all_digits(s: Seq<char>) -> bool {
    forall|k: int| 0 <= k < s.len() ==> is_digit(#[trigger] s[k])
}

/// The number written by a digit string, most significant digit first.
pub open spec fn digits_value(s: Seq<char>) -> int
    decreases s.len(),
{
    if s.len() == 0 {
        0
    } else {
        digits_value(s.drop_last()) * 10 + ((s.last() as u32) - 48)
    }
}

/// The integer written by `s` under Rust's integer grammar — an optional
/// sign followed by one or more digits — ignoring any range limit.
pub open spec fn int_text(s: Seq<char>) -> Option<int> {
    if s.len() == 0 {
        None
    } else if s[0] == '+' || s[0] == '-' {
        let ds = s.drop_first();
        if ds.len() > 0 && all_digits(ds) {
            if s[0] == '-' {
                Some(-digits_value(ds))
            } else {
                Some(digits_value(ds))
            }
        } else {
            None
        }
    } else if all_digits(s) {
        Some(digits_value(s))
    } else {
        None
    }
}

/// The `i32` written by `s`, if it parses and fits.
pub open spec fn spec_parse_i32(s: Seq<char>) -> Option<int> {
    match int_text(s) {
        Some(v) => if -0x8000_0000 <= v <= 0x7fff_ffff {
            Some(v)
        } else {
            None
        },
        None => None,
    }
}

proof fn lemma_digits_nonneg(s: Seq<char>)
    ensures
        all_digits(s) ==> digits_value(s) >= 0,
    decreases s.len(),
{
    if s.len() > 0 {
        lemma_digits_nonneg(s.drop_last());
    }
}

proof fn lemma_digits_prefix(s: Seq<char>, k: int)
    requires
        all_digits(s),
        0 <= k <= s.len(),
    ensures
        digits_value(s.take(k)) <= digits_value(s),
    decreases s.len() - k,
{
    if k < s.len() {
        lemma_digits_prefix(s, k + 1);
        assert(s.take(k + 1).drop_last() =~= s.take(k));
        assert(all_digits(s.take(k)));
        lemma_digits_nonneg(s.take(k));
        assert(digits_value(s.take(k + 1)) == digits_value(s.take(k)) * 10 + ((s.take(k + 1).last() as u32) - 48));
    } else {
        assert(s.take(k) =~= s);
    }
}

/// Parse an `i32` exactly as Rust's own integer parsing accepts it: an
/// optional sign, then one or more digits, the value within range.
pub fn parse_i32(s: &str) -> (r: Option<i32>)
    ensures
        match r {
            Some(v) => spec_parse_i32(s@) == Some(v as int),
            None => spec_parse_i32(s@) is None,
        },
{
    let n: usize = s.unicode_len();
    if n == 0 {
        return None;
    }
    let c0 = s.get_char(0);
    let has_sign = c0 == '-' || c0 == '+';
    let neg = c0 == '-';
    let start: usize = if has_sign {
        1
    } else {
        0
    };
    if start >= n {
        return None;
    }
    let ghost digits = if has_sign {
        s@.drop_first()
    } else {
        s@
    };
    proof {
        assert(digits =~= s@.subrange(start as int, n as int));
    }
    let mut acc: i64 = 0;
    let mut i: usize = start;
    proof {
        assert(s@.subrange(start as int, start as int) =~= Seq::<char>::empty());
    }
    while i < n
        invariant
            start <= i <= n,
            n == s@.len(),
            n > 0,
            start < n,
            start == 1 <==> has_sign,
            start == 0 || start == 1,
            has_sign <==> (s@[0] == '-' || s@[0] == '+'),
            neg <==> s@[0] == '-',
            digits == s@.subrange(start as int, n as int),
            all_digits(s@.subrange(start as int, i as int)),
            acc == digits_value(s@.subrange(start as int, i as int)),
            0 <= acc <= 0x8000_0000,
        decreases n - i,
    {
        let c = s.get_char(i);
        let u = c as u32;
        if !(48 <= u && u <= 57) {
            proof {
                assert(!all_digits(digits)) by {
                    assert(digits[i - start] == s@[i as int]);
                    assert(!is_digit(digits[i - start]));
                };
                if has_sign {
                    assert(s@.drop_first() =~= digits);
                } else {
                    assert(digits =~= s@);
                }
                assert(int_text(s@) is None);
            }
            return None;
        }
        let d: i64 = (u - 48) as i64;
        let ghost pre = s@.subrange(start as int, i as int);
        acc = acc * 10 + d;
        proof {
            assert(s@.subrange(start as int, i + 1).drop_last() =~= pre);
            assert(s@.subrange(start as int, i + 1).last() == s@[i as int]);
        }
        if acc > 0x8000_0000 {
            proof {
                let cur = s@.subrange(start as int, i + 1);
                if has_sign {
                    assert(s@.drop_first() =~= digits);
                } else {
                    assert(digits =~= s@);
                }
                if all_digits(digits) {
                    assert(cur =~= digits.take(i + 1 - start));
                    lemma_digits_prefix(digits, i + 1 - start);
                    assert(digits_value(digits) >= acc);
                    assert(int_text(s@) == Some(if neg { -digits_value(digits) } else { digits_value(digits) }));
                    assert(spec_parse_i32(s@) is None);
                } else {
                    assert(int_text(s@) is None);
                }
            }
            return None;
        }
        i = i + 1;
    }
    proof {
        assert(s@.subrange(start as int, n as int) =~= digits);
        assert(all_digits(digits));
        assert(acc == digits_value(digits));
        if !has_sign {
            assert(digits =~= s@);
        }
        assert(int_text(s@) == Some(if neg { -digits_value(digits) } else { digits_value(digits) }));
    }
    if neg {
        Some((-acc) as i32)
    } else {
        if acc > 0x7fff_ffff {
            return None;
        }
        Some(acc as i32)
    }
}

} // verus!

verus! {

/// Index of the last `,` strictly below position `j`, if any.
pub open spec fn last_comma(s: Seq<char>, j: int) -> Option<int>
    decreases j when 0 <= j <= s.len()
{
    if j <= 0 {
        None
    } else if s[j - 1] == ',' {
        Some(j - 1)
    } else {
        last_comma(s, j - 1)
    }
}

pub proof fn lemma_last_comma_bounds(s: Seq<char>, j: int)
    requires
        0 <= j <= s.len(),
    ensures
        match last_comma(s, j) {
            Some(c) => 0 <= c < j && s[c] == ',',
            None => true,
        },
    decreases j,
{
    if j > 0 && s[j - 1] != ',' {
        lemma_last_comma_bounds(s, j - 1);
    }
}

/// Find the last `,` strictly below `end`.
fn rfind_comma_before(s: &str, end: usize) -> (r: Option<usize>)
    requires
        end <= s@.len(),
    ensures
        match r {
            Some(c) => last_comma(s@, end as int) == Some(c as int) && c < end && s@[c as int]
                == ',',
            None => last_comma(s@, end as int) is None,
        },
{
    let mut j: usize = end;
    while j > 0
        invariant
            0 <= j <= end,
            end <= s@.len(),
            last_comma(s@, end as int) == last_comma(s@, j as int),
        decreases j,
    {
        if s.get_char(j - 1) == ',' {
            return Some(j - 1);
        }
        j = j - 1;
    }
    None
}

/// An ASCII whitespace character, as the event stream can carry it.
pub open spec fn is_ws(c: char) -> bool {
    c == ' ' || c == '\t' || c == '\n' || c == '\r'
}

/// Index of the first non-whitespace character at or after `i`.
pub open spec fn first_non_ws(s: Seq<char>, i: int) -> int
    decreases s.len() - i when 0 <= i <= s.len()
{
    if i >= s.len() {
        s.len() as int
    } else if is_ws(s[i]) {
        first_non_ws(s, i + 1)
    } else {
        i
    }
}

/// Largest end position at or below `j` whose preceding character is not
/// whitespace.
pub open spec fn ws_end(s: Seq<char>, j: int) -> int
    decreases j when 0 <= j <= s.len()
{
    if j <= 0 {
        0
    } else if is_ws(s[j - 1]) {
        ws_end(s, j - 1)
    } else {
        j
    }
}

/// `s` with leading and trailing whitespace removed.
pub open spec fn spec_trim(s: Seq<char>) -> Seq<char> {
    let a = first_non_ws(s, 0);
    let b = ws_end(s, s.len() as int);
    if a <= b {
        s.subrange(a, b)
    } else {
        Seq::empty()
    }
}

fn is_ws_char(c: char) -> (r: bool)
    ensures
        r == is_ws(c),
{
    c == ' ' || c == '\t' || c == '\n' || c == '\r'
}

/// Strip leading and trailing whitespace.
fn trim_ws(s: &str) -> (r: &str)
    ensures
        r@ == spec_trim(s@),
{
    let n: usize = s.unicode_len();
    let mut a: usize = 0;
    while a < n && is_ws_char(s.get_char(a))
        invariant
            0 <= a <= n,
            n == s@.len(),
            first_non_ws(s@, 0) == first_non_ws(s@, a as int),
        decreases n - a,
    {
        a = a + 1;
    }
    let mut b: usize = n;
    while b > 0 && is_ws_char(s.get_char(b - 1))
        invariant
            0 <= b <= n,
            n == s@.len(),
            ws_end(s@, n as int) == ws_end(s@, b as int),
        decreases b,
    {
        b = b - 1;
    }
    proof {
        assert(first_non_ws(s@, 0) == a as int);
        assert(ws_end(s@, n as int) == b as int);
    }
    if a <= b {
        s.substring_char(a, b)
    } else {
        proof {
            assert(s@.subrange(0, 0) =~= Seq::<char>::empty());
        }
        s.substring_char(0, 0)
    }
}

/// Index of the first `>>` separator in `s` at or after `i`; `s.len()` if
/// there is none.
pub open spec fn first_sep_from(s: Seq<char>, i: int) -> int
    decreases s.len() - i when 0 <= i <= s.len()
{
    if i + 1 >= s.len() {
        s.len() as int
    } else if s[i] == '>' && s[i + 1] == '>' {
        i
    } else {
        first_sep_from(s, i + 1)
    }
}

pub proof fn lemma_first_sep_bounds(s: Seq<char>, i: int)
    requires
        0 <= i <= s.len(),
    ensures
        i <= first_sep_from(s, i) <= s.len(),
        first_sep_from(s, i) < s.len() ==> first_sep_from(s, i) + 2 <= s.len(),
    decreases s.len() - i,
{
    if i + 1 < s.len() && !(s[i] == '>' && s[i + 1] == '>') {
        lemma_first_sep_bounds(s, i + 1);
    }
}

/// Find the first `>>` separator.
fn find_sep(s: &str) -> (j: usize)
    ensures
        j == first_sep_from(s@, 0),
        j <= s@.len(),
        j < s@.len() ==> j + 2 <= s@.len(),
{
    let n: usize = s.unicode_len();
    proof {
        lemma_first_sep_bounds(s@, 0);
    }
    if n == 0 {
        return 0;
    }
    let mut i: usize = 0;
    while i + 1 < n
        invariant
            0 <= i,
            i + 1 <= n,
            n == s@.len(),
            first_sep_from(s@, 0) == first_sep_from(s@, i as int),
        decreases n - i,
    {
        if s.get_char(i) == '>' && s.get_char(i + 1) == '>' {
            return i;
        }
        i = i + 1;
    }
    n
}

/// How a line is handled.
pub ghost enum LineOutcome {
    /// Unrecognized, superseded, or malformed in a way the event stream
    /// tolerates: the line is dropped.
    Skipped,
    /// The line yields exactly one event.
    Produced,
    /// A recognized workspace record with an unparsable id: the whole read
    /// fails.
    Invalid,
}

/// Classify one line of the event stream.
pub open spec fn line_outcome(line: Seq<char>) -> LineOutcome {
    let sep = first_sep_from(line, 0);
    if sep >= line.len() {
        LineOutcome::Skipped
    } else {
        let name = line.subrange(0, sep);
        let rest = line.subrange(sep + 2, line.len() as int);
        if name == "workspacev2"@ || name == "destroyworkspacev2"@ || name
            == "createworkspacev2"@ || name == "renameworkspace"@ {
            match last_comma(rest, rest.len() as int) {
                Some(c) => if spec_parse_i32(rest.subrange(0, c)) is Some {
                    LineOutcome::Produced
                } else {
                    LineOutcome::Invalid
                },
                None => LineOutcome::Skipped,
            }
        } else if name == "moveworkspace"@ || name == "focusedmon"@ || name == "movewindow"@
            || name == "windowtitlev2"@ {
            match last_comma(rest, rest.len() as int) {
                Some(c) => LineOutcome::Produced,
                None => LineOutcome::Skipped,
            }
        } else if name == "openwindow"@ {
            match last_comma(rest, rest.len() as int) {
                Some(c3) => match last_comma(rest, c3) {
                    Some(c2) => match last_comma(rest, c2) {
                        Some(c1) => LineOutcome::Produced,
                        None => LineOutcome::Skipped,
                    },
                    None => LineOutcome::Skipped,
                },
                None => LineOutcome::Skipped,
            }
        } else if name == "fullscreen"@ {
            if rest.len() > 0 && (rest[0] == '0' || rest[0] == '1') {
                LineOutcome::Produced
            } else {
                LineOutcome::Skipped
            }
        } else if name == "changefloatingmode"@ || name == "minimize"@ {
            match last_comma(rest, rest.len() as int) {
                Some(c) => if c + 1 < rest.len() && (rest[c + 1] == '0' || rest[c + 1] == '1') {
                    LineOutcome::Produced
                } else {
                    LineOutcome::Skipped
                },
                None => LineOutcome::Skipped,
            }
        } else if name == "screencast"@ {
            if rest.len() >= 3 && (rest[0] == '0' || rest[0] == '1') && rest[1] == ',' && (rest[2]
                == '0' || rest[2] == '1') {
                LineOutcome::Produced
            } else {
                LineOutcome::Skipped
            }
        } else if name == "activewindowv2"@ || name == "monitoradded"@ || name
            == "monitorremoved"@ || name == "closewindow"@ || name == "activelayout"@ || name
            == "submap"@ || name == "openlayer"@ || name == "closelayer"@ || name == "urgent"@ {
            LineOutcome::Produced
        } else {
            LineOutcome::Skipped
        }
    }
}

/// Workspace-record fields carried by a produced v2 workspace line.
pub open spec fn wsdata_matches(rest: Seq<char>, d: WorkspaceEventData) -> bool {
    match last_comma(rest, rest.len() as int) {
        Some(c) => spec_parse_i32(rest.subrange(0, c)) == Some(d.workspace_id as int)
            && d.workspace_name@ == rest.subrange(c + 1, rest.len() as int),
        None => false,
    }
}

/// The event a produced line decodes to.
pub open spec fn line_matches(line: Seq<char>, e: Event) -> bool {
    let sep = first_sep_from(line, 0);
    let name = line.subrange(0, sep);
    let rest = line.subrange(sep + 2, line.len() as int);
    if name == "workspacev2"@ {
        match e {
            Event::Workspace(d) => wsdata_matches(rest, d),
            _ => false,
        }
    } else if name == "destroyworkspacev2"@ {
        match e {
            Event::DestroyWorkspace(d) => wsdata_matches(rest, d),
            _ => false,
        }
    } else if name == "createworkspacev2"@ {
        match e {
            Event::CreateWorkspace(d) => wsdata_matches(rest, d),
            _ => false,
        }
    } else if name == "renameworkspace"@ {
        match e {
            Event::RenameWorkspace(d) => wsdata_matches(rest, d),
            _ => false,
        }
    } else if name == "moveworkspace"@ {
        match e {
            Event::MoveWorkspace(m) => match last_comma(rest, rest.len() as int) {
                Some(c) => m.monitor_name@ == rest.subrange(c + 1, rest.len() as int)
                    && workspace_matches(rest.subrange(0, c), m.workspace),
                None => false,
            },
            _ => false,
        }
    } else if name == "focusedmon"@ {
        match e {
            Event::FocusedMon(m) => match last_comma(rest, rest.len() as int) {
                Some(c) => m.monitor_name@ == rest.subrange(0, c) && (match m.workspace {
                    WorkspaceType::Regular(n) => n@ == rest.subrange(c + 1, rest.len() as int),
                    _ => false,
                }),
                None => false,
            },
            _ => false,
        }
    } else if name == "movewindow"@ {
        match e {
            Event::MoveWindow(w) => match last_comma(rest, rest.len() as int) {
                Some(c) => w.window_address@ == "0x"@ + rest.subrange(0, c) && w.workspace_name@
                    == rest.subrange(c + 1, rest.len() as int),
                None => false,
            },
            _ => false,
        }
    } else if name == "windowtitlev2"@ {
        match e {
            Event::WindowTitle(t) => match last_comma(rest, rest.len() as int) {
                Some(c) => t.window_address@ == "0x"@ + rest.subrange(0, c) && t.window_title@
                    == rest.subrange(c + 1, rest.len() as int),
                None => false,
            },
            _ => false,
        }
    } else if name == "openwindow"@ {
        match e {
            Event::OpenWindow(w) => match last_comma(rest, rest.len() as int) {
                Some(c3) => match last_comma(rest, c3) {
                    Some(c2) => match last_comma(rest, c2) {
                        Some(c1) => {
                            &&& w.window_address@ == "0x"@ + rest.subrange(0, c1)
                            &&& w.workspace_name@ == rest.subrange(c1 + 1, c2)
                            &&& w.window_class@ == rest.subrange(c2 + 1, c3)
                            &&& w.window_title@ == rest.subrange(c3 + 1, rest.len() as int)
                        },
                        None => false,
                    },
                    None => false,
                },
                None => false,
            },
            _ => false,
        }
    } else if name == "fullscreen"@ {
        match e {
            Event::Fullscreen(b) => rest.len() > 0 && b == (rest[0] == '1'),
            _ => false,
        }
    } else if name == "changefloatingmode"@ {
        match e {
            Event::ChangeFloatingMode(f) => match last_comma(rest, rest.len() as int) {
                Some(c) => c + 1 < rest.len() && f.window_address@ == "0x"@ + rest.subrange(0, c)
                    && f.is_floating == (rest[c + 1] == '0'),
                None => false,
            },
            _ => false,
        }
    } else if name == "minimize"@ {
        match e {
            Event::Minimize(m) => match last_comma(rest, rest.len() as int) {
                Some(c) => c + 1 < rest.len() && m.window_address@ == "0x"@ + rest.subrange(0, c)
                    && m.is_minimized == (rest[c + 1] == '1'),
                None => false,
            },
            _ => false,
        }
    } else if name == "screencast"@ {
        match e {
            Event::Screencast(d) => rest.len() >= 3 && d.is_turning_on == (rest[0] == '1')
                && d.is_monitor == (rest[2] == '1'),
            _ => false,
        }
    } else if name == "activewindowv2"@ {
        match e {
            Event::ActiveWindow(opt) => if rest == ","@ {
                opt is None
            } else {
                match opt {
                    Some(a) => a@ == "0x"@ + rest,
                    None => false,
                }
            },
            _ => false,
        }
    } else if name == "monitoradded"@ {
        match e {
            Event::MonitorAdded(s) => s@ == rest,
            _ => false,
        }
    } else if name == "monitorremoved"@ {
        match e {
            Event::MonitorRemoved(s) => s@ == rest,
            _ => false,
        }
    } else if name == "closewindow"@ {
        match e {
            Event::CloseWindow(a) => a@ == "0x"@ + rest,
            _ => false,
        }
    } else if name == "activelayout"@ {
        match e {
            Event::ActiveLayout(l) => l.keyboard_name@ == rest && l.layout_name@
                == Seq::<char>::empty(),
            _ => false,
        }
    } else if name == "submap"@ {
        match e {
            Event::SubMap(s) => s@ == rest,
            _ => false,
        }
    } else if name == "openlayer"@ {
        match e {
            Event::OpenLayer(s) => s@ == rest,
            _ => false,
        }
    } else if name == "closelayer"@ {
        match e {
            Event::CloseLayer(s) => s@ == rest,
            _ => false,
        }
    } else if name == "urgent"@ {
        match e {
            Event::Urgent(a) => a@ == "0x"@ + rest,
            _ => false,
        }
    } else {
        false
    }
}

} // verus!

verus! {

/// Decoding a whole read can only fail on a recognized workspace record
/// whose id is not a valid integer.
#[derive(Debug, Clone, Copy, PartialEq, Eq, Structural)]
pub enum ParseEventError {
    /// A workspace record carried an unparsable id.
    InvalidInteger,
}

/// How one line was handled.
enum LineParse {
    Skip,
    Evt(Event),
    Bad,
}

/// Decode one line of the event stream.
#[verifier::rlimit(60)]
fn parse_line(line: &str) -> (r: LineParse)
    ensures
        match r {
            LineParse::Skip => line_outcome(line@) is Skipped,
            LineParse::Bad => line_outcome(line@) is Invalid,
            LineParse::Evt(e) => line_outcome(line@) is Produced && line_matches(line@, e),
        },
{
    let n: usize = line.unicode_len();
    let sep = find_sep(line);
    if sep >= n {
        return LineParse::Skip;
    }
    let name = line.substring_char(0, sep);
    let rest = line.substring_char(sep + 2, n);
    let rn: usize = rest.unicode_len();
    proof {
        lemma_last_comma_bounds(rest@, rn as int);
    }
    if str_eq(name, "workspacev2") || str_eq(name, "destroyworkspacev2") || str_eq(
        name,
        "createworkspacev2",
    ) || str_eq(name, "renameworkspace") {
        match rfind_comma_before(rest, rn) {
            Some(c) => {
                let idpart = rest.substring_char(0, c);
                match parse_i32(idpart) {
                    Some(v) => {
                        let wname = substr(rest, c + 1, rn);
                        let d = WorkspaceEventData { workspace_id: v, workspace_name: wname };
                        if str_eq(name, "workspacev2") {
                            LineParse::Evt(Event::Workspace(d))
                        } else if str_eq(name, "destroyworkspacev2") {
                            LineParse::Evt(Event::DestroyWorkspace(d))
                        } else if str_eq(name, "createworkspacev2") {
                            LineParse::Evt(Event::CreateWorkspace(d))
                        } else {
                            LineParse::Evt(Event::RenameWorkspace(d))
                        }
                    },
                    None => LineParse::Bad,
                }
            },
            None => LineParse::Skip,
        }
    } else if str_eq(name, "moveworkspace") {
        match rfind_comma_before(rest, rn) {
            Some(c) => {
                let left = substr(rest, 0, c);
                let right = substr(rest, c + 1, rn);
                let w = parse_workspace(left);
                LineParse::Evt(
                    Event::MoveWorkspace(MonitorEventData { monitor_name: right, workspace: w }),
                )
            },
            None => LineParse::Skip,
        }
    } else if str_eq(name, "focusedmon") {
        match rfind_comma_before(rest, rn) {
            Some(c) => {
                let mon = substr(rest, 0, c);
                let ws = substr(rest, c + 1, rn);
                LineParse::Evt(
                    Event::FocusedMon(
                        MonitorEventData {
                            monitor_name: mon,
                            workspace: WorkspaceType::Regular(ws),
                        },
                    ),
                )
            },
            None => LineParse::Skip,
        }
    } else if str_eq(name, "movewindow") {
        match rfind_comma_before(rest, rn) {
            Some(c) => {
                let addr = Address::fmt_new(rest.substring_char(0, c));
                let right = substr(rest, c + 1, rn);
                LineParse::Evt(
                    Event::MoveWindow(
                        WindowMoveEvent { window_address: addr, workspace_name: right },
                    ),
                )
            },
            None => LineParse::Skip,
        }
    } else if str_eq(name, "windowtitlev2") {
        match rfind_comma_before(rest, rn) {
            Some(c) => {
                let addr = Address::fmt_new(rest.substring_char(0, c));
                let title = substr(rest, c + 1, rn);
                LineParse::Evt(
                    Event::WindowTitle(
                        WindowTitleEventData { window_address: addr, window_title: title },
                    ),
                )
            },
            None => LineParse::Skip,
        }
    } else if str_eq(name, "openwindow") {
        match rfind_comma_before(rest, rn) {
            Some(c3) => match rfind_comma_before(rest, c3) {
                Some(c2) => match rfind_comma_before(rest, c2) {
                    Some(c1) => {
                        let addr = Address::fmt_new(rest.substring_char(0, c1));
                        let wsn = substr(rest, c1 + 1, c2);
                        let cls = substr(rest, c2 + 1, c3);
                        let title = substr(rest, c3 + 1, rn);
                        LineParse::Evt(
                            Event::OpenWindow(
                                WindowOpenEvent {
                                    window_address: addr,
                                    workspace_name: wsn,
                                    window_class: cls,
                                    window_title: title,
                                },
                            ),
                        )
                    },
                    None => LineParse::Skip,
                },
                None => LineParse::Skip,
            },
            None => LineParse::Skip,
        }
    } else if str_eq(name, "fullscreen") {
        if rn > 0 {
            let c0 = rest.get_char(0);
            if c0 == '0' || c0 == '1' {
                LineParse::Evt(Event::Fullscreen(c0 == '1'))
            } else {
                LineParse::Skip
            }
        } else {
            LineParse::Skip
        }
    } else if str_eq(name, "changefloatingmode") {
        match rfind_comma_before(rest, rn) {
            Some(c) => {
                if c + 1 < rn {
                    let fc = rest.get_char(c + 1);
                    if fc == '0' || fc == '1' {
                        let addr = Address::fmt_new(rest.substring_char(0, c));
                        LineParse::Evt(
                            Event::ChangeFloatingMode(
                                WindowFloatEventData {
                                    window_address: addr,
                                    is_floating: fc == '0',
                                },
                            ),
                        )
                    } else {
                        LineParse::Skip
                    }
                } else {
                    LineParse::Skip
                }
            },
            None => LineParse::Skip,
        }
    } else if str_eq(name, "minimize") {
        match rfind_comma_before(rest, rn) {
            Some(c) => {
                if c + 1 < rn {
                    let fc = rest.get_char(c + 1);
                    if fc == '0' || fc == '1' {
                        let addr = Address::fmt_new(rest.substring_char(0, c));
                        LineParse::Evt(
                            Event::Minimize(
                                MinimizeEventData { window_address: addr, is_minimized: fc == '1' },
                            ),
                        )
                    } else {
                        LineParse::Skip
                    }
                } else {
                    LineParse::Skip
                }
            },
            None => LineParse::Skip,
        }
    } else if str_eq(name, "screencast") {
        if rn >= 3 {
            let c0 = rest.get_char(0);
            let c1 = rest.get_char(1);
            let c2 = rest.get_char(2);
            if (c0 == '0' || c0 == '1') && c1 == ',' && (c2 == '0' || c2 == '1') {
                LineParse::Evt(
                    Event::Screencast(
                        ScreencastEventData { is_turning_on: c0 == '1', is_monitor: c2 == '1' },
                    ),
                )
            } else {
                LineParse::Skip
            }
        } else {
            LineParse::Skip
        }
    } else if str_eq(name, "activewindowv2") {
        if str_eq(rest, ",") {
            LineParse::Evt(Event::ActiveWindow(None))
        } else {
            LineParse::Evt(Event::ActiveWindow(Some(Address::fmt_new(rest))))
        }
    } else if str_eq(name, "monitoradded") {
        LineParse::Evt(Event::MonitorAdded(String::from_str(rest)))
    } else if str_eq(name, "monitorremoved") {
        LineParse::Evt(Event::MonitorRemoved(String::from_str(rest)))
    } else if str_eq(name, "closewindow") {
        LineParse::Evt(Event::CloseWindow(Address::fmt_new(rest)))
    } else if str_eq(name, "activelayout") {
        LineParse::Evt(
            Event::ActiveLayout(
                LayoutEvent { keyboard_name: String::from_str(rest), layout_name: String::new() },
            ),
        )
    } else if str_eq(name, "submap") {
        LineParse::Evt(Event::SubMap(String::from_str(rest)))
    } else if str_eq(name, "openlayer") {
        LineParse::Evt(Event::OpenLayer(String::from_str(rest)))
    } else if str_eq(name, "closelayer") {
        LineParse::Evt(Event::CloseLayer(String::from_str(rest)))
    } else if str_eq(name, "urgent") {
        LineParse::Evt(Event::Urgent(Address::fmt_new(rest)))
    } else {
        LineParse::Skip
    }
}

/// End of the line starting at `p`: the next newline, or the end of `s`.
pub open spec fn line_end(s: Seq<char>, p: int) -> int {
    let j = first_char_from(s, '\n', p);
    if j < p {
        p
    } else if j > s.len() {
        s.len() as int
    } else {
        j
    }
}

/// The events decoded from the lines of `s` starting at position `p` are
/// exactly `es`, in order.
pub open spec fn suffix_match(s: Seq<char>, p: int, es: Seq<Event>) -> bool
    decreases s.len() - p when 0 <= p <= s.len()
{
    if p >= s.len() {
        es.len() == 0
    } else {
        let j = line_end(s, p);
        let line = s.subrange(p, j);
        match line_outcome(line) {
            LineOutcome::Skipped => if j + 1 > s.len() {
                es.len() == 0
            } else {
                suffix_match(s, j + 1, es)
            },
            LineOutcome::Produced => es.len() > 0 && line_matches(line, es[0]) && (if j + 1
                > s.len() {
                es.len() == 1
            } else {
                suffix_match(s, j + 1, es.drop_first())
            }),
            LineOutcome::Invalid => false,
        }
    }
}

/// Some line of `s` at or after position `p` is invalid.
pub open spec fn suffix_invalid(s: Seq<char>, p: int) -> bool
    decreases s.len() - p when 0 <= p <= s.len()
{
    if p >= s.len() {
        false
    } else {
        let j = line_end(s, p);
        let line = s.subrange(p, j);
        (line_outcome(line) is Invalid) || (if j + 1 > s.len() {
            false
        } else {
            suffix_invalid(s, j + 1)
        })
    }
}

/// Decode the lines of `s` from position `p` on.
fn parse_from(s: &str, p: usize) -> (r: Result<Vec<Event>, ParseEventError>)
    requires
        p <= s@.len(),
    ensures
        match r {
            Ok(es) => suffix_match(s@, p as int, es@) && !suffix_invalid(s@, p as int),
            Err(_) => suffix_invalid(s@, p as int),
        },
    decreases s@.len() - p,
{
    let n: usize = s.unicode_len();
    if p >= n {
        let es: Vec<Event> = Vec::new();
        return Ok(es);
    }
    proof {
        lemma_first_char_from_bounds(s@, '\n', p as int);
    }
    let j = find_char_from(s, '\n', p);
    proof {
        assert(line_end(s@, p as int) == j as int);
    }
    let line = s.substring_char(p, j);
    let lp = parse_line(line);
    match lp {
        LineParse::Bad => Err(ParseEventError::InvalidInteger),
        LineParse::Skip => {
            if j < n {
                parse_from(s, j + 1)
            } else {
                let es: Vec<Event> = Vec::new();
                Ok(es)
            }
        },
        LineParse::Evt(ev) => {
            let tail: Result<Vec<Event>, ParseEventError> = if j < n {
                parse_from(s, j + 1)
            } else {
                Ok(Vec::new())
            };
            match tail {
                Ok(mut es) => {
                    let ghost tail_view = es@;
                    es.insert(0, ev);
                    proof {
                        assert(es@.drop_first() =~= tail_view);
                        assert(es@[0] == ev);
                    }
                    Ok(es)
                },
                Err(err) => Err(err),
            }
        },
    }
}

/// Decode a whole read from the event socket.
///
/// The read is trimmed of surrounding whitespace and split at newlines;
/// each line either yields one event, is skipped (unrecognized records and
/// records superseded by a v2 form), or — for a recognized workspace
/// record with an unparsable id — fails the whole read.
pub fn parse_event(event: String) -> (r: Result<Vec<Event>, ParseEventError>)
    ensures
        match r {
            Ok(es) => suffix_match(spec_trim(event@), 0, es@) && !suffix_invalid(
                spec_trim(event@),
                0,
            ),
            Err(_) => suffix_invalid(spec_trim(event@), 0),
        },
{
    let trimmed = trim_ws(event.as_str());
    parse_from(trimmed, 0)
}

} // verus!

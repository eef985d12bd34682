//! Open documents of the language server: their text, their version, and
//! the changes that arrived before their predecessors.

use vstd::prelude::*;
use vstd::string::StrSliceExecFns;
use vstd::string::StringExecFns;

verus! {

/// A place in a text: a line (from 0) and a character within it (from 0,
/// counted in UTF-16 code units, the language server protocol's default).
#[derive(Debug, Clone, Copy, PartialEq, Eq, Structural)]
pub struct Position {
    pub line: u32,
    pub character: u32,
}

/// One edit: replace the characters from `range.0` up to `range.1` by
/// `text`; without a range, replace all of it.
#[derive(Debug, Clone)]
pub struct TextEdit {
    pub range: Option<(Position, Position)>,
    pub text: String,
}

pub struct EditView {
    pub range: Option<(Position, Position)>,
    pub text: Seq<char>,
}

/// The offset at which line `line` starts, if the text has that many lines.
pub open spec fn line_start(s: Seq<char>, line: nat) -> Option<nat>
    decreases s.len(),
{
    if line == 0 {
        Some(0)
    } else if s.len() == 0 {
        None
    } else {
        let next = if s[0] == '\n' {
            (line - 1) as nat
        } else {
            line
        };
        match line_start(s.drop_first(), next) {
            Some(k) => Some(k + 1),
            None => None,
        }
    }
}

/// How many UTF-16 code units a character takes.
pub open spec fn utf16_len(c: char) -> nat {
    if c as nat >= 0x10000 {
        2
    } else {
        1
    }
}

/// The offset reached by moving `units` UTF-16 code units right from `at`
/// without leaving the line; `None` where the line ends first or the move
/// would stop inside a character.
pub open spec fn column_offset(s: Seq<char>, at: nat, units: nat) -> Option<nat>
    decreases units,
{
    if units == 0 {
        Some(at)
    } else if at >= s.len() || s[at as int] == '\n' {
        None
    } else if utf16_len(s[at as int]) > units {
        None
    } else {
        column_offset(s, at + 1, (units - utf16_len(s[at as int])) as nat)
    }
}

/// The offset (in characters) of a position: its line must exist and the
/// character must lie within that line (at most at its end), on a
/// character boundary.
pub open spec fn offset_of(s: Seq<char>, p: Position) -> Option<nat> {
    match line_start(s, p.line as nat) {
        Some(st) => column_offset(s, st, p.character as nat),
        None => None,
    }
}

proof fn lemma_line_start_skip(s: Seq<char>, i: int, line: nat)
    requires
        0 <= i < s.len(),
        line > 0,
    ensures
        line_start(s.skip(i), line) == match line_start(
            s.skip(i + 1),
            if s[i] == '\n' {
                (line - 1) as nat
            } else {
                line
            },
        ) {
            Some(k) => Some(k + 1),
            None => None::<nat>,
        },
{
    assert(s.skip(i).drop_first() =~= s.skip(i + 1));
}

/// The offset of a position in `text`, or `None` where there is none.
pub fn position_offset(text: &str, p: Position) -> (r: Option<usize>)
    ensures
        match r {
            Some(k) => offset_of(text@, p) == Some(k as nat) && k <= text@.len(),
            None => offset_of(text@, p) is None,
        },
{
    let n = text.unicode_len();
    let ghost s = text@;
    let mut i: usize = 0;
    let mut left: u32 = p.line;
    assert(s.skip(0) =~= s);
    while left > 0
        invariant
            s == text@,
            n == s.len(),
            i <= n,
            line_start(s, p.line as nat) == match line_start(s.skip(i as int), left as nat) {
                Some(k) => Some((k + i) as nat),
                None => None::<nat>,
            },
        decreases n - i + left,
    {
        if i == n {
            assert(s.skip(i as int).len() == 0);
            return None;
        }
        proof {
            lemma_line_start_skip(s, i as int, left as nat);
        }
        if text.get_char(i) == '\n' {
            left = left - 1;
        }
        i = i + 1;
    }
    assert(line_start(s, p.line as nat) == Some(i as nat));
    let start = i;
    let mut at: usize = start;
    let mut left: u32 = p.character;
    while left > 0
        invariant
            s == text@,
            n == s.len(),
            at <= n,
            line_start(s, p.line as nat) == Some(start as nat),
            column_offset(s, start as nat, p.character as nat) == column_offset(
                s,
                at as nat,
                left as nat,
            ),
        decreases left,
    {
        if at == n {
            return None;
        }
        let c = text.get_char(at);
        if c == '\n' {
            return None;
        }
        let w: u32 = if (c as u32) >= 0x10000 {
            2
        } else {
            1
        };
        if w > left {
            return None;
        }
        left = left - w;
        at = at + 1;
    }
    Some(at)
}

impl View for TextEdit {
    type V = EditView;

    open spec fn view(&self) -> EditView {
        EditView { range: self.range, text: self.text@ }
    }
}

/// A `didChange` notification: the version it brings the document to and
/// its edits, applied in order.
#[derive(Debug, Clone)]
pub struct DocumentChange {
    pub version: i32,
    pub edits: Vec<TextEdit>,
}

pub struct ChangeView {
    pub version: int,
    pub edits: Seq<EditView>,
}

impl View for DocumentChange {
    type V = ChangeView;

    open spec fn view(&self) -> ChangeView {
        ChangeView {
            version: self.version as int,
            edits: Seq::new(self.edits@.len(), |i: int| self.edits@[i]@),
        }
    }
}

/// Why a change was refused.
#[derive(Debug, Clone, Copy, PartialEq, Eq, Structural)]
pub enum DocumentError {
    /// The change's version is not above the document's (change, document).
    StaleVersion(i32, i32),
    /// A change with this version already waits for its predecessors.
    DuplicateVersion(i32),
    /// An edit's range does not lie within the text it applies to.
    InvalidEdit,
}

/// The text after one edit, or `None` where its range does not lie in the
/// text or ends before it starts.
pub open spec fn apply_edit(s: Seq<char>, e: EditView) -> Option<Seq<char>> {
    match e.range {
        None => Some(e.text),
        Some((a, b)) => match (offset_of(s, a), offset_of(s, b)) {
            (Some(x), Some(y)) => if x <= y {
                Some(s.subrange(0, x as int) + e.text + s.subrange(y as int, s.len() as int))
            } else {
                None
            },
            _ => None,
        },
    }
}

/// The text after a list of edits, applied in order.
pub open spec fn apply_edits(s: Seq<char>, edits: Seq<EditView>) -> Option<Seq<char>>
    decreases edits.len(),
{
    if edits.len() == 0 {
        Some(s)
    } else {
        match apply_edits(s, edits.drop_last()) {
            Some(t) => apply_edit(t, edits.last()),
            None => None,
        }
    }
}

/// An open document.
pub struct Document {
    contents: String,
    version: Option<i32>,
    pending: Vec<DocumentChange>,
}

/// The mathematical value of a [`Document`]: its text, its version and the
/// changes that wait for their predecessors.
pub struct DocumentView {
    pub contents: Seq<char>,
    pub version: Option<int>,
    pub pending: Seq<ChangeView>,
}

impl View for Document {
    type V = DocumentView;

    closed spec fn view(&self) -> DocumentView {
        DocumentView {
            contents: self.contents@,
            version: match self.version {
                Some(v) => Some(v as int),
                None => None,
            },
            pending: Seq::new(self.pending@.len(), |i: int| self.pending@[i]@),
        }
    }
}

pub open spec fn has_pending_version(pending: Seq<ChangeView>, v: int) -> bool {
    exists|i: int| 0 <= i < pending.len() && pending[i].version == v
}

pub open spec fn pending_version_index(pending: Seq<ChangeView>, v: int) -> int {
    choose|i: int| 0 <= i < pending.len() && pending[i].version == v
}

/// Waiting changes have distinct versions, all above the document's.
pub open spec fn document_wf(d: DocumentView) -> bool {
    &&& forall|i: int, j: int|
        0 <= i < d.pending.len() && 0 <= j < d.pending.len() && i != j
            ==> d.pending[i].version != d.pending[j].version
    &&& forall|i: int|
        0 <= i < d.pending.len() ==> match d.version {
            Some(v) => #[trigger] d.pending[i].version > v + 1,
            None => false,
        }
    &&& d.version is None ==> d.pending.len() == 0
}

/// Applies the waiting change that follows the current version, while there
/// is one; a waiting change whose edits do not apply is dropped and ends it.
pub open spec fn drain(d: DocumentView) -> DocumentView
    decreases d.pending.len(),
{
    match d.version {
        Some(v) => if has_pending_version(d.pending, v + 1) {
            let i = pending_version_index(d.pending, v + 1);
            let rest = d.pending.remove(i);
            match apply_edits(d.contents, d.pending[i].edits) {
                Some(t) => drain(DocumentView { contents: t, version: Some(v + 1), pending: rest }),
                None => DocumentView { pending: rest, ..d },
            }
        } else {
            d
        },
        None => d,
    }
}

/// The document after a change, and what `on_did_change` returns: a change
/// not above the current version is refused; one that skips a version waits;
/// one that follows the current version (or any change to a document with
/// no version) is applied, followed by the waiting changes it unblocks.
pub open spec fn did_change(d: DocumentView, c: ChangeView) -> (DocumentView, Result<
    int,
    DocumentError,
>) {
    match d.version {
        Some(v) if c.version <= v => (d, Err(DocumentError::StaleVersion(c.version as i32, v as i32))),
        Some(v) if c.version > v + 1 => if has_pending_version(d.pending, c.version) {
            (d, Err(DocumentError::DuplicateVersion(c.version as i32)))
        } else {
            (DocumentView { pending: d.pending.push(c), ..d }, Ok(v))
        },
        _ => match apply_edits(d.contents, c.edits) {
            None => (d, Err(DocumentError::InvalidEdit)),
            Some(t) => {
                let e = drain(DocumentView { contents: t, version: Some(c.version), ..d });
                (e, Ok(e.version.unwrap()))
            },
        },
    }
}

fn apply_one(text: &String, e: &TextEdit) -> (r: Option<String>)
    ensures
        match r {
            Some(t) => apply_edit(text@, e@) == Some(t@),
            None => apply_edit(text@, e@) is None,
        },
{
    match e.range {
        None => Some(e.text.clone()),
        Some((a, b)) => {
            let x = match position_offset(text.as_str(), a) {
                Some(x) => x,
                None => return None,
            };
            let y = match position_offset(text.as_str(), b) {
                Some(y) => y,
                None => return None,
            };
            let n = text.as_str().unicode_len();
            if x <= y {
                let mut r = String::from_str(text.as_str().substring_char(0, x));
                r.append(e.text.as_str());
                r.append(text.as_str().substring_char(y, n));
                Some(r)
            } else {
                None
            }
        },
    }
}

fn apply_all(text: &String, edits: &Vec<TextEdit>) -> (r: Option<String>)
    ensures
        match r {
            Some(t) => apply_edits(text@, Seq::new(edits@.len(), |i: int| edits@[i]@)) == Some(
                t@,
            ),
            None => apply_edits(text@, Seq::new(edits@.len(), |i: int| edits@[i]@)) is None,
        },
{
    let ghost ev = Seq::new(edits@.len(), |i: int| edits@[i]@);
    let mut cur = text.clone();
    let mut i: usize = 0;
    while i < edits.len()
        invariant
            i <= edits@.len(),
            ev == Seq::new(edits@.len(), |i: int| edits@[i]@),
            apply_edits(text@, ev.take(i as int)) == Some(cur@),
        decreases edits@.len() - i,
    {
        assert(ev.take(i + 1).drop_last() =~= ev.take(i as int));
        match apply_one(&cur, &edits[i]) {
            Some(t) => {
                cur = t;
            },
            None => {
                proof {
                    lemma_edits_fail(text@, ev, i as int + 1);
                }
                return None;
            },
        }
        i = i + 1;
    }
    assert(ev.take(i as int) =~= ev);
    Some(cur)
}

/// Once an edit fails, every longer list of edits fails too.
proof fn lemma_edits_fail(s: Seq<char>, ev: Seq<EditView>, k: int)
    requires
        0 < k <= ev.len(),
        apply_edits(s, ev.take(k)) is None,
    ensures
        apply_edits(s, ev) is None,
    decreases ev.len() - k,
{
    if k < ev.len() {
        assert(ev.take(k + 1).drop_last() =~= ev.take(k));
        lemma_edits_fail(s, ev, k + 1);
    } else {
        assert(ev.take(k) =~= ev);
    }
}

impl Document {
    /// A document with this text and version, and no waiting change.
    pub fn new(contents: &str, version: Option<i32>) -> (r: Document)
        ensures
            r.wf(),
            r@.contents == contents@,
            r@.version == match version {
                Some(v) => Some(v as int),
                None => None::<int>,
            },
            r@.pending.len() == 0,
    {
        Document { contents: String::from_str(contents), version, pending: Vec::new() }
    }

    pub open spec fn wf(&self) -> bool {
        document_wf(self@)
    }

    /// The current text.
    pub fn contents(&self) -> (r: &String)
        ensures
            r@ == self@.contents,
    {
        &self.contents
    }

    /// The current version.
    pub fn version(&self) -> (r: Option<i32>)
        ensures
            match r {
                Some(v) => self@.version == Some(v as int),
                None => self@.version is None,
            },
    {
        self.version
    }

    fn find_pending(&self, version: i32) -> (r: Option<usize>)
        ensures
            match r {
                Some(i) => i < self@.pending.len() && self@.pending[i as int].version == version,
                None => !has_pending_version(self@.pending, version as int),
            },
    {
        let mut i: usize = 0;
        while i < self.pending.len()
            invariant
                i <= self.pending@.len(),
                forall|j: int| 0 <= j < i ==> self@.pending[j].version != version,
            decreases self.pending@.len() - i,
        {
            if self.pending[i].version == version {
                return Some(i);
            }
            i = i + 1;
        }
        None
    }

    /// Applies a `didChange` notification. Returns the version of the
    /// document afterwards.
    pub fn on_did_change(&mut self, change: DocumentChange) -> (r: Result<i32, DocumentError>)
        requires
            old(self).wf(),
        ensures
            final(self).wf(),
            final(self)@ == did_change(old(self)@, change@).0,
            match r {
                Ok(v) => did_change(old(self)@, change@).1 == Ok::<int, DocumentError>(v as int),
                Err(e) => did_change(old(self)@, change@).1 == Err::<int, DocumentError>(e),
            },
    {
        let ghost d = self@;
        let ghost c = change@;
        if let Some(v) = self.version {
            if change.version <= v {
                return Err(DocumentError::StaleVersion(change.version, v));
            }
            if change.version > v + 1 {
                if self.find_pending(change.version).is_some() {
                    return Err(DocumentError::DuplicateVersion(change.version));
                }
                self.pending.push(change);
                assert(self@.pending =~= d.pending.push(c));
                return Ok(v);
            }
        }
        let t = match apply_all(&self.contents, &change.edits) {
            Some(t) => t,
            None => return Err(DocumentError::InvalidEdit),
        };
        self.contents = t;
        self.version = Some(change.version);
        let ghost start = self@;
        assert(start == DocumentView { contents: start.contents, version: Some(c.version), ..d });
        loop
            invariant
                self.version is Some,
                drain(self@) == drain(start),
                forall|i: int, j: int|
                    0 <= i < self@.pending.len() && 0 <= j < self@.pending.len() && i != j
                        ==> self@.pending[i].version != self@.pending[j].version,
                forall|i: int|
                    0 <= i < self@.pending.len() ==> #[trigger] self@.pending[i].version
                        > self@.version.unwrap(),
            ensures
                self@ == drain(start),
                document_wf(self@),
            decreases self@.pending.len(),
        {
            let v = match self.version {
                Some(v) => v,
                None => break,
            };
            if v == i32::MAX {
                assert(!has_pending_version(self@.pending, v + 1));
                break;
            }
            let i = match self.find_pending(v + 1) {
                Some(i) => i,
                None => {
                    break;
                },
            };
            let ghost before = self@;
            let next = self.pending.remove(i);
            assert(self@.pending =~= before.pending.remove(i as int));
            assert(pending_version_index(before.pending, v + 1) == i as int) by {
                let k = pending_version_index(before.pending, v + 1);
                assert(before.pending[k].version == v + 1);
            }
            match apply_all(&self.contents, &next.edits) {
                Some(t) => {
                    self.contents = t;
                    self.version = Some(v + 1);
                },
                None => {
                    assert forall|k: int| 0 <= k < self@.pending.len() implies #[trigger] self@.pending[k].version
                        > v + 1 by {
                        let a = if k < i { k } else { k + 1 };
                        assert(self@.pending[k] == before.pending[a]);
                        assert(a != i as int);
                    }
                    break;
                },
            }
        }
        Ok(self.version.unwrap())
    }
}

proof fn lemma_drain_version(d: DocumentView)
    requires
        d.version is Some,
    ensures
        drain(d).version is Some,
        drain(d).version.unwrap() >= d.version.unwrap(),
    decreases d.pending.len(),
{
    let v = d.version.unwrap();
    if has_pending_version(d.pending, v + 1) {
        let i = pending_version_index(d.pending, v + 1);
        let rest = d.pending.remove(i);
        if let Some(t) = apply_edits(d.contents, d.pending[i].edits) {
            lemma_drain_version(DocumentView { contents: t, version: Some(v + 1), pending: rest });
        }
    }
}

/// The version of a document never decreases through `didChange`. A change
/// that comes next in order (it follows the current version, or the document
/// has none), whose edits apply, and whose successor is not already waiting,
/// leaves the document at exactly the change's version, which is returned.
pub proof fn lemma_version_monotonic(d: DocumentView, c: ChangeView)
    requires
        document_wf(d),
    ensures
        d.version is Some ==> did_change(d, c).0.version is Some
            && did_change(d, c).0.version.unwrap() >= d.version.unwrap(),
        (d.version is None || c.version == d.version.unwrap() + 1) && apply_edits(
            d.contents,
            c.edits,
        ) is Some && !has_pending_version(d.pending, c.version + 1) ==> did_change(d, c).0.version
            == Some(c.version) && did_change(d, c).1 == Ok::<int, DocumentError>(c.version),
{
    if let Some(t) = apply_edits(d.contents, c.edits) {
        let e = DocumentView { contents: t, version: Some(c.version), ..d };
        lemma_drain_version(e);
    }
}

/// Whether to refresh diagnostics after a change: only when the document now
/// stands at the change's own version, that is when no change waits before it.
pub fn should_refresh_diagnostics(arriving: i32, result: &Result<i32, DocumentError>) -> (r: bool)
    ensures
        r == (*result == Ok::<i32, DocumentError>(arriving)),
{
    match result {
        Ok(v) => *v == arriving,
        Err(_) => false,
    }
}

} // verus!

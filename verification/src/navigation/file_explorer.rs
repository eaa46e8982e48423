//! The decisions of the terminal file explorer: which entries it lists and in
//! what order, which part of the list is on screen, how it answers each key,
//! and the lines it draws.

use vstd::prelude::*;

use crate::path::{parent_of, same_path, std_path_parent, std_paths_equal};
use crate::text::{chars_of, string_from_chars};

verus! {

/// The visible part of the entry list.
pub struct ExplorerViewport {
    pub rows: u16,
    pub columns: u16,
    pub selected: usize,
    pub scroll_offset: usize,
}

/// Number of entry rows on a screen with `rows` rows: one row shows the
/// current path and one the key hints.
pub open spec fn visible_rows(rows: u16) -> int {
    if rows >= 2 {
        rows - 2
    } else {
        0
    }
}

/// `a + b`, saturating at `usize::MAX`.
pub open spec fn sat_add(a: int, b: int) -> int {
    if a + b > usize::MAX {
        usize::MAX as int
    } else {
        a + b
    }
}

/// Where the list is scrolled to after keeping `selected` on screen.
pub open spec fn kept_offset(selected: int, offset: int, visible: int) -> int {
    if visible == 0 || selected < offset {
        selected
    } else if selected >= sat_add(offset, visible) {
        if sat_add(selected, 1) >= visible {
            sat_add(selected, 1) - visible
        } else {
            0
        }
    } else {
        offset
    }
}

/// Whether the selected entry is among the visible rows.
pub open spec fn selection_visible(v: ExplorerViewport) -> bool {
    visible_rows(v.rows) > 0 ==> v.scroll_offset <= v.selected < v.scroll_offset + visible_rows(v.rows)
}

impl ExplorerViewport {
    /// A viewport for a screen of `columns` by `rows`, with the first entry
    /// selected.
    pub fn new(columns: u16, rows: u16) -> (r: Self)
        ensures
            r.rows == rows,
            r.columns == columns,
            r.selected == 0,
            r.scroll_offset == 0,
    {
        Self { rows, columns, selected: 0, scroll_offset: 0 }
    }

    /// Number of entry rows on screen.
    pub fn visible_entry_count(&self) -> (r: usize)
        ensures
            r == visible_rows(self.rows),
    {
        self.rows.saturating_sub(2) as usize
    }

    /// Scrolls as little as needed for the selected entry to be on screen.
    pub fn keep_selection_visible(&mut self)
        ensures
            final(self).rows == old(self).rows,
            final(self).columns == old(self).columns,
            final(self).selected == old(self).selected,
            final(self).scroll_offset == kept_offset(
                old(self).selected as int,
                old(self).scroll_offset as int,
                visible_rows(old(self).rows),
            ),
            old(self).selected < usize::MAX ==> selection_visible(*final(self)),
    {
        let visible = self.visible_entry_count();
        if visible == 0 || self.selected < self.scroll_offset {
            self.scroll_offset = self.selected;
        } else if self.selected >= self.scroll_offset.saturating_add(visible) {
            self.scroll_offset = self.selected.saturating_add(1).saturating_sub(visible);
        }
    }

    /// Selects the first entry and scrolls to the top.
    pub fn reset_selection(&mut self)
        ensures
            final(self).rows == old(self).rows,
            final(self).columns == old(self).columns,
            final(self).selected == 0,
            final(self).scroll_offset == 0,
    {
        self.selected = 0;
        self.scroll_offset = 0;
    }
}

/// The first `width` characters of `text`.
pub open spec fn clipped_spec(text: Seq<char>, width: int) -> Seq<char> {
    if width < text.len() {
        text.take(width)
    } else {
        text
    }
}

/// At most `width` characters of `text`, never splitting a character.
pub fn clipped(text: &str, width: usize) -> (r: String)
    ensures
        r@ == clipped_spec(text@, width as int),
{
    let chars = chars_of(text);
    let n = if width < chars.len() {
        width
    } else {
        chars.len()
    };
    let mut kept: Vec<char> = Vec::new();
    let mut i: usize = 0;
    while i < n
        invariant
            n <= chars@.len(),
            i <= n,
            kept@ == chars@.take(i as int),
        decreases n - i,
    {
        kept.push(chars[i]);
        i = i + 1;
        assert(kept@ == chars@.take(i as int));
    }
    assert(chars@.take(chars@.len() as int) == chars@);
    string_from_chars(kept.as_slice())
}

/// Byte-wise lexicographic order, as `OsStr` compares names.
pub open spec fn bytes_le(a: Seq<u8>, b: Seq<u8>) -> bool
    decreases a.len(),
{
    if a.len() == 0 {
        true
    } else if b.len() == 0 {
        false
    } else if a[0] < b[0] {
        true
    } else if a[0] > b[0] {
        false
    } else {
        bytes_le(a.drop_first(), b.drop_first())
    }
}

proof fn lemma_bytes_le_total(a: Seq<u8>, b: Seq<u8>)
    ensures
        bytes_le(a, b) || bytes_le(b, a),
    decreases a.len(),
{
    if a.len() > 0 && b.len() > 0 && a[0] == b[0] {
        lemma_bytes_le_total(a.drop_first(), b.drop_first());
    }
}

proof fn lemma_bytes_le_trans(a: Seq<u8>, b: Seq<u8>, c: Seq<u8>)
    requires
        bytes_le(a, b),
        bytes_le(b, c),
    ensures
        bytes_le(a, c),
    decreases a.len(),
{
    if a.len() > 0 && b.len() > 0 && c.len() > 0 && a[0] == b[0] && b[0] == c[0] {
        lemma_bytes_le_trans(a.drop_first(), b.drop_first(), c.drop_first());
    }
}

/// Names are ordered lexicographically byte by byte: `a` comes no later
/// than `b` exactly when `a` is a prefix of `b`, or when at the first
/// position where they differ the byte of `a` is the smaller.
pub proof fn lemma_bytes_le_lexicographic(a: Seq<u8>, b: Seq<u8>)
    ensures
        bytes_le(a, b) <==> ((a.len() <= b.len() && a == b.subrange(0, a.len() as int)) || exists|
            k: int,
        |
            0 <= k < a.len() && k < b.len() && a.subrange(0, k) == b.subrange(0, k) && #[trigger] a[k]
                < b[k]),
    decreases a.len(),
{
    if a.len() == 0 {
        assert(a == b.subrange(0, 0));
    } else if b.len() == 0 {
    } else if a[0] < b[0] {
        assert(a.subrange(0, 0) == b.subrange(0, 0));
    } else if a[0] > b[0] {
        if a.len() <= b.len() && a == b.subrange(0, a.len() as int) {
            assert(a[0] == b.subrange(0, a.len() as int)[0]);
        }
        if exists|k: int|
            0 <= k < a.len() && k < b.len() && a.subrange(0, k) == b.subrange(0, k) && #[trigger] a[k]
                < b[k] {
            let k = choose|k: int|
                0 <= k < a.len() && k < b.len() && a.subrange(0, k) == b.subrange(0, k) && #[trigger] a[k]
                    < b[k];
            if k > 0 {
                assert(a.subrange(0, k)[0] == b.subrange(0, k)[0]);
            }
        }
    } else {
        let a1 = a.drop_first();
        let b1 = b.drop_first();
        lemma_bytes_le_lexicographic(a1, b1);
        if a1.len() <= b1.len() && a1 == b1.subrange(0, a1.len() as int) {
            assert(a =~= b.subrange(0, a.len() as int)) by {
                assert forall|i: int| 0 <= i < a.len() implies a[i] == b.subrange(
                    0,
                    a.len() as int,
                )[i] by {
                    if i > 0 {
                        assert(a[i] == a1[i - 1]);
                        assert(a1[i - 1] == b1.subrange(0, a1.len() as int)[i - 1]);
                    }
                }
            }
        }
        if a.len() <= b.len() && a == b.subrange(0, a.len() as int) {
            assert(a1 =~= b1.subrange(0, a1.len() as int));
        }
        if exists|k: int|
            0 <= k < a1.len() && k < b1.len() && a1.subrange(0, k) == b1.subrange(0, k) && #[trigger] a1[k]
                < b1[k] {
            let k = choose|k: int|
                0 <= k < a1.len() && k < b1.len() && a1.subrange(0, k) == b1.subrange(0, k)
                    && #[trigger] a1[k] < b1[k];
            assert(a.subrange(0, k + 1) =~= b.subrange(0, k + 1)) by {
                assert forall|i: int| 0 <= i < k + 1 implies a[i] == b[i] by {
                    if i > 0 {
                        assert(a1.subrange(0, k)[i - 1] == b1.subrange(0, k)[i - 1]);
                    }
                }
            }
            assert(a[k + 1] < b[k + 1]);
        }
        if exists|k: int|
            0 <= k < a.len() && k < b.len() && a.subrange(0, k) == b.subrange(0, k) && #[trigger] a[k]
                < b[k] {
            let k = choose|k: int|
                0 <= k < a.len() && k < b.len() && a.subrange(0, k) == b.subrange(0, k) && #[trigger] a[k]
                    < b[k];
            assert(k > 0);
            assert(a1.subrange(0, k - 1) =~= b1.subrange(0, k - 1)) by {
                assert forall|i: int| 0 <= i < k - 1 implies a1[i] == b1[i] by {
                    assert(a.subrange(0, k)[i + 1] == b.subrange(0, k)[i + 1]);
                }
            }
            assert(a1[k - 1] < b1[k - 1]);
        }
    }
}

/// Two byte strings that each come no later than the other are equal.
pub proof fn lemma_bytes_le_antisymmetric(a: Seq<u8>, b: Seq<u8>)
    requires
        bytes_le(a, b),
        bytes_le(b, a),
    ensures
        a == b,
    decreases a.len(),
{
    if a.len() > 0 && b.len() > 0 {
        assert(a[0] == b[0]);
        assert(bytes_le(a.drop_first(), b.drop_first()));
        assert(bytes_le(b.drop_first(), a.drop_first()));
        lemma_bytes_le_antisymmetric(a.drop_first(), b.drop_first());
        assert(a.len() == b.len());
        assert(a =~= b) by {
            assert forall|i: int| 0 <= i < a.len() implies a[i] == b[i] by {
                if i > 0 {
                    assert(a.drop_first()[i - 1] == b.drop_first()[i - 1]);
                }
            }
        }
    } else {
        assert(a =~= b);
    }
}

/// An entry of a directory listing.
pub struct ExplorerEntry {
    /// The entry's full path.
    pub path: String,
    /// The entry's file name.
    pub name: String,
    /// Whether it is a directory.
    pub is_dir: bool,
    /// Whether it is a regular file.
    pub is_file: bool,
}

/// Whether `a` may be listed before `b`: directories first, then by name.
pub open spec fn entry_le(a: ExplorerEntry, b: ExplorerEntry) -> bool {
    (a.is_dir && !b.is_dir) || (a.is_dir == b.is_dir && bytes_le(
        vstd::utf8::encode_utf8(a.name@),
        vstd::utf8::encode_utf8(b.name@),
    ))
}

/// Whether a listing is in explorer order.
pub open spec fn entries_sorted(s: Seq<ExplorerEntry>) -> bool {
    forall|i: int, j: int| 0 <= i < j < s.len() ==> entry_le(#[trigger] s[i], #[trigger] s[j])
}

/// Whether the explorer lists an entry at all: files and directories only.
pub open spec fn is_listed(e: ExplorerEntry) -> bool {
    e.is_file || e.is_dir
}

/// Entries take the same place in explorer order only when they are of the
/// same kind and have the same name: distinct names never tie.
pub proof fn lemma_same_rank_same_name(a: ExplorerEntry, b: ExplorerEntry)
    requires
        same_rank(a, b),
    ensures
        a.is_dir == b.is_dir,
        a.name@ == b.name@,
{
    broadcast use vstd::utf8::encode_utf8_decode_utf8;

    lemma_bytes_le_antisymmetric(
        vstd::utf8::encode_utf8(a.name@),
        vstd::utf8::encode_utf8(b.name@),
    );
    assert(vstd::utf8::decode_utf8(vstd::utf8::encode_utf8(a.name@)) == a.name@);
    assert(vstd::utf8::decode_utf8(vstd::utf8::encode_utf8(b.name@)) == b.name@);
}

proof fn lemma_entry_le_total(a: ExplorerEntry, b: ExplorerEntry)
    ensures
        entry_le(a, b) || entry_le(b, a),
{
    lemma_bytes_le_total(vstd::utf8::encode_utf8(a.name@), vstd::utf8::encode_utf8(b.name@));
}

proof fn lemma_entry_le_trans(a: ExplorerEntry, b: ExplorerEntry, c: ExplorerEntry)
    requires
        entry_le(a, b),
        entry_le(b, c),
    ensures
        entry_le(a, c),
{
    if a.is_dir == b.is_dir && b.is_dir == c.is_dir {
        lemma_bytes_le_trans(
            vstd::utf8::encode_utf8(a.name@),
            vstd::utf8::encode_utf8(b.name@),
            vstd::utf8::encode_utf8(c.name@),
        );
    }
}

fn bytes_le_exec(a: &[u8], b: &[u8]) -> (r: bool)
    ensures
        r == bytes_le(a@, b@),
{
    let mut i: usize = 0;
    assert(a@.skip(0) == a@);
    assert(b@.skip(0) == b@);
    while i < a.len() && i < b.len() && a[i] == b[i]
        invariant
            i <= a@.len(),
            i <= b@.len(),
            a@.len() == a.len(),
            b@.len() == b.len(),
            bytes_le(a@, b@) == bytes_le(a@.skip(i as int), b@.skip(i as int)),
        decreases a.len() - i,
    {
        assert(a@.skip(i as int).drop_first() == a@.skip(i + 1));
        assert(b@.skip(i as int).drop_first() == b@.skip(i + 1));
        i = i + 1;
    }
    if i == a.len() {
        true
    } else if i == b.len() {
        false
    } else {
        a[i] < b[i]
    }
}

/// Whether `a` may be listed before `b`.
fn entry_le_exec(a: &ExplorerEntry, b: &ExplorerEntry) -> (r: bool)
    ensures
        r == entry_le(*a, *b),
{
    if a.is_dir != b.is_dir {
        a.is_dir
    } else {
        bytes_le_exec(a.name.as_str().as_bytes(), b.name.as_str().as_bytes())
    }
}

/// Whether `a` and `b` take the same place in explorer order: both
/// directories or both not, with the same name.
pub open spec fn same_rank(a: ExplorerEntry, b: ExplorerEntry) -> bool {
    entry_le(a, b) && entry_le(b, a)
}

/// The entries of `s` that take the same place in explorer order as `e`, in
/// the order in which `s` holds them.
pub open spec fn rank_class(s: Seq<ExplorerEntry>, e: ExplorerEntry) -> Seq<ExplorerEntry> {
    s.filter(|x: ExplorerEntry| same_rank(x, e))
}

/// Putting `x` into `s` at `i`, where everything from `i` on ranks strictly
/// after `x`, appends `x` to the class of entries that rank with it and
/// leaves every other class as it was.
proof fn lemma_rank_class_insert(s: Seq<ExplorerEntry>, i: int, x: ExplorerEntry, e: ExplorerEntry)
    requires
        0 <= i <= s.len(),
        entries_sorted(s),
        i < s.len() ==> !entry_le(s[i], x),
    ensures
        rank_class(s.insert(i, x), e) == if same_rank(x, e) {
            rank_class(s, e).push(x)
        } else {
            rank_class(s, e)
        },
{
    broadcast use Seq::filter_distributes_over_add;

    let pred = |y: ExplorerEntry| same_rank(y, e);
    let front = s.subrange(0, i);
    let back = s.subrange(i, s.len() as int);
    assert(s == front + back);
    assert(s.insert(i, x) == front + seq![x] + back);
    Seq::<ExplorerEntry>::empty().lemma_filter_push(x, pred);
    assert(seq![x] == Seq::<ExplorerEntry>::empty().push(x));
    assert(Seq::<ExplorerEntry>::empty().filter(pred) =~= Seq::<ExplorerEntry>::empty()) by {
        reveal(Seq::filter);
    }
    if same_rank(x, e) {
        assert forall|j: int| 0 <= j < back.len() implies !pred(#[trigger] back[j]) by {
            if same_rank(back[j], e) {
                lemma_entry_le_trans(back[j], e, x);
                if j > 0 {
                    assert(entry_le(s[i], s[i + j]));
                    lemma_entry_le_trans(s[i], back[j], x);
                }
            }
        }
        back.lemma_all_neg_filter_empty(pred);
        assert(back.filter(pred) =~= Seq::<ExplorerEntry>::empty());
        assert(rank_class(s, e) == front.filter(pred) + back.filter(pred));
        assert((front + seq![x]).filter(pred) == front.filter(pred) + seq![x]);
        assert(front.filter(pred) + seq![x] == front.filter(pred).push(x));
    } else {
        assert((front + seq![x]).filter(pred) =~= front.filter(pred) + Seq::<ExplorerEntry>::empty());
    }
}

/// The listing as the explorer shows it: files and directories only,
/// directories first, then by name; entries that compare equal keep their
/// order.
pub fn order_entries(entries: Vec<ExplorerEntry>) -> (r: Vec<ExplorerEntry>)
    ensures
        entries_sorted(r@),
        r@.to_multiset() == entries@.filter(|e: ExplorerEntry| is_listed(e)).to_multiset(),
        forall|e: ExplorerEntry|
            #[trigger] rank_class(r@, e) == rank_class(
                entries@.filter(|e: ExplorerEntry| is_listed(e)),
                e,
            ),
{
    let ghost orig = entries@;
    let ghost listed = |e: ExplorerEntry| is_listed(e);
    assert(orig.len() == entries.len());
    let mut rest = entries;
    let mut out: Vec<ExplorerEntry> = Vec::new();
    let mut k: usize = 0;
    assert(orig.subrange(0, 0).filter(listed) =~= Seq::<ExplorerEntry>::empty());
    while rest.len() > 0
        invariant
            k + rest@.len() == orig.len(),
            orig.len() <= usize::MAX,
            rest@ == orig.subrange(k as int, orig.len() as int),
            entries_sorted(out@),
            out@.to_multiset() == orig.subrange(0, k as int).filter(listed).to_multiset(),
            forall|e: ExplorerEntry|
                #[trigger] rank_class(out@, e) == rank_class(
                    orig.subrange(0, k as int).filter(listed),
                    e,
                ),
            listed == (|e: ExplorerEntry| is_listed(e)),
        decreases rest@.len(),
    {
        let x = rest.remove(0);
        assert(orig.subrange(0, k + 1) == orig.subrange(0, k as int).push(x));
        proof {
            orig.subrange(0, k as int).lemma_filter_push(x, listed);
        }
        if x.is_file || x.is_dir {
            let mut i: usize = 0;
            #[verifier::loop_isolation(false)]
            while i < out.len() && entry_le_exec(&out[i], &x)
                invariant
                    i <= out@.len(),
                    forall|j: int| 0 <= j < i ==> entry_le(#[trigger] out@[j], x),
                decreases out@.len() - i,
            {
                i = i + 1;
            }
            let ghost before = out@;
            proof {
                if i < before.len() {
                    lemma_entry_le_total(before[i as int], x);
                }
                assert forall|j: int| i <= j < before.len() implies entry_le(x, #[trigger] before[j]) by {
                    if j > i {
                        lemma_entry_le_trans(x, before[i as int], before[j]);
                    }
                }
            }
            out.insert(i, x);
            proof {
                let prev = orig.subrange(0, k as int).filter(listed);
                assert forall|e: ExplorerEntry| #[trigger]
                    rank_class(out@, e) == rank_class(prev.push(x), e) by {
                    lemma_rank_class_insert(before, i as int, x, e);
                    prev.lemma_filter_push(x, |y: ExplorerEntry| same_rank(y, e));
                }
                vstd::seq_lib::to_multiset_insert(before, i as int, x);
                vstd::seq_lib::to_multiset_build(prev, x);
                assert(orig.subrange(0, k + 1).filter(listed) == prev.push(x));
                assert forall|a: int, b: int| 0 <= a < b < out@.len() implies entry_le(
                    #[trigger] out@[a],
                    #[trigger] out@[b],
                ) by {
                    if a < i && b > i {
                        assert(out@[a] == before[a]);
                        assert(out@[b] == before[b - 1]);
                    } else if a < i && b == i {
                    } else if a == i {
                        assert(out@[b] == before[b - 1]);
                    } else if a < i {
                        assert(out@[a] == before[a]);
                        assert(out@[b] == before[b]);
                    } else {
                        assert(out@[a] == before[a - 1]);
                        assert(out@[b] == before[b - 1]);
                    }
                }
            }
        }
        k = k + 1;
    }
    assert(orig.subrange(0, orig.len() as int) == orig);
    out
}

/// The listing that the explorer offers: everything when it may navigate,
/// files only otherwise.
pub fn explorer_entries(entries: Vec<ExplorerEntry>, allow_navigation: bool) -> (r: Vec<
    ExplorerEntry,
>)
    ensures
        allow_navigation ==> r@ == entries@,
        !allow_navigation ==> r@ == entries@.filter(|e: ExplorerEntry| e.is_file),
{
    if allow_navigation {
        return entries;
    }
    let ghost orig = entries@;
    let ghost files = |e: ExplorerEntry| e.is_file;
    assert(orig.len() == entries.len());
    let mut rest = entries;
    let mut out: Vec<ExplorerEntry> = Vec::new();
    let mut k: usize = 0;
    assert(orig.subrange(0, 0).filter(files) =~= Seq::<ExplorerEntry>::empty());
    while rest.len() > 0
        invariant
            k + rest@.len() == orig.len(),
            orig.len() <= usize::MAX,
            rest@ == orig.subrange(k as int, orig.len() as int),
            out@ == orig.subrange(0, k as int).filter(files),
            files == (|e: ExplorerEntry| e.is_file),
        decreases rest@.len(),
    {
        let x = rest.remove(0);
        assert(orig.subrange(0, k + 1) == orig.subrange(0, k as int).push(x));
        proof {
            orig.subrange(0, k as int).lemma_filter_push(x, files);
        }
        if x.is_file {
            out.push(x);
        }
        k = k + 1;
    }
    assert(orig.subrange(0, orig.len() as int) == orig);
    out
}

/// A key as the explorer sees it.
pub enum KeyInput {
    Up,
    Down,
    Right,
    Left,
    Enter,
    Esc,
    Char(char),
    Other,
}

/// A terminal event.
pub enum ExplorerEvent {
    /// The terminal now has this many columns and rows.
    Resize(u16, u16),
    /// A key was pressed (`false`) or released (`true`).
    Key(KeyInput, bool),
    /// Any other event.
    Other,
}

/// What the explorer asks for after an event.
pub enum ExplorerAction {
    /// Draw the screen again.
    Redraw,
    /// List this directory and enter it.
    OpenDirectory(String),
    /// List this parent directory and go up to it.
    OpenParent(String),
    /// The user chose this file.
    Choose(String),
    /// The user left without choosing.
    Quit,
}

/// The state of the explorer.
pub struct Explorer {
    pub current_directory: String,
    pub entries: Vec<ExplorerEntry>,
    pub viewport: ExplorerViewport,
    pub allow_navigation: bool,
}

/// The explorer's invariant: the selection is an entry (or the first row of
/// an empty listing) and it is on screen.
pub open spec fn explorer_ok(e: Explorer) -> bool {
    &&& (e.viewport.selected == 0 || e.viewport.selected < e.entries@.len())
    &&& selection_visible(e.viewport)
}

/// The viewport after selecting `selected` and scrolling to keep it on
/// screen.
pub open spec fn moved_to(v: ExplorerViewport, selected: usize) -> ExplorerViewport {
    ExplorerViewport {
        selected,
        scroll_offset: kept_offset(selected as int, v.scroll_offset as int, visible_rows(v.rows)) as usize,
        ..v
    }
}

/// The action an event asks for in a state.
pub open spec fn action_for(e: Explorer, event: ExplorerEvent) -> ExplorerAction {
    let sel = e.viewport.selected as int;
    match event {
        ExplorerEvent::Key(KeyInput::Right, false) if e.allow_navigation => if sel < e.entries@.len()
            && e.entries@[sel].is_dir {
            ExplorerAction::OpenDirectory(e.entries@[sel].path)
        } else {
            ExplorerAction::Redraw
        },
        ExplorerEvent::Key(KeyInput::Enter, false) => if sel < e.entries@.len()
            && e.entries@[sel].is_file {
            ExplorerAction::Choose(e.entries@[sel].path)
        } else {
            ExplorerAction::Redraw
        },
        ExplorerEvent::Key(KeyInput::Esc, false) => ExplorerAction::Quit,
        ExplorerEvent::Key(KeyInput::Char(c), false) if c == 'q' => ExplorerAction::Quit,
        _ => ExplorerAction::Redraw,
    }
}

/// The right arrow opens the selected entry only when navigation is
/// allowed and that entry is a directory; otherwise it only redraws.
pub proof fn lemma_right_key_opens_only_directories(e: Explorer)
    ensures
        action_for(e, ExplorerEvent::Key(KeyInput::Right, false)) == (if e.allow_navigation
            && e.viewport.selected < e.entries@.len() && e.entries@[e.viewport.selected as int].is_dir {
            ExplorerAction::OpenDirectory(e.entries@[e.viewport.selected as int].path)
        } else {
            ExplorerAction::Redraw
        }),
{
}

/// A file is chosen only by pressing Enter on a selected file, and what is
/// chosen is that file's path.
pub proof fn lemma_only_enter_chooses_a_file(e: Explorer, event: ExplorerEvent)
    ensures
        action_for(e, event) matches ExplorerAction::Choose(p) ==> {
            &&& event matches ExplorerEvent::Key(KeyInput::Enter, false)
            &&& e.viewport.selected < e.entries@.len()
            &&& e.entries@[e.viewport.selected as int].is_file
            &&& p == e.entries@[e.viewport.selected as int].path
        },
{
}

impl Explorer {
    /// An explorer on `current_directory` listing `entries` on a screen of
    /// `columns` by `rows`, with the first entry selected.
    pub fn new(
        current_directory: String,
        entries: Vec<ExplorerEntry>,
        columns: u16,
        rows: u16,
        allow_navigation: bool,
    ) -> (r: Self)
        ensures
            r.current_directory == current_directory,
            r.entries == entries,
            r.viewport == ExplorerViewport::new_spec(columns, rows),
            r.allow_navigation == allow_navigation,
            explorer_ok(r),
    {
        Explorer {
            current_directory,
            entries,
            viewport: ExplorerViewport::new(columns, rows),
            allow_navigation,
        }
    }

    /// Answers one event: moves the selection, follows a resize, or asks for
    /// a directory to be listed, a file to be chosen or the explorer to
    /// close.
    pub fn handle(&mut self, event: ExplorerEvent) -> (r: ExplorerAction)
        ensures
            explorer_ok(*old(self)) ==> explorer_ok(*final(self)),
            final(self).entries == old(self).entries,
            final(self).current_directory == old(self).current_directory,
            final(self).allow_navigation == old(self).allow_navigation,
            match event {
                ExplorerEvent::Resize(c, rw) => r is Redraw && final(self).viewport.columns == c
                    && final(self).viewport.rows == rw && final(self).viewport.selected
                    == old(self).viewport.selected && final(self).viewport.scroll_offset
                    == kept_offset(
                    old(self).viewport.selected as int,
                    old(self).viewport.scroll_offset as int,
                    visible_rows(rw),
                ),
                ExplorerEvent::Key(KeyInput::Up, false) => r is Redraw && final(self).viewport == (
                if old(self).viewport.selected > 0 {
                    moved_to(old(self).viewport, (old(self).viewport.selected - 1) as usize)
                } else {
                    old(self).viewport
                }),
                ExplorerEvent::Key(KeyInput::Down, false) => r is Redraw && final(self).viewport == (
                if old(self).viewport.selected + 1 < old(self).entries@.len() {
                    moved_to(old(self).viewport, (old(self).viewport.selected + 1) as usize)
                } else {
                    old(self).viewport
                }),
                ExplorerEvent::Key(KeyInput::Left, false) => final(self).viewport
                    == old(self).viewport && if old(self).allow_navigation {
                    match std_path_parent(old(self).current_directory@) {
                        Some(p) => r matches ExplorerAction::OpenParent(q) && q@ == p,
                        None => r is Redraw,
                    }
                } else {
                    r is Redraw
                },
                _ => final(self).viewport == old(self).viewport && r == action_for(*old(self), event),
            },
            event matches ExplorerEvent::Key(KeyInput::Right, false) ==> r == (if old(
                self,
            ).allow_navigation && old(self).viewport.selected < old(self).entries@.len() && old(
                self,
            ).entries@[old(self).viewport.selected as int].is_dir {
                ExplorerAction::OpenDirectory(old(self).entries@[old(self).viewport.selected as int].path)
            } else {
                ExplorerAction::Redraw
            }),
            r matches ExplorerAction::Choose(p) ==> {
                &&& event matches ExplorerEvent::Key(KeyInput::Enter, false)
                &&& old(self).viewport.selected < old(self).entries@.len()
                &&& old(self).entries@[old(self).viewport.selected as int].is_file
                &&& p == old(self).entries@[old(self).viewport.selected as int].path
            },
    {
        let len = self.entries.len();
        match event {
            ExplorerEvent::Resize(columns, rows) => {
                self.viewport.columns = columns;
                self.viewport.rows = rows;
                self.viewport.keep_selection_visible();
                ExplorerAction::Redraw
            },
            ExplorerEvent::Key(code, released) => {
                if released {
                    return ExplorerAction::Redraw;
                }
                match code {
                    KeyInput::Up => {
                        if self.viewport.selected > 0 {
                            self.viewport.selected = self.viewport.selected - 1;
                            self.viewport.keep_selection_visible();
                        }
                        ExplorerAction::Redraw
                    },
                    KeyInput::Down => {
                        if self.viewport.selected < len && self.viewport.selected + 1 < len {
                            self.viewport.selected = self.viewport.selected + 1;
                            self.viewport.keep_selection_visible();
                        }
                        ExplorerAction::Redraw
                    },
                    KeyInput::Right => {
                        let sel = self.viewport.selected;
                        if self.allow_navigation && sel < len && self.entries[sel].is_dir {
                            ExplorerAction::OpenDirectory(self.entries[sel].path.clone())
                        } else {
                            ExplorerAction::Redraw
                        }
                    },
                    KeyInput::Left => {
                        if self.allow_navigation {
                            match parent_of(self.current_directory.as_str()) {
                                Some(p) => ExplorerAction::OpenParent(p),
                                None => ExplorerAction::Redraw,
                            }
                        } else {
                            ExplorerAction::Redraw
                        }
                    },
                    KeyInput::Enter => {
                        let sel = self.viewport.selected;
                        if sel < len && self.entries[sel].is_file {
                            ExplorerAction::Choose(self.entries[sel].path.clone())
                        } else {
                            ExplorerAction::Redraw
                        }
                    },
                    KeyInput::Esc => ExplorerAction::Quit,
                    KeyInput::Char(c) => {
                        if c == 'q' {
                            ExplorerAction::Quit
                        } else {
                            ExplorerAction::Redraw
                        }
                    },
                    KeyInput::Other => ExplorerAction::Redraw,
                }
            },
            ExplorerEvent::Other => ExplorerAction::Redraw,
        }
    }

    /// Enters the directory `path`, now listing `entries`, with the first
    /// entry selected.
    pub fn enter_directory(&mut self, path: String, entries: Vec<ExplorerEntry>)
        ensures
            final(self).current_directory == path,
            final(self).entries == entries,
            final(self).allow_navigation == old(self).allow_navigation,
            final(self).viewport.rows == old(self).viewport.rows,
            final(self).viewport.columns == old(self).viewport.columns,
            final(self).viewport.selected == 0,
            final(self).viewport.scroll_offset == 0,
            explorer_ok(*final(self)),
    {
        self.current_directory = path;
        self.entries = entries;
        self.viewport.reset_selection();
    }

    /// Goes up to `parent`, now listing `entries`, with the directory that
    /// was just left selected when it is listed, and the first entry
    /// otherwise.
    pub fn enter_parent(&mut self, parent: String, entries: Vec<ExplorerEntry>)
        ensures
            final(self).current_directory == parent,
            final(self).entries == entries,
            final(self).allow_navigation == old(self).allow_navigation,
            final(self).viewport.rows == old(self).viewport.rows,
            final(self).viewport.columns == old(self).viewport.columns,
            (exists|i: int|
                0 <= i < entries@.len() && std_paths_equal(
                    entries@[i].path@,
                    old(self).current_directory@,
                )) ==> ({
                let s = final(self).viewport.selected as int;
                &&& s < entries@.len()
                &&& std_paths_equal(entries@[s].path@, old(self).current_directory@)
                &&& forall|j: int|
                    0 <= j < s ==> !std_paths_equal(
                        entries@[j].path@,
                        old(self).current_directory@,
                    )
            }),
            (forall|i: int|
                0 <= i < entries@.len() ==> !std_paths_equal(
                    entries@[i].path@,
                    old(self).current_directory@,
                )) ==> final(self).viewport.selected == 0
                && final(self).viewport.scroll_offset == 0,
            explorer_ok(*final(self)),
    {
        let previous = self.current_directory.clone();
        let found = position_of(&entries, previous.as_str());
        self.current_directory = parent;
        self.entries = entries;
        self.viewport.reset_selection();
        match found {
            Some(i) => {
                self.viewport.selected = i;
                self.viewport.keep_selection_visible();
            },
            None => {},
        }
    }
}

/// The first entry whose path is the same path as `path`, compared
/// component by component.
fn position_of(entries: &Vec<ExplorerEntry>, path: &str) -> (r: Option<usize>)
    ensures
        r matches Some(i) ==> i < entries@.len() && i < usize::MAX && std_paths_equal(entries@[i as int].path@, path@)
            && forall|j: int| 0 <= j < i ==> !std_paths_equal(entries@[j].path@, path@),
        r is None ==> forall|j: int|
            0 <= j < entries@.len() ==> !std_paths_equal(entries@[j].path@, path@),
{
    let n = entries.len();
    let mut i: usize = 0;
    while i < n
        invariant
            n == entries@.len(),
            i <= n,
            forall|j: int| 0 <= j < i ==> !std_paths_equal(entries@[j].path@, path@),
        decreases n - i,
    {
        if same_path(entries[i].path.as_str(), path) {
            return Some(i);
        }
        i = i + 1;
    }
    None
}

impl ExplorerViewport {
    /// The viewport that `new` makes.
    pub open spec fn new_spec(columns: u16, rows: u16) -> ExplorerViewport {
        ExplorerViewport { rows, columns, selected: 0, scroll_offset: 0 }
    }
}

/// One entry row of the screen.
pub struct ScreenLine {
    /// Screen row, counted from the top.
    pub row: u16,
    /// The text shown.
    pub text: String,
    /// Whether it is the selected entry.
    pub selected: bool,
    /// Whether it is a directory.
    pub is_dir: bool,
}

/// What the explorer draws: the current path on the first row, the visible
/// entries below it, and the key hints on the last row.
pub struct Screen {
    pub title: String,
    pub lines: Vec<ScreenLine>,
    pub hint: Option<(u16, String)>,
}

/// The text of an entry row before clipping.
pub open spec fn row_text(entry: ExplorerEntry, selected: bool) -> Seq<char> {
    (if selected {
        seq!['>', ' ']
    } else {
        seq![' ', ' ']
    }) + entry.name@ + (if entry.is_dir {
        seq!['/']
    } else {
        Seq::empty()
    })
}

/// How many entry rows are drawn.
pub open spec fn drawn_rows(e: Explorer) -> int {
    let start = e.viewport.scroll_offset as int;
    let len = e.entries@.len() as int;
    let visible = visible_rows(e.viewport.rows);
    if start >= len {
        0
    } else if len - start < visible {
        len - start
    } else {
        visible
    }
}

/// The rows drawn are exactly the entries from the scroll offset on that fit
/// on the screen: no row is drawn past the last entry or past the visible
/// rows, and the rows stop short of the visible row count only when the
/// listing has run out.
pub proof fn lemma_drawn_rows_cover_the_window(e: Explorer)
    ensures
        0 <= drawn_rows(e) <= visible_rows(e.viewport.rows),
        e.viewport.scroll_offset + drawn_rows(e) <= e.entries@.len() || drawn_rows(e) == 0,
        drawn_rows(e) == visible_rows(e.viewport.rows) || e.viewport.scroll_offset + drawn_rows(e)
            >= e.entries@.len(),
{
}

/// The row of an entry: `"> "` when it is selected and two spaces
/// otherwise, then its name, then a `/` for a directory and nothing for a
/// file.
pub proof fn lemma_row_text_shape(entry: ExplorerEntry, selected: bool)
    ensures
        row_text(entry, selected).len() == entry.name@.len() + 2 + (if entry.is_dir {
            1int
        } else {
            0int
        }),
        row_text(entry, selected)[0] == (if selected {
            '>'
        } else {
            ' '
        }),
        row_text(entry, selected)[1] == ' ',
        row_text(entry, selected).subrange(2, entry.name@.len() + 2int) == entry.name@,
        entry.is_dir ==> row_text(entry, selected).last() == '/',
{
    let t = row_text(entry, selected);
    assert(t.subrange(2, entry.name@.len() + 2int) =~= entry.name@);
}

/// The key hints for a listing.
pub fn hint_text(empty: bool, allow_navigation: bool) -> (r: &'static str)
    ensures
        r@ == hint_text_spec(empty, allow_navigation),
{
    if empty && allow_navigation {
        "Empty directory  \u{2190}: parent  q: quit"
    } else if empty {
        "No stored files  q: quit"
    } else if allow_navigation {
        "\u{2191}/\u{2193}: select  \u{2192}: open  \u{2190}: parent  Enter: choose  q: quit"
    } else {
        "\u{2191}/\u{2193}: select  Enter: choose  q: quit"
    }
}

fn clip_chars(chars: &Vec<char>, width: usize) -> (r: String)
    ensures
        r@ == clipped_spec(chars@, width as int),
{
    let n = if width < chars.len() {
        width
    } else {
        chars.len()
    };
    let mut kept: Vec<char> = Vec::new();
    let mut i: usize = 0;
    while i < n
        invariant
            n <= chars@.len(),
            i <= n,
            kept@ == chars@.take(i as int),
        decreases n - i,
    {
        kept.push(chars[i]);
        i = i + 1;
        assert(kept@ == chars@.take(i as int));
    }
    assert(chars@.take(chars@.len() as int) == chars@);
    string_from_chars(kept.as_slice())
}

fn row_of(entry: &ExplorerEntry, selected: bool, width: usize) -> (r: String)
    ensures
        r@ == clipped_spec(row_text(*entry, selected), width as int),
{
    let mut chars: Vec<char> = Vec::new();
    if selected {
        chars.push('>');
    } else {
        chars.push(' ');
    }
    chars.push(' ');
    let name = chars_of(entry.name.as_str());
    let ghost head = chars@;
    let n = name.len();
    let mut i: usize = 0;
    while i < n
        invariant
            n == name@.len(),
            i <= n,
            chars@ == head + name@.take(i as int),
        decreases n - i,
    {
        chars.push(name[i]);
        i = i + 1;
        assert(chars@ == head + name@.take(i as int));
    }
    assert(name@.take(n as int) == name@);
    if entry.is_dir {
        chars.push('/');
    }
    assert(chars@ == row_text(*entry, selected));
    clip_chars(&chars, width)
}

impl Explorer {
    /// The screen for the current state.
    pub fn screen(&self) -> (r: Screen)
        ensures
            r.title@ == clipped_spec(self.current_directory@, self.viewport.columns as int),
            r.lines@.len() == drawn_rows(*self),
            r.lines@.len() <= visible_rows(self.viewport.rows),
            r.lines@.len() == 0 || self.viewport.scroll_offset + r.lines@.len() <= self.entries@.len(),
            r.lines@.len() == visible_rows(self.viewport.rows) || self.viewport.scroll_offset
                + r.lines@.len() >= self.entries@.len(),
            forall|k: int|
                0 <= k < r.lines@.len() ==> {
                    let index = self.viewport.scroll_offset + k;
                    let line = #[trigger] r.lines@[k];
                    &&& line.row == k + 1
                    &&& line.selected == (index == self.viewport.selected)
                    &&& line.is_dir == self.entries@[index].is_dir
                    &&& line.text@ == clipped_spec(
                        row_text(self.entries@[index], index == self.viewport.selected),
                        self.viewport.columns as int,
                    )
                },
            self.viewport.rows > 1 ==> (r.hint matches Some((row, text)) && row
                == self.viewport.rows - 1 && text@ == clipped_spec(
                hint_text_spec(self.entries@.len() == 0, self.allow_navigation),
                self.viewport.columns as int,
            )),
            self.viewport.rows <= 1 ==> r.hint is None,
    {
        let width = self.viewport.columns as usize;
        let title = clipped(self.current_directory.as_str(), width);
        let visible = self.viewport.visible_entry_count();
        let len = self.entries.len();
        let start = self.viewport.scroll_offset;
        let count: usize = if start >= len {
            0
        } else if len - start < visible {
            len - start
        } else {
            visible
        };
        let mut lines: Vec<ScreenLine> = Vec::new();
        let mut k: usize = 0;
        while k < count
            invariant
                count == drawn_rows(*self),
                start == self.viewport.scroll_offset,
                width == self.viewport.columns as usize,
                len == self.entries@.len(),
                k <= count,
                count <= visible_rows(self.viewport.rows),
                count == 0 || start + count <= len,
                lines@.len() == k,
                forall|j: int|
                    0 <= j < k ==> {
                        let index = self.viewport.scroll_offset + j;
                        let line = #[trigger] lines@[j];
                        &&& line.row == j + 1
                        &&& line.selected == (index == self.viewport.selected)
                        &&& line.is_dir == self.entries@[index].is_dir
                        &&& line.text@ == clipped_spec(
                            row_text(self.entries@[index], index == self.viewport.selected),
                            self.viewport.columns as int,
                        )
                    },
            decreases count - k,
        {
            let index = start + k;
            let entry = &self.entries[index];
            let selected = index == self.viewport.selected;
            let text = row_of(entry, selected, width);
            lines.push(ScreenLine { row: (k + 1) as u16, text, selected, is_dir: entry.is_dir });
            k = k + 1;
        }
        let hint = if self.viewport.rows > 1 {
            let text = clipped(hint_text(len == 0, self.allow_navigation), width);
            Some((self.viewport.rows - 1, text))
        } else {
            None
        };
        Screen { title, lines, hint }
    }
}

/// The key hints for a listing, as characters.
pub open spec fn hint_text_spec(empty: bool, allow_navigation: bool) -> Seq<char> {
    if empty && allow_navigation {
        "Empty directory  \u{2190}: parent  q: quit"@
    } else if empty {
        "No stored files  q: quit"@
    } else if allow_navigation {
        "\u{2191}/\u{2193}: select  \u{2192}: open  \u{2190}: parent  Enter: choose  q: quit"@
    } else {
        "\u{2191}/\u{2193}: select  Enter: choose  q: quit"@
    }
}

/// The vault entry that a choice of the explorer names: the file name of
/// the chosen path, nothing when nothing was chosen, and an error when the
/// chosen path has no file name.
pub fn select_vault_entry(chosen: Option<String>) -> (r: Result<Option<String>, crate::error::ErrorKind>)
    ensures
        chosen is None ==> r == Ok::<Option<String>, crate::error::ErrorKind>(None),
        chosen matches Some(p) ==> match crate::path::path_file_name(p@) {
            Some(n) => r matches Ok(Some(s)) && s@ == n,
            None => r == Err::<Option<String>, crate::error::ErrorKind>(
                crate::error::ErrorKind::InvalidData,
            ),
        },
{
    match chosen {
        None => Ok(None),
        Some(p) => match crate::path::file_name(p.as_str()) {
            Some(n) => Ok(Some(n)),
            None => Err(crate::error::ErrorKind::InvalidData),
        },
    }
}

} // verus!

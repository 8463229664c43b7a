//! Lists with a cursor: a plain selectable list, and a filterable list whose
//! visible part is derived from the typed filter text.
//!
//! The visible part of a filterable list is kept as indices into the
//! authoritative items, in ascending order, so it is an order-preserving
//! subsequence by construction. A cursor, when present, always points at a
//! visible item.

use crate::text::contains;
use crate::text::is_substring;
use crate::text::lemma_substring_trans;
use crate::text::pop_char;
use crate::text::push_char;
use vstd::prelude::*;

verus! {

/// A value with a one-line text, under which lists show and filter it.
pub trait DisplayText {
    /// The text the value is shown under.
    spec fn text(&self) -> Seq<char>;

    /// The text as a string.
    fn display(&self) -> (s: String)
        ensures
            s@ == self.text(),
    ;
}

/// The display texts of `items`, in order.
pub open spec fn item_texts<T: DisplayText>(items: Seq<T>) -> Seq<Seq<char>> {
    Seq::new(items.len(), |i: int| items[i].text())
}

/// The positions, ascending, of the texts that hold `pat`.
pub open spec fn matching(texts: Seq<Seq<char>>, pat: Seq<char>) -> Seq<usize>
    decreases texts.len(),
{
    if texts.len() == 0 {
        Seq::empty()
    } else if is_substring(pat, texts.last()) {
        matching(texts.drop_last(), pat).push((texts.len() - 1) as usize)
    } else {
        matching(texts.drop_last(), pat)
    }
}

/// The texts at the positions `picked`.
pub open spec fn pick(texts: Seq<Seq<char>>, picked: Seq<usize>) -> Seq<Seq<char>> {
    Seq::new(picked.len(), |i: int| texts[picked[i] as int])
}

/// The positions `0 .. n`.
pub open spec fn all_positions(n: nat) -> Seq<usize> {
    Seq::new(n, |i: int| i as usize)
}

/// A cursor brought back into a list of `len` items: dropped when the list is
/// empty, moved to the last item when it points past the end.
pub open spec fn clamped(cursor: Option<usize>, len: nat) -> Option<usize> {
    match cursor {
        Some(c) => if len == 0 {
            None
        } else if c >= len {
            Some((len - 1) as usize)
        } else {
            Some(c)
        },
        None => None,
    }
}

/// The cursor on the first of `len` items.
pub open spec fn at_first(len: nat) -> Option<usize> {
    if len == 0 {
        None
    } else {
        Some(0usize)
    }
}

/// The cursor on the last of `len` items.
pub open spec fn at_last(len: nat) -> Option<usize> {
    if len == 0 {
        None
    } else {
        Some((len - 1) as usize)
    }
}

/// The cursor one item further down: the first item when there was no
/// cursor, and no further than the last.
pub open spec fn moved_down(cursor: Option<usize>, len: nat) -> Option<usize> {
    match cursor {
        Some(c) => if len == 0 {
            None
        } else if c + 1 >= len {
            Some((len - 1) as usize)
        } else {
            Some((c + 1) as usize)
        },
        None => at_first(len),
    }
}

/// The cursor one item further up: the last item when there was no cursor,
/// and no further than the first.
pub open spec fn moved_up(cursor: Option<usize>, len: nat) -> Option<usize> {
    match cursor {
        Some(c) => if len == 0 {
            None
        } else if c == 0 {
            Some(0usize)
        } else if c - 1 >= len {
            Some((len - 1) as usize)
        } else {
            Some((c - 1) as usize)
        },
        None => at_last(len),
    }
}

/// A cursor is absent or points into a list of `len` items.
pub open spec fn cursor_ok(cursor: Option<usize>, len: nat) -> bool {
    match cursor {
        Some(c) => c < len,
        None => true,
    }
}

fn cursor_first(len: usize) -> (c: Option<usize>)
    ensures
        c == at_first(len as nat),
{
    if len == 0 {
        None
    } else {
        Some(0)
    }
}

fn cursor_last(len: usize) -> (c: Option<usize>)
    ensures
        c == at_last(len as nat),
{
    if len == 0 {
        None
    } else {
        Some(len - 1)
    }
}

fn cursor_down(cursor: Option<usize>, len: usize) -> (c: Option<usize>)
    ensures
        c == moved_down(cursor, len as nat),
{
    match cursor {
        Some(i) => {
            if len == 0 {
                None
            } else if i >= len - 1 {
                Some(len - 1)
            } else {
                Some(i + 1)
            }
        },
        None => cursor_first(len),
    }
}

fn cursor_up(cursor: Option<usize>, len: usize) -> (c: Option<usize>)
    ensures
        c == moved_up(cursor, len as nat),
{
    match cursor {
        Some(i) => {
            if len == 0 {
                None
            } else if i == 0 {
                Some(0)
            } else if i - 1 >= len {
                Some(len - 1)
            } else {
                Some(i - 1)
            }
        },
        None => cursor_last(len),
    }
}

fn cursor_clamp(cursor: Option<usize>, len: usize) -> (c: Option<usize>)
    ensures
        c == clamped(cursor, len as nat),
{
    match cursor {
        Some(i) => {
            if len == 0 {
                None
            } else if i >= len {
                Some(len - 1)
            } else {
                Some(i)
            }
        },
        None => None,
    }
}

/// Items with a cursor.
pub struct SelectableList<T: DisplayText> {
    items: Vec<T>,
    cursor: Option<usize>,
}

impl<T: DisplayText> SelectableList<T> {
    /// The items, in order.
    pub closed spec fn items(&self) -> Seq<T> {
        self.items@
    }

    /// The position of the highlighted item, if any.
    pub closed spec fn cursor(&self) -> Option<usize> {
        self.cursor
    }

    /// The cursor, when present, points at an item.
    pub open spec fn wf(&self) -> bool {
        cursor_ok(self.cursor(), self.items().len())
    }

    /// The highlighted item, if any.
    pub open spec fn highlighted(&self) -> Option<T> {
        match self.cursor() {
            Some(c) => Some(self.items()[c as int]),
            None => None,
        }
    }

    /// A list of `vec` with nothing highlighted.
    pub fn new(vec: Vec<T>) -> (list: Self)
        ensures
            list.wf(),
            list.items() == vec@,
            list.cursor().is_none(),
    {
        SelectableList { items: vec, cursor: None }
    }

    /// Replaces the items and drops the cursor.
    pub fn set_items(&mut self, vec: Vec<T>)
        ensures
            final(self).wf(),
            final(self).items() == vec@,
            final(self).cursor().is_none(),
    {
        self.items = vec;
        self.cursor = None;
    }

    /// The same list with its first item highlighted.
    pub fn with_first_selected(self) -> (list: Self)
        ensures
            list.wf(),
            list.items() == self.items(),
            list.cursor() == at_first(self.items().len()),
    {
        let mut list = self;
        list.select_first();
        list
    }

    pub fn select_first(&mut self)
        ensures
            final(self).wf(),
            final(self).items() == old(self).items(),
            final(self).cursor() == at_first(old(self).items().len()),
    {
        self.cursor = cursor_first(self.items.len());
    }

    pub fn select_last(&mut self)
        ensures
            final(self).wf(),
            final(self).items() == old(self).items(),
            final(self).cursor() == at_last(old(self).items().len()),
    {
        self.cursor = cursor_last(self.items.len());
    }

    pub fn select_next(&mut self)
        ensures
            final(self).wf(),
            final(self).items() == old(self).items(),
            final(self).cursor() == moved_down(old(self).cursor(), old(self).items().len()),
    {
        self.cursor = cursor_down(self.cursor, self.items.len());
    }

    pub fn select_previous(&mut self)
        ensures
            final(self).wf(),
            final(self).items() == old(self).items(),
            final(self).cursor() == moved_up(old(self).cursor(), old(self).items().len()),
    {
        self.cursor = cursor_up(self.cursor, self.items.len());
    }

    pub fn select_none(&mut self)
        ensures
            final(self).wf(),
            final(self).items() == old(self).items(),
            final(self).cursor().is_none(),
    {
        self.cursor = None;
    }

    /// The highlighted item, if any.
    pub fn selected(&self) -> (item: Option<&T>)
        requires
            self.wf(),
        ensures
            crate::cache::pointee(item) == self.highlighted(),
    {
        match self.cursor {
            Some(c) => Some(&self.items[c]),
            None => None,
        }
    }

    /// The position of the highlighted item, if any.
    pub fn selected_index(&self) -> (index: Option<usize>)
        ensures
            index == self.cursor(),
    {
        self.cursor
    }

    /// The number of items.
    pub fn len(&self) -> (n: usize)
        ensures
            n == self.items().len(),
    {
        self.items.len()
    }

    /// The item at position `i`.
    pub fn item(&self, i: usize) -> (item: &T)
        requires
            i < self.items().len(),
        ensures
            *item == self.items()[i as int],
    {
        &self.items[i]
    }
}

/// Every position of `matching` is a position of a text that holds the
/// pattern, the positions ascend, and every such position is among them.
pub proof fn lemma_matching_is_the_filter(texts: Seq<Seq<char>>, pat: Seq<char>)
    requires
        texts.len() <= usize::MAX,
    ensures
        matching(texts, pat).len() <= texts.len(),
        forall|j: int|
            0 <= j < matching(texts, pat).len() ==> (#[trigger] matching(texts, pat)[j]) < texts.len()
                && is_substring(pat, texts[matching(texts, pat)[j] as int]),
        forall|j: int, k: int|
            0 <= j < k < matching(texts, pat).len() ==> (#[trigger] matching(texts, pat)[j]) < (
            #[trigger] matching(texts, pat)[k]),
        forall|p: int|
            0 <= p < texts.len() && is_substring(pat, #[trigger] texts[p]) ==> matching(texts, pat).contains(
                p as usize,
            ),
    decreases texts.len(),
{
    if texts.len() > 0 {
        let front = texts.drop_last();
        lemma_matching_is_the_filter(front, pat);
        let m = matching(texts, pat);
        let mf = matching(front, pat);
        let last = (texts.len() - 1) as usize;
        assert forall|p: int| 0 <= p < texts.len() && is_substring(pat, #[trigger] texts[p]) implies m.contains(
            p as usize,
        ) by {
            if p < front.len() {
                assert(front[p] == texts[p]);
                assert(mf.contains(p as usize));
                let w = choose|w: int| 0 <= w < mf.len() && mf[w] == p as usize;
                assert(m[w] == p as usize);
            } else {
                assert(texts[p] == texts.last());
                assert(m[m.len() - 1] == last);
            }
        }
        assert forall|j: int| 0 <= j < m.len() implies (#[trigger] m[j]) < texts.len() && is_substring(
            pat,
            texts[m[j] as int],
        ) by {
            if j < mf.len() {
                assert(m[j] == mf[j]);
                assert(front[mf[j] as int] == texts[mf[j] as int]);
            }
        }
    }
}

/// Filtering what a filter left, by the same text, leaves all of it.
pub proof fn lemma_filter_idempotent(texts: Seq<Seq<char>>, pat: Seq<char>)
    requires
        texts.len() <= usize::MAX,
    ensures
        matching(pick(texts, matching(texts, pat)), pat) == all_positions(matching(texts, pat).len()),
{
    lemma_matching_is_the_filter(texts, pat);
    let kept = pick(texts, matching(texts, pat));
    assert forall|i: int| 0 <= i < kept.len() implies is_substring(pat, #[trigger] kept[i]) by {
        assert(kept[i] == texts[matching(texts, pat)[i] as int]);
    }
    lemma_all_match(kept, pat);
}

/// Where every text holds the pattern, the filter keeps every position.
proof fn lemma_all_match(texts: Seq<Seq<char>>, pat: Seq<char>)
    requires
        texts.len() <= usize::MAX,
        forall|i: int| 0 <= i < texts.len() ==> is_substring(pat, #[trigger] texts[i]),
    ensures
        matching(texts, pat) == all_positions(texts.len()),
    decreases texts.len(),
{
    if texts.len() > 0 {
        let front = texts.drop_last();
        assert forall|i: int| 0 <= i < front.len() implies is_substring(pat, #[trigger] front[i]) by {
            assert(front[i] == texts[i]);
        }
        lemma_all_match(front, pat);
        assert(is_substring(pat, texts[texts.len() - 1]));
        assert(matching(texts, pat) =~= all_positions(texts.len()));
    } else {
        assert(matching(texts, pat) =~= all_positions(texts.len()));
    }
}

/// A longer filter text never shows more: where `shorter` occurs in
/// `longer`, every position kept for `longer` is kept for `shorter`, so the
/// result for `longer` is no larger.
pub proof fn lemma_longer_filter_shows_no_more(texts: Seq<Seq<char>>, shorter: Seq<char>, longer: Seq<char>)
    requires
        texts.len() <= usize::MAX,
        is_substring(shorter, longer),
    ensures
        matching(texts, longer).len() <= matching(texts, shorter).len(),
        forall|j: int|
            0 <= j < matching(texts, longer).len() ==> matching(texts, shorter).contains(
                #[trigger] matching(texts, longer)[j],
            ),
    decreases texts.len(),
{
    if texts.len() > 0 {
        let front = texts.drop_last();
        lemma_longer_filter_shows_no_more(front, shorter, longer);
        if is_substring(longer, texts.last()) {
            lemma_substring_trans(shorter, longer, texts.last());
        }
        let ml = matching(texts, longer);
        let ms = matching(texts, shorter);
        let fl = matching(front, longer);
        let fs = matching(front, shorter);
        assert forall|j: int| 0 <= j < ml.len() implies ms.contains(#[trigger] ml[j]) by {
            if j < fl.len() {
                assert(ml[j] == fl[j]);
                assert(fs.contains(fl[j]));
                let w = choose|w: int| 0 <= w < fs.len() && fs[w] == fl[j];
                assert(ms[w] == fl[j]);
            } else {
                assert(ms[ms.len() - 1] == ml[j]);
            }
        }
    }
}

/// Typing one more character into the filter never shows more.
pub proof fn lemma_typing_shows_no_more(texts: Seq<Seq<char>>, filter: Seq<char>, c: char)
    requires
        texts.len() <= usize::MAX,
    ensures
        matching(texts, filter.push(c)).len() <= matching(texts, filter).len(),
{
    crate::text::lemma_substring_of_push(filter, c);
    lemma_longer_filter_shows_no_more(texts, filter, filter.push(c));
}

/// Items with a filter text, the part of them that is visible under it, and
/// a cursor into the visible part.
pub struct FilterableList<T: DisplayText> {
    items: Vec<T>,
    visible: Vec<usize>,
    cursor: Option<usize>,
    input_buffer: String,
}

impl<T: DisplayText> FilterableList<T> {
    /// The authoritative items, in order.
    pub closed spec fn items(&self) -> Seq<T> {
        self.items@
    }

    /// The positions in `items` of the visible items, in order.
    pub closed spec fn visible(&self) -> Seq<usize> {
        self.visible@
    }

    /// The position among the visible items of the highlighted one, if any.
    pub closed spec fn cursor(&self) -> Option<usize> {
        self.cursor
    }

    /// The filter text typed so far.
    pub closed spec fn input(&self) -> Seq<char> {
        self.input_buffer@
    }

    /// The visible positions ascend and point at items, and the cursor, when
    /// present, points at a visible item.
    pub open spec fn wf(&self) -> bool {
        &&& forall|i: int| 0 <= i < self.visible().len() ==> (#[trigger] self.visible()[i]) < self.items().len()
        &&& forall|i: int, j: int|
            0 <= i < j < self.visible().len() ==> (#[trigger] self.visible()[i]) < (#[trigger] self.visible()[j])
        &&& cursor_ok(self.cursor(), self.visible().len())
    }

    /// The visible part is what the filter text selects.
    pub open spec fn in_sync(&self) -> bool {
        self.visible() == matching(item_texts(self.items()), self.input())
    }

    /// The visible items, in order.
    pub open spec fn visible_items(&self) -> Seq<T> {
        Seq::new(self.visible().len(), |i: int| self.items()[self.visible()[i] as int])
    }

    /// The highlighted item, if any.
    pub open spec fn highlighted(&self) -> Option<T> {
        match self.cursor() {
            Some(c) => Some(self.items()[self.visible()[c as int] as int]),
            None => None,
        }
    }

    /// A list of `items` with an empty filter text, all of them visible and
    /// none highlighted.
    pub fn new(items: Vec<T>) -> (list: Self)
        ensures
            list.wf(),
            list.in_sync(),
            list.items() == items@,
            list.input() == Seq::<char>::empty(),
            list.visible() == all_positions(items@.len()),
            list.cursor().is_none(),
    {
        let mut list = FilterableList { items, visible: Vec::new(), cursor: None, input_buffer: String::new() };
        list.filter_items();
        let n = list.items.len();
        proof {
            let texts = item_texts(list.items@);
            assert(texts.len() == n);
            assert forall|i: int| 0 <= i < texts.len() implies is_substring(list.input_buffer@, #[trigger] texts[i]) by {
                crate::text::lemma_empty_is_substring(texts[i]);
            }
            lemma_all_match(texts, list.input_buffer@);
        }
        list
    }

    /// The same list with its first visible item highlighted.
    pub fn with_first_selected(self) -> (list: Self)
        requires
            self.wf(),
        ensures
            list.wf(),
            list.items() == self.items(),
            list.visible() == self.visible(),
            list.input() == self.input(),
            list.cursor() == at_first(self.visible().len()),
    {
        let mut list = self;
        list.select_first();
        list
    }

    /// Derives the visible part anew from the items and the filter text. The
    /// cursor keeps its position, as far as the new visible part reaches.
    pub fn filter_items(&mut self)
        ensures
            final(self).wf(),
            final(self).in_sync(),
            final(self).items() == old(self).items(),
            final(self).input() == old(self).input(),
            final(self).cursor() == clamped(old(self).cursor(), final(self).visible().len()),
    {
        let mut visible: Vec<usize> = Vec::new();
        let mut i: usize = 0;
        let ghost texts = item_texts(self.items@);
        while i < self.items.len()
            invariant
                i <= self.items.len(),
                texts == item_texts(self.items@),
                visible@ == matching(texts.take(i as int), self.input_buffer@),
            decreases self.items.len() - i,
        {
            proof {
                assert(texts.take(i + 1).drop_last() =~= texts.take(i as int));
                assert(texts.take(i + 1).last() == self.items@[i as int].text());
            }
            let shown = self.items[i].display();
            if contains(shown.as_str(), self.input_buffer.as_str()) {
                visible.push(i);
            }
            i = i + 1;
        }
        proof {
            assert(texts.take(self.items.len() as int) =~= texts);
            lemma_matching_is_the_filter(texts, self.input_buffer@);
        }
        self.cursor = cursor_clamp(self.cursor, visible.len());
        self.visible = visible;
    }

    /// Replaces the items, and derives the visible part from the new items
    /// and the filter text as it stands.
    pub fn set_items(&mut self, items: Vec<T>)
        ensures
            final(self).wf(),
            final(self).in_sync(),
            final(self).items() == items@,
            final(self).input() == old(self).input(),
            final(self).cursor() == clamped(old(self).cursor(), final(self).visible().len()),
    {
        self.items = items;
        self.filter_items();
    }

    pub fn select_first(&mut self)
        requires
            old(self).wf(),
        ensures
            final(self).wf(),
            final(self).items() == old(self).items(),
            final(self).visible() == old(self).visible(),
            final(self).input() == old(self).input(),
            final(self).cursor() == at_first(old(self).visible().len()),
    {
        self.cursor = cursor_first(self.visible.len());
    }

    pub fn select_last(&mut self)
        requires
            old(self).wf(),
        ensures
            final(self).wf(),
            final(self).items() == old(self).items(),
            final(self).visible() == old(self).visible(),
            final(self).input() == old(self).input(),
            final(self).cursor() == at_last(old(self).visible().len()),
    {
        self.cursor = cursor_last(self.visible.len());
    }

    pub fn select_next(&mut self)
        requires
            old(self).wf(),
        ensures
            final(self).wf(),
            final(self).items() == old(self).items(),
            final(self).visible() == old(self).visible(),
            final(self).input() == old(self).input(),
            final(self).cursor() == moved_down(old(self).cursor(), old(self).visible().len()),
    {
        self.cursor = cursor_down(self.cursor, self.visible.len());
    }

    pub fn select_previous(&mut self)
        requires
            old(self).wf(),
        ensures
            final(self).wf(),
            final(self).items() == old(self).items(),
            final(self).visible() == old(self).visible(),
            final(self).input() == old(self).input(),
            final(self).cursor() == moved_up(old(self).cursor(), old(self).visible().len()),
    {
        self.cursor = cursor_up(self.cursor, self.visible.len());
    }

    pub fn select_none(&mut self)
        requires
            old(self).wf(),
        ensures
            final(self).wf(),
            final(self).items() == old(self).items(),
            final(self).visible() == old(self).visible(),
            final(self).input() == old(self).input(),
            final(self).cursor().is_none(),
    {
        self.cursor = None;
    }

    /// The highlighted item, if any.
    pub fn selected(&self) -> (item: Option<&T>)
        requires
            self.wf(),
        ensures
            crate::cache::pointee(item) == self.highlighted(),
    {
        match self.cursor {
            Some(c) => Some(&self.items[self.visible[c]]),
            None => None,
        }
    }

    /// Appends `c` to the filter text and derives the visible part anew.
    pub fn update_filter(&mut self, c: char)
        ensures
            final(self).wf(),
            final(self).in_sync(),
            final(self).items() == old(self).items(),
            final(self).input() == old(self).input().push(c),
            final(self).cursor() == clamped(old(self).cursor(), final(self).visible().len()),
    {
        push_char(&mut self.input_buffer, c);
        self.filter_items();
    }

    /// Appends `c` to the filter text and leaves the visible part as it is,
    /// until it is next derived.
    pub fn add_to_input(&mut self, c: char)
        ensures
            final(self).wf() == old(self).wf(),
            final(self).items() == old(self).items(),
            final(self).visible() == old(self).visible(),
            final(self).cursor() == old(self).cursor(),
            final(self).input() == old(self).input().push(c),
    {
        push_char(&mut self.input_buffer, c);
    }

    /// Removes the last character of the filter text, if there is one, and
    /// derives the visible part anew.
    pub fn remove_last_input(&mut self)
        ensures
            final(self).wf(),
            final(self).in_sync(),
            final(self).items() == old(self).items(),
            final(self).input() == (if old(self).input().len() == 0 {
                old(self).input()
            } else {
                old(self).input().drop_last()
            }),
            final(self).cursor() == clamped(old(self).cursor(), final(self).visible().len()),
    {
        let _ = pop_char(&mut self.input_buffer);
        self.filter_items();
    }

    /// The visible items, in order.
    pub fn filtered_items(&self) -> (shown: Vec<&T>)
        requires
            self.wf(),
        ensures
            shown@.len() == self.visible().len(),
            forall|i: int| 0 <= i < shown@.len() ==> *(#[trigger] shown@[i]) == self.visible_items()[i],
    {
        let mut shown: Vec<&T> = Vec::new();
        let mut i: usize = 0;
        while i < self.visible.len()
            invariant
                self.wf(),
                i <= self.visible.len(),
                shown@.len() == i,
                forall|j: int| 0 <= j < i ==> *(#[trigger] shown@[j]) == self.visible_items()[j],
            decreases self.visible.len() - i,
        {
            shown.push(&self.items[self.visible[i]]);
            i = i + 1;
        }
        shown
    }

    /// The position among the visible items of the highlighted one, if any.
    pub fn selected_index(&self) -> (index: Option<usize>)
        ensures
            index == self.cursor(),
    {
        self.cursor
    }

    /// The filter text typed so far.
    pub fn input_buffer(&self) -> (input: &String)
        ensures
            input@ == self.input(),
    {
        &self.input_buffer
    }

    /// The number of items, visible or not.
    pub fn len(&self) -> (n: usize)
        ensures
            n == self.items().len(),
    {
        self.items.len()
    }
}

/// What can be done to a runner.
#[derive(Debug, Clone, Copy, PartialEq, Eq, Structural)]
pub enum RunnerOperation {
    AddLabel,
    RemoveLabel,
    ChangeGroup,
}

impl RunnerOperation {
    /// The operations in the order in which they are offered.
    pub open spec fn offered() -> Seq<RunnerOperation> {
        seq![RunnerOperation::AddLabel, RunnerOperation::RemoveLabel, RunnerOperation::ChangeGroup]
    }

    /// The operations in the order in which they are offered.
    pub fn all() -> (ops: Vec<RunnerOperation>)
        ensures
            ops@ == Self::offered(),
    {
        let mut ops: Vec<RunnerOperation> = Vec::new();
        ops.push(RunnerOperation::AddLabel);
        ops.push(RunnerOperation::RemoveLabel);
        ops.push(RunnerOperation::ChangeGroup);
        assert(ops@ =~= Self::offered());
        ops
    }

    /// The name of the operation.
    pub fn as_str(&self) -> (name: &'static str)
        ensures
            name@ == self.text(),
    {
        match self {
            RunnerOperation::AddLabel => "Add label",
            RunnerOperation::RemoveLabel => "Remove label",
            RunnerOperation::ChangeGroup => "Change group",
        }
    }
}

impl DisplayText for RunnerOperation {
    open spec fn text(&self) -> Seq<char> {
        match self {
            RunnerOperation::AddLabel => "Add label"@,
            RunnerOperation::RemoveLabel => "Remove label"@,
            RunnerOperation::ChangeGroup => "Change group"@,
        }
    }

    fn display(&self) -> (s: String) {
        self.as_str().to_owned()
    }
}

/// What can be done to a runner group.
#[derive(Debug, Clone, Copy, PartialEq, Eq, Structural)]
pub enum GroupOperation {
    AddRepo,
    CreateGroup,
    GetRepos,
}

impl GroupOperation {
    /// The operations in the order in which they are offered.
    pub open spec fn offered() -> Seq<GroupOperation> {
        seq![GroupOperation::CreateGroup, GroupOperation::GetRepos, GroupOperation::AddRepo]
    }

    /// The operations in the order in which they are offered.
    pub fn all() -> (ops: Vec<GroupOperation>)
        ensures
            ops@ == Self::offered(),
    {
        let mut ops: Vec<GroupOperation> = Vec::new();
        ops.push(GroupOperation::CreateGroup);
        ops.push(GroupOperation::GetRepos);
        ops.push(GroupOperation::AddRepo);
        assert(ops@ =~= Self::offered());
        ops
    }

    /// The name of the operation.
    pub fn as_str(&self) -> (name: &'static str)
        ensures
            name@ == self.text(),
    {
        match self {
            GroupOperation::AddRepo => "Add repo",
            GroupOperation::CreateGroup => "Create group",
            GroupOperation::GetRepos => "Get repos accesses",
        }
    }
}

impl DisplayText for GroupOperation {
    open spec fn text(&self) -> Seq<char> {
        match self {
            GroupOperation::AddRepo => "Add repo"@,
            GroupOperation::CreateGroup => "Create group"@,
            GroupOperation::GetRepos => "Get repos accesses"@,
        }
    }

    fn display(&self) -> (s: String) {
        self.as_str().to_owned()
    }
}

/// A key of the keyboard, as far as the dashboard tells keys apart.
#[derive(Debug, Clone, Copy, PartialEq, Eq, Structural)]
pub enum KeyCode {
    Esc,
    Left,
    Right,
    Up,
    Down,
    Home,
    End,
    Enter,
    Backspace,
    Tab,
    Char(char),
    Other,
}

/// Whether a key went down, is held, or came up.
#[derive(Debug, Clone, Copy, PartialEq, Eq, Structural)]
pub enum KeyEventKind {
    Press,
    Repeat,
    Release,
}

/// One event of the keyboard.
#[derive(Debug, Clone, Copy, PartialEq, Eq, Structural)]
pub struct KeyEvent {
    pub code: KeyCode,
    pub kind: KeyEventKind,
}

/// Where the text of a popup comes from.
#[derive(Debug, Clone)]
pub enum PopupContent {
    /// A text fixed when the popup was opened.
    Fixed(String),
    /// The text typed so far into the tab's input, followed by a cursor mark.
    Typed,
}

/// An overlay on a tab: it takes typed text, or shows that a change is
/// under way.
#[derive(Debug, Clone)]
pub struct PopupInfo {
    pub title: String,
    pub content: PopupContent,
    pub is_loading: bool,
}

/// What is compared of where the text of a popup comes from.
pub enum ContentView {
    Fixed(Seq<char>),
    Typed,
}

impl View for PopupContent {
    type V = ContentView;

    open spec fn view(&self) -> ContentView {
        match self {
            PopupContent::Fixed(fixed) => ContentView::Fixed(fixed@),
            PopupContent::Typed => ContentView::Typed,
        }
    }
}

/// What is compared of a popup.
pub struct PopupView {
    pub title: Seq<char>,
    pub content: ContentView,
    pub is_loading: bool,
}

impl View for PopupInfo {
    type V = PopupView;

    open spec fn view(&self) -> PopupView {
        PopupView { title: self.title@, content: self.content@, is_loading: self.is_loading }
    }
}

/// What is compared of the popup of a tab, open or not.
pub open spec fn popup_view(popup: Option<PopupInfo>) -> Option<PopupView> {
    match popup {
        Some(p) => Some(p@),
        None => None,
    }
}

/// The popup that shows a change under way.
pub open spec fn loading_popup() -> PopupView {
    PopupView { title: "Loading"@, content: ContentView::Fixed("Loading..."@), is_loading: true }
}

/// The popup that takes typed text under `title`.
pub open spec fn typing_popup(title: Seq<char>) -> PopupView {
    PopupView { title, content: ContentView::Typed, is_loading: false }
}

/// The text that a typing popup shows for the input typed so far.
pub open spec fn typed_text(input: Seq<char>) -> Seq<char> {
    input.push('_')
}

/// The text that a popup shows while `input` is what was typed.
pub open spec fn shown_text(popup: PopupView, input: Seq<char>) -> Seq<char> {
    match popup.content {
        ContentView::Fixed(fixed) => fixed,
        ContentView::Typed => typed_text(input),
    }
}

/// The keys that the loading popup holds back: the two that commit, and
/// Escape. Every other key does under the loading popup what it does
/// without a popup.
pub open spec fn held_back(key: KeyCode) -> bool {
    key == KeyCode::Enter || key == KeyCode::Right || key == KeyCode::Esc
}

impl PopupInfo {
    /// The popup that shows a change under way.
    pub fn loading() -> (popup: Self)
        ensures
            popup@ == loading_popup(),
    {
        PopupInfo {
            title: "Loading".to_owned(),
            content: PopupContent::Fixed("Loading...".to_owned()),
            is_loading: true,
        }
    }

    /// A popup that shows a fixed text.
    pub fn new(title: String, content: String) -> (popup: Self)
        ensures
            popup == (PopupInfo { title, content: PopupContent::Fixed(content), is_loading: false }),
    {
        PopupInfo { title, content: PopupContent::Fixed(content), is_loading: false }
    }

    /// A popup that shows the text typed so far.
    pub fn new_dynamic(title: String) -> (popup: Self)
        ensures
            popup == (PopupInfo { title, content: PopupContent::Typed, is_loading: false }),
    {
        PopupInfo { title, content: PopupContent::Typed, is_loading: false }
    }

    /// The text that the popup shows while `input` is what was typed.
    pub fn text(&self, input: &str) -> (shown: String)
        ensures
            shown@ == shown_text(self@, input@),
    {
        match &self.content {
            PopupContent::Fixed(fixed) => fixed.clone(),
            PopupContent::Typed => {
                let mut shown = input.to_owned();
                push_char(&mut shown, '_');
                shown
            },
        }
    }
}

/// An item of a list that is filled as the operator goes: a label of the
/// chosen runner, or a repository of the chosen group.
#[derive(Debug, Clone)]
pub enum ListEntry {
    Label(String),
    Repository(crate::api::ApiRepository),
}

impl DisplayText for ListEntry {
    open spec fn text(&self) -> Seq<char> {
        match self {
            ListEntry::Label(label) => label@,
            ListEntry::Repository(repo) => repo.name@,
        }
    }

    fn display(&self) -> (s: String) {
        match self {
            ListEntry::Label(label) => label.clone(),
            ListEntry::Repository(repo) => repo.name.clone(),
        }
    }
}

/// What handling one key asks of the loop around the tabs.
#[derive(Debug, Clone)]
pub struct Handled {
    /// The application is to end.
    pub exit: bool,
    /// The command to send to the worker, if the key committed one.
    pub command: Option<crate::backend::BackendMessage>,
}

} // verus!

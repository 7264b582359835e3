//! The history of clipboard values that the application shows: newest
//! first, bounded in size, and viewed through a filter by kind of content.

use vstd::prelude::*;

use crate::content::{same_content, Content};

verus! {

/// Which contents a view of the history shows.
#[derive(Debug, Clone, Copy, PartialEq, Eq, Structural)]
pub enum ContentType {
    All,
    Text,
    Image,
}

/// Whether a view with the given filter shows the content.
pub open spec fn shows(ct: ContentType, c: Content) -> bool {
    match ct {
        ContentType::All => true,
        ContentType::Text => c is Text,
        ContentType::Image => c is Image,
    }
}

/// How many of the contents a view with the given filter shows.
pub open spec fn count_shown(ct: ContentType, s: Seq<Content>) -> nat
    decreases s.len(),
{
    if s.len() == 0 {
        0
    } else {
        count_shown(ct, s.drop_last()) + if shows(ct, s.last()) {
            1nat
        } else {
            0nat
        }
    }
}

/// The positions, in order, of the contents that a view with the given
/// filter shows.
pub open spec fn shown_positions_spec(ct: ContentType, s: Seq<Content>) -> Seq<int>
    decreases s.len(),
{
    if s.len() == 0 {
        Seq::empty()
    } else if shows(ct, s.last()) {
        shown_positions_spec(ct, s.drop_last()).push(s.len() - 1)
    } else {
        shown_positions_spec(ct, s.drop_last())
    }
}

/// Two sequences hold the same contents, position by position.
pub open spec fn same_contents(a: Seq<Content>, b: Seq<Content>) -> bool {
    &&& a.len() == b.len()
    &&& forall|i: int| 0 <= i < a.len() ==> #[trigger] same_content(a[i]@, b[i]@)
}

/// A history after one content was added: the content in front, and the
/// oldest dropped so that at most `max` remain.
pub open spec fn with_newest(h: Seq<Content>, c: Content, max: nat) -> Seq<Content> {
    let all = seq![c].add(h);
    if all.len() > max {
        all.take(max as int)
    } else {
        all
    }
}

/// A history after the items were added one after another, first to last.
pub open spec fn with_all(h: Seq<Content>, items: Seq<Content>, max: nat) -> Seq<Content>
    decreases items.len(),
{
    if items.len() == 0 {
        h
    } else {
        with_newest(with_all(h, items.drop_last(), max), items.last(), max)
    }
}

/// The contents the application keeps, newest first, at most `max_size` of
/// them, and the kind of content it shows.
pub struct Clipboard {
    max_size: usize,
    content_type: ContentType,
    contents: Vec<Content>,
}

impl Clipboard {
    pub closed spec fn contents(&self) -> Seq<Content> {
        self.contents@
    }

    pub closed spec fn max_size(&self) -> nat {
        self.max_size as nat
    }

    pub closed spec fn content_type(&self) -> ContentType {
        self.content_type
    }

    /// The history holds no more than its bound.
    pub open spec fn wf(&self) -> bool {
        self.contents().len() <= self.max_size()
    }

    /// An empty history that keeps at most `max_size` contents and shows all.
    pub fn new(max_size: usize) -> (r: Clipboard)
        ensures
            r.wf(),
            r.contents() == Seq::<Content>::empty(),
            r.max_size() == max_size,
            r.content_type() == ContentType::All,
    {
        Clipboard { max_size, content_type: ContentType::All, contents: Vec::new() }
    }

    /// Shows only contents of the given kind.
    pub fn set_content_type(&mut self, content_type: ContentType)
        ensures
            final(self).content_type() == content_type,
            final(self).contents() == old(self).contents(),
            final(self).max_size() == old(self).max_size(),
    {
        self.content_type = content_type;
    }

    /// The number of contents held.
    pub fn len(&self) -> (r: usize)
        ensures
            r == self.contents().len(),
    {
        self.contents.len()
    }

    /// The content at `index`, newest first.
    pub fn get(&self, index: usize) -> (r: &Content)
        requires
            index < self.contents().len(),
        ensures
            *r == self.contents()[index as int],
    {
        &self.contents[index]
    }
}

/// Adds a newly discovered content to the front of the history, then drops
/// the oldest until no more than the bound remain.
pub fn update_clipboard(clipboard: &mut Clipboard, content: Content)
    requires
        old(clipboard).wf(),
    ensures
        final(clipboard).wf(),
        final(clipboard).contents() == with_newest(
            old(clipboard).contents(),
            content,
            old(clipboard).max_size(),
        ),
        final(clipboard).max_size() == old(clipboard).max_size(),
        final(clipboard).content_type() == old(clipboard).content_type(),
{
    let ghost before = clipboard.contents@;
    let ghost c = content;
    clipboard.contents.insert(0, content);
    assert(clipboard.contents@ =~= seq![c].add(before));
    while clipboard.contents.len() > clipboard.max_size
        invariant
            clipboard.max_size as nat == old(clipboard).max_size(),
            clipboard.content_type == old(clipboard).content_type(),
            seq![c].add(before).len() > clipboard.max_size ==> clipboard.contents.len()
                >= clipboard.max_size,
            seq![c].add(before).len() <= clipboard.max_size ==> clipboard.contents@ == seq![
                c,
            ].add(before),
            clipboard.contents@ == seq![c].add(before).take(clipboard.contents.len() as int),
            clipboard.contents.len() <= seq![c].add(before).len(),
        decreases clipboard.contents.len(),
    {
        clipboard.contents.pop();
        assert(clipboard.contents@ =~= seq![c].add(before).take(clipboard.contents.len() as int));
    }
    assert(clipboard.contents@ =~= with_newest(before, c, clipboard.max_size as nat));
}

/// A history that was fed items from empty holds the newest of them, at
/// most `max`, newest first: with `max + 1` items the first is evicted and
/// exactly `max` remain.
pub proof fn lemma_bounded_history(items: Seq<Content>, max: nat)
    ensures
        with_all(Seq::empty(), items, max).len() == if items.len() < max {
            items.len()
        } else {
            max
        },
        forall|i: int|
            0 <= i < with_all(Seq::empty(), items, max).len() ==> #[trigger] with_all(
                Seq::empty(),
                items,
                max,
            )[i] == items[items.len() - 1 - i],
    decreases items.len(),
{
    if items.len() > 0 {
        lemma_bounded_history(items.drop_last(), max);
        let prev = with_all(Seq::empty(), items.drop_last(), max);
        let all = seq![items.last()].add(prev);
        assert forall|i: int| 0 <= i < with_all(Seq::empty(), items, max).len() implies #[trigger] with_all(
            Seq::empty(),
            items,
            max,
        )[i] == items[items.len() - 1 - i] by {
            if i > 0 {
                assert(all[i] == prev[i - 1]);
            }
        }
    }
}

/// A view of history contents that shows one kind of content.
#[derive(Debug)]
pub struct MultiVector {
    content_type: ContentType,
    contents: Vec<Content>,
}

impl MultiVector {
    pub closed spec fn contents(&self) -> Seq<Content> {
        self.contents@
    }

    pub closed spec fn content_type(&self) -> ContentType {
        self.content_type
    }

    pub fn new(content_type: ContentType, contents: Vec<Content>) -> (r: MultiVector)
        ensures
            r.content_type() == content_type,
            r.contents() == contents@,
    {
        MultiVector { content_type, contents }
    }

    /// Puts a content in front.
    pub fn push_front(&mut self, content: Content)
        ensures
            final(self).contents() == seq![content].add(old(self).contents()),
            final(self).content_type() == old(self).content_type(),
    {
        let ghost c = content;
        self.contents.insert(0, content);
        assert(self.contents@ =~= seq![c].add(old(self).contents()));
    }

    /// Takes the last content out, if any.
    pub fn pop_back(&mut self) -> (r: Option<Content>)
        ensures
            old(self).contents().len() == 0 ==> r is None,
            old(self).contents().len() == 0 ==> final(self).contents() == old(self).contents(),
            old(self).contents().len() > 0 ==> r == Some(old(self).contents().last()),
            old(self).contents().len() > 0 ==> final(self).contents() == old(self).contents().drop_last(),
            final(self).content_type() == old(self).content_type(),
    {
        self.contents.pop()
    }

    /// The number of contents the view shows.
    pub fn len(&self) -> (r: usize)
        ensures
            r == count_shown(self.content_type(), self.contents()),
    {
        let mut n: usize = 0;
        let mut i: usize = 0;
        while i < self.contents.len()
            invariant
                i <= self.contents@.len(),
                n == count_shown(self.content_type, self.contents@.take(i as int)),
                n <= i,
            decreases self.contents@.len() - i,
        {
            assert(self.contents@.take(i as int + 1).drop_last() =~= self.contents@.take(i as int));
            if is_shown(self.content_type, &self.contents[i]) {
                n = n + 1;
            }
            i = i + 1;
        }
        assert(self.contents@.take(i as int) =~= self.contents@);
        n
    }

    /// The positions in the contents of what the view shows, in order: the
    /// view's `k`-th entry is the content at the `k`-th position.
    pub fn shown_positions(&self) -> (r: Vec<usize>)
        ensures
            r@.map_values(|p: usize| p as int) == shown_positions_spec(
                self.content_type(),
                self.contents(),
            ),
            r@.len() == count_shown(self.content_type(), self.contents()),
    {
        let mut r: Vec<usize> = Vec::new();
        let mut i: usize = 0;
        while i < self.contents.len()
            invariant
                i <= self.contents@.len(),
                r@.map_values(|p: usize| p as int) == shown_positions_spec(
                    self.content_type,
                    self.contents@.take(i as int),
                ),
                r@.len() == count_shown(self.content_type, self.contents@.take(i as int)),
            decreases self.contents@.len() - i,
        {
            let ghost before = r@;
            assert(self.contents@.take(i as int + 1).drop_last() =~= self.contents@.take(i as int));
            if is_shown(self.content_type, &self.contents[i]) {
                r.push(i);
                assert(r@.map_values(|p: usize| p as int) =~= before.map_values(
                    |p: usize| p as int,
                ).push(i as int));
            }
            i = i + 1;
        }
        assert(self.contents@.take(i as int) =~= self.contents@);
        r
    }

    /// Whether two views show the same kind and hold the same contents.
    pub fn same(&self, other: &MultiVector) -> (r: bool)
        ensures
            r == (self.content_type() == other.content_type() && same_contents(
                self.contents(),
                other.contents(),
            )),
    {
        if self.content_type != other.content_type || self.contents.len() != other.contents.len() {
            return false;
        }
        let mut i: usize = 0;
        while i < self.contents.len()
            invariant
                i <= self.contents@.len(),
                self.contents@.len() == other.contents@.len(),
                forall|j: int| 0 <= j < i ==> #[trigger] same_content(self.contents@[j]@, other.contents@[j]@),
            decreases self.contents@.len() - i,
        {
            if !self.contents[i].same(&other.contents[i]) {
                return false;
            }
            i = i + 1;
        }
        true
    }
}

/// Whether a view with the given filter shows the content.
pub fn is_shown(ct: ContentType, c: &Content) -> (r: bool)
    ensures
        r == shows(ct, *c),
{
    match ct {
        ContentType::All => true,
        ContentType::Text => matches!(c, Content::Text(_)),
        ContentType::Image => matches!(c, Content::Image(_)),
    }
}

} // verus!

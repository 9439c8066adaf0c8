//! Paths that name a function or a string table inside a module tree.

use vstd::prelude::*;
use vstd::string::StringExecFns;

pub mod module;

verus! {

/// The texts of a sequence of strings.
pub open spec fn texts(names: Seq<String>) -> Seq<Seq<char>> {
    Seq::new(names.len(), |i: int| names[i]@)
}

/// The texts of a list of names after one more was added.
pub proof fn lemma_texts_push(names: Seq<String>, name: String)
    ensures
        texts(names.push(name)) == texts(names).push(name@),
{
    assert(texts(names.push(name)) =~= texts(names).push(name@));
}

/// A copy of a list of names.
pub fn clone_names(names: &Vec<String>) -> (r: Vec<String>)
    ensures
        texts(r@) == texts(names@),
        r@.len() == names@.len(),
{
    let mut copy: Vec<String> = Vec::new();
    let mut i: usize = 0;
    while i < names.len()
        invariant
            i <= names.len(),
            copy@.len() == i,
            forall|j: int| 0 <= j < i ==> copy@[j]@ == names@[j]@,
        decreases names.len() - i,
    {
        copy.push(names[i].clone());
        i = i + 1;
    }
    assert(texts(copy@) =~= texts(names@));
    copy
}

/// Whether one of the segments is empty.
pub open spec fn has_empty(segments: Seq<Seq<char>>) -> bool {
    exists|i: int| 0 <= i < segments.len() && #[trigger] segments[i].len() == 0
}

/// Whether one of the names is empty.
pub fn has_empty_name(names: &Vec<String>) -> (r: bool)
    ensures
        r == has_empty(texts(names@)),
{
    let mut i: usize = 0;
    while i < names.len()
        invariant
            i <= names.len(),
            forall|j: int| 0 <= j < i ==> texts(names@)[j].len() != 0,
        decreases names.len() - i,
    {
        if names[i].as_str().unicode_len() == 0 {
            assert(texts(names@)[i as int].len() == 0);
            return true;
        }
        i = i + 1;
    }
    false
}

/// The segments of a text from `start` on, split at each `::` that
/// begins at `at` or later.
pub open spec fn split_from(text: Seq<char>, start: int, at: int) -> Seq<Seq<char>>
    decreases text.len() - at,
{
    if at + 1 >= text.len() {
        seq![text.subrange(start, text.len() as int)]
    } else if text[at] == ':' && text[at + 1] == ':' {
        seq![text.subrange(start, at)] + split_from(text, at + 2, at + 2)
    } else {
        split_from(text, start, at + 1)
    }
}

/// The segments of a text, split at each `::`, leftmost first.
pub open spec fn segments_of(text: Seq<char>) -> Seq<Seq<char>> {
    split_from(text, 0, 0)
}

/// The path that a text denotes: its segments, or the empty path where
/// one of them is empty.
pub open spec fn path_of(text: Seq<char>) -> Seq<Seq<char>> {
    if has_empty(segments_of(text)) {
        Seq::empty()
    } else {
        segments_of(text)
    }
}

/// The segments of a text, split at each `::`.
pub fn split_segments(text: &str) -> (r: Vec<String>)
    ensures
        texts(r@) == segments_of(text@),
{
    let n = text.unicode_len();
    let mut segments: Vec<String> = Vec::new();
    let mut start: usize = 0;
    let mut at: usize = 0;
    proof {
        assert(texts(segments@) =~= Seq::<Seq<char>>::empty());
        assert(Seq::<Seq<char>>::empty() + split_from(text@, 0, 0) =~= split_from(text@, 0, 0));
    }
    while n - at > 1
        invariant
            start <= at <= n,
            n == text@.len(),
            texts(segments@) + split_from(text@, start as int, at as int) == segments_of(text@),
        decreases n - at,
    {
        if text.get_char(at) == ':' && text.get_char(at + 1) == ':' {
            let segment = text.substring_char(start, at).to_owned();
            proof {
                lemma_texts_push(segments@, segment);
                assert(texts(segments@).push(segment@) + split_from(
                    text@,
                    at + 2,
                    at + 2,
                ) =~= texts(segments@) + (seq![text@.subrange(start as int, at as int)]
                    + split_from(text@, at + 2, at + 2)));
            }
            segments.push(segment);
            start = at + 2;
            at = at + 2;
        } else {
            at = at + 1;
        }
    }
    let segment = text.substring_char(start, n).to_owned();
    proof {
        lemma_texts_push(segments@, segment);
        assert(texts(segments@).push(segment@) =~= texts(segments@) + seq![
            text@.subrange(start as int, n as int),
        ]);
    }
    segments.push(segment);
    segments
}

/// The text of a path: its segments with `::` between them.
pub open spec fn path_text(segments: Seq<Seq<char>>) -> Seq<char>
    decreases segments.len(),
{
    if segments.len() == 0 {
        Seq::empty()
    } else if segments.len() == 1 {
        segments[0]
    } else {
        path_text(segments.drop_last()) + "::"@ + segments.last()
    }
}

/// The text of a list of segments, with `::` between them.
pub fn join_segments(segments: &Vec<String>) -> (r: String)
    ensures
        r@ == path_text(texts(segments@)),
{
    let mut text = String::new();
    let mut i: usize = 0;
    let ghost all = texts(segments@);
    while i < segments.len()
        invariant
            i <= segments.len(),
            all == texts(segments@),
            text@ == path_text(all.subrange(0, i as int)),
        decreases segments.len() - i,
    {
        proof {
            let longer = all.subrange(0, i + 1);
            assert(longer.drop_last() =~= all.subrange(0, i as int));
            assert(longer.last() == segments@[i as int]@);
            if i == 0 {
                assert(Seq::<char>::empty() + segments@[0]@ =~= segments@[0]@);
            }
        }
        if i > 0 {
            text.append("::");
        }
        text.append(segments[i].as_str());
        i = i + 1;
    }
    proof {
        assert(all.subrange(0, segments@.len() as int) =~= all);
    }
    text
}

/// The segments that name a function: sub-module names, then the
/// function's own name.
#[derive(Debug)]
pub struct FunctionPath {
    pub path: Vec<String>,
}

impl View for FunctionPath {
    type V = Seq<Seq<char>>;

    open spec fn view(&self) -> Seq<Seq<char>> {
        texts(self.path@)
    }
}

impl Clone for FunctionPath {
    fn clone(&self) -> (r: Self)
        ensures
            r@ == self@,
    {
        FunctionPath { path: clone_names(&self.path) }
    }
}

impl FunctionPath {
    /// The path with these segments, leftmost first.
    pub fn new(segments: Vec<String>) -> (r: Self)
        ensures
            r@ == texts(segments@),
    {
        FunctionPath { path: segments }
    }

    /// The path that a text of segments with `::` between them denotes;
    /// the empty path where a segment is empty.
    pub fn parse(text: &str) -> (r: Self)
        ensures
            r@ == path_of(text@),
    {
        let segments = split_segments(text);
        if has_empty_name(&segments) {
            let path: Vec<String> = Vec::new();
            assert(texts(path@) =~= Seq::<Seq<char>>::empty());
            FunctionPath { path }
        } else {
            FunctionPath { path: segments }
        }
    }

    /// The path as a text, with `::` between its segments.
    pub fn to_text(&self) -> (r: String)
        ensures
            r@ == path_text(self@),
    {
        join_segments(&self.path)
    }

    /// The path of one segment.
    pub fn single(name: &str) -> (r: Self)
        ensures
            r@ == seq![name@],
    {
        let mut path: Vec<String> = Vec::new();
        path.push(name.to_owned());
        assert(texts(path@) =~= seq![name@]);
        FunctionPath { path }
    }
}

/// The segments that name a string table: the names of the sub-modules
/// that lead to it.
#[derive(Debug)]
pub struct StringTablePath {
    pub path: Vec<String>,
}

impl View for StringTablePath {
    type V = Seq<Seq<char>>;

    open spec fn view(&self) -> Seq<Seq<char>> {
        texts(self.path@)
    }
}

impl Clone for StringTablePath {
    fn clone(&self) -> (r: Self)
        ensures
            r@ == self@,
    {
        StringTablePath { path: clone_names(&self.path) }
    }
}

impl StringTablePath {
    /// The path that a text of segments with `::` between them denotes;
    /// the empty path where a segment is empty.
    pub fn parse(text: &str) -> (r: Self)
        ensures
            r@ == path_of(text@),
    {
        let segments = split_segments(text);
        if has_empty_name(&segments) {
            let path: Vec<String> = Vec::new();
            assert(texts(path@) =~= Seq::<Seq<char>>::empty());
            StringTablePath { path }
        } else {
            StringTablePath { path: segments }
        }
    }

    /// The path with these segments; the empty path where one of them is
    /// empty.
    pub fn new(segments: Vec<String>) -> (r: Self)
        ensures
            r@ == if has_empty(texts(segments@)) {
                Seq::<Seq<char>>::empty()
            } else {
                texts(segments@)
            },
    {
        if has_empty_name(&segments) {
            let path: Vec<String> = Vec::new();
            assert(texts(path@) =~= Seq::<Seq<char>>::empty());
            StringTablePath { path }
        } else {
            StringTablePath { path: segments }
        }
    }
}

} // verus!

//! An in-memory text buffer addressed by grapheme cluster, with a cursor and
//! a scrolling viewport. Nothing here draws: the widgets render what the
//! editor holds.

use crate::events::Key;
use crate::layout::Rect;
use crate::text::{grapheme_clusters, graphemes, push_char, split_lines, texts};
use vstd::prelude::*;
use vstd::seq_lib::lemma_flatten_concat;
use vstd::string::*;

verus! {

/// The number of grapheme clusters of `text`.
pub open spec fn cluster_count(text: Seq<char>) -> nat {
    grapheme_clusters(text).len()
}

/// `at`, held to the boundaries `0..=count` between `count` clusters.
pub open spec fn boundary_in(count: nat, at: int) -> int {
    if at < 0 {
        0
    } else if at >= count {
        count as int
    } else {
        at
    }
}

/// `at`, held to the cluster boundaries of `text`.
pub open spec fn boundary(text: Seq<char>, at: int) -> int {
    boundary_in(cluster_count(text), at)
}

/// The clusters in front of boundary `at`, as one text.
pub open spec fn joined_before(clusters: Seq<Seq<char>>, at: int) -> Seq<char> {
    clusters.subrange(0, boundary_in(clusters.len(), at)).flatten()
}

/// The clusters from boundary `at` on, as one text.
pub open spec fn joined_from(clusters: Seq<Seq<char>>, at: int) -> Seq<char> {
    clusters.subrange(boundary_in(clusters.len(), at), clusters.len() as int).flatten()
}

/// The text of `clusters` with `c` put in front of cluster `at`; at the
/// end where `at` is not the index of a cluster.
pub open spec fn joined_with(clusters: Seq<Seq<char>>, at: int, c: char) -> Seq<char> {
    joined_before(clusters, at) + seq![c] + joined_from(clusters, at)
}

/// The text of `clusters` without cluster `at`.
pub open spec fn joined_without(clusters: Seq<Seq<char>>, at: int) -> Seq<char> {
    joined_before(clusters, at) + joined_from(clusters, at + 1)
}

/// What is drawn for one cluster: a blank for a tab, else the cluster.
pub open spec fn shown(cluster: Seq<char>) -> Seq<char> {
    if cluster == seq!['\t'] {
        seq![' ']
    } else {
        cluster
    }
}

/// What is drawn for a sequence of clusters.
pub open spec fn shown_all(clusters: Seq<Seq<char>>) -> Seq<char> {
    clusters.map_values(|cluster: Seq<char>| shown(cluster)).flatten()
}

/// What is drawn of `clusters` between the columns `start` and `end`. Both
/// are held to the clusters; a `start` behind `end` shows nothing.
pub open spec fn shown_between(clusters: Seq<Seq<char>>, start: int, end: int) -> Seq<char> {
    let to = boundary_in(clusters.len(), end);
    let from = if start < to {
        boundary_in(clusters.len(), start)
    } else {
        to
    };
    shown_all(clusters.subrange(from, to))
}

/// The clusters of `text` in front of boundary `at`, as one text.
pub open spec fn head(text: Seq<char>, at: int) -> Seq<char> {
    joined_before(grapheme_clusters(text), at)
}

/// The clusters of `text` from boundary `at` on, as one text.
pub open spec fn tail(text: Seq<char>, at: int) -> Seq<char> {
    joined_from(grapheme_clusters(text), at)
}

/// `text` with `c` put in front of cluster `at`; at the end where `at` is not
/// the index of a cluster.
pub open spec fn inserted(text: Seq<char>, at: int, c: char) -> Seq<char> {
    joined_with(grapheme_clusters(text), at, c)
}

/// `text` without cluster `at`; `text` itself where `at` is not the index of
/// a cluster.
pub open spec fn deleted(text: Seq<char>, at: int) -> Seq<char> {
    if 0 <= at < cluster_count(text) {
        joined_without(grapheme_clusters(text), at)
    } else {
        text
    }
}

/// What is drawn of `text` between the cluster columns `start` and `end`.
pub open spec fn rendered(text: Seq<char>, start: int, end: int) -> Seq<char> {
    shown_between(grapheme_clusters(text), start, end)
}

/// The segmentation of `text` covers it with non-empty clusters.
pub open spec fn partitioned(text: Seq<char>) -> bool {
    &&& grapheme_clusters(text).flatten() == text
    &&& forall|i: int| 0 <= i < cluster_count(text) ==> (#[trigger] grapheme_clusters(text)[i]).len() > 0
}

/// A text that non-empty clusters cover has no cluster exactly if it is empty.
pub proof fn lemma_partitioned_empty(text: Seq<char>)
    requires
        partitioned(text),
    ensures
        cluster_count(text) == 0 <==> text.len() == 0,
{
    let clusters = grapheme_clusters(text);
    if clusters.len() > 0 {
        assert(clusters[0].len() > 0);
        assert(clusters.flatten() == clusters.first() + clusters.drop_first().flatten());
    }
}

/// What stands before a boundary and what stands behind it make up the
/// whole. Before the first boundary stands nothing, and nothing stands
/// behind the last.
pub proof fn lemma_joined(clusters: Seq<Seq<char>>, at: int)
    ensures
        joined_before(clusters, at) + joined_from(clusters, at) == clusters.flatten(),
        boundary_in(clusters.len(), at) == 0 ==> joined_before(clusters, at) == Seq::<char>::empty()
            && joined_from(clusters, at) == clusters.flatten(),
        boundary_in(clusters.len(), at) == clusters.len() ==> joined_from(clusters, at) == Seq::<
            char,
        >::empty() && joined_before(clusters, at) == clusters.flatten(),
{
    let k = boundary_in(clusters.len(), at);
    let n = clusters.len() as int;
    assert(clusters.subrange(0, k) + clusters.subrange(k, n) =~= clusters);
    lemma_flatten_concat(clusters.subrange(0, k), clusters.subrange(k, n));
    assert(clusters.subrange(0, 0).flatten() =~= Seq::<char>::empty());
    assert(clusters.subrange(n, n).flatten() =~= Seq::<char>::empty());
    assert(Seq::<char>::empty() + joined_from(clusters, at) =~= joined_from(clusters, at));
    assert(joined_before(clusters, at) + Seq::<char>::empty() =~= joined_before(clusters, at));
}

/// Head and tail at one boundary make up the text. At the first boundary
/// the head is empty and the tail is the whole text; at the last one the
/// tail is empty and the head is the whole text.
pub proof fn lemma_split(text: Seq<char>, at: int)
    requires
        partitioned(text),
    ensures
        head(text, at) + tail(text, at) == text,
        boundary(text, at) == 0 ==> head(text, at) == Seq::<char>::empty() && tail(text, at) == text,
        boundary(text, at) == cluster_count(text) ==> tail(text, at) == Seq::<char>::empty() && head(
            text,
            at,
        ) == text,
{
    lemma_joined(grapheme_clusters(text), at);
}

/// Concatenates the parts with indices in `from..to`.
fn join_range(parts: &Vec<String>, from: usize, to: usize) -> (joined: String)
    requires
        from <= to <= parts.len(),
    ensures
        joined@ == texts(parts@).subrange(from as int, to as int).flatten(),
{
    let mut joined = String::new();
    let mut i: usize = from;
    while i < to
        invariant
            from <= i <= to <= parts.len(),
            joined@ == texts(parts@).subrange(from as int, i as int).flatten(),
        decreases to - i,
    {
        proof {
            let done = texts(parts@).subrange(from as int, i as int);
            assert(texts(parts@).subrange(from as int, i + 1) =~= done.push(parts@[i as int]@));
            done.lemma_flatten_push(parts@[i as int]@);
        }
        joined.append(parts[i].as_str());
        i += 1;
    }
    joined
}

/// The parts in front of boundary `at`, as one text.
pub fn join_before(parts: &Vec<String>, at: usize) -> (joined: String)
    ensures
        joined@ == joined_before(texts(parts@), at as int),
{
    let k = if at >= parts.len() {
        parts.len()
    } else {
        at
    };
    join_range(parts, 0, k)
}

/// The parts from boundary `at` on, as one text.
pub fn join_from(parts: &Vec<String>, at: usize) -> (joined: String)
    ensures
        joined@ == joined_from(texts(parts@), at as int),
{
    let k = if at >= parts.len() {
        parts.len()
    } else {
        at
    };
    join_range(parts, k, parts.len())
}

/// The text of the parts with `c` put in front of part `at`; at the end
/// where there is no such part.
pub fn join_with(parts: &Vec<String>, at: usize, c: char) -> (joined: String)
    ensures
        joined@ == joined_with(texts(parts@), at as int, c),
{
    let mut joined = join_before(parts, at);
    push_char(&mut joined, c);
    joined.append(join_from(parts, at).as_str());
    assert(joined@ =~= joined_with(texts(parts@), at as int, c));
    joined
}

/// The text of the parts without part `at`; the text of all parts where
/// there is no such part.
pub fn join_without(parts: &Vec<String>, at: usize) -> (joined: String)
    ensures
        joined@ == joined_without(texts(parts@), at as int),
{
    let next = if at >= parts.len() {
        parts.len()
    } else {
        at + 1
    };
    let mut joined = join_before(parts, at);
    joined.append(join_from(parts, next).as_str());
    joined
}

/// Whether `part` is a single tab.
fn is_tab(part: &String) -> (tab: bool)
    ensures
        tab == (part@ == seq!['\t']),
{
    let slice = part.as_str();
    if slice.unicode_len() == 1 {
        let first = slice.get_char(0);
        assert(first == '\t' ==> part@ =~= seq!['\t']);
        first == '\t'
    } else {
        false
    }
}

/// What is drawn of the parts between the columns `start` and `end`: the
/// parts in that range, a tab as one blank.
pub fn show_between(parts: &Vec<String>, start: usize, end: usize) -> (line: String)
    ensures
        line@ == shown_between(texts(parts@), start as int, end as int),
{
    let to = if end < parts.len() {
        end
    } else {
        parts.len()
    };
    let from = if start < to {
        start
    } else {
        to
    };
    let ghost clusters = texts(parts@);
    let mut line = String::new();
    let mut i: usize = from;
    while i < to
        invariant
            from <= i <= to <= parts.len(),
            texts(parts@) == clusters,
            line@ == shown_all(clusters.subrange(from as int, i as int)),
        decreases to - i,
    {
        proof {
            let done = clusters.subrange(from as int, i as int);
            let show = |cluster: Seq<char>| shown(cluster);
            assert(clusters.subrange(from as int, i + 1).map_values(show) =~= done.map_values(
                show,
            ).push(shown(clusters[i as int])));
            done.map_values(show).lemma_flatten_push(shown(clusters[i as int]));
            assert(clusters[i as int] == parts@[i as int]@);
        }
        if is_tab(&parts[i]) {
            push_char(&mut line, ' ');
            assert(line@ =~= shown_all(clusters.subrange(from as int, i as int)) + seq![' ']);
        } else {
            line.append(parts[i].as_str());
        }
        i += 1;
    }
    line
}

/// One line of text together with the number of grapheme clusters in it.
#[derive(Debug)]
pub struct Row {
    string: String,
    len: usize,
}

impl View for Row {
    type V = Seq<char>;

    closed spec fn view(&self) -> Seq<char> {
        self.string@
    }
}

impl Row {
    #[verifier::type_invariant]
    spec fn counted(&self) -> bool {
        &&& self.len == cluster_count(self.string@)
        &&& partitioned(self.string@)
    }

    /// The row that holds `string`.
    fn of(string: String) -> (row: Row)
        ensures
            row@ == string@,
            partitioned(string@),
    {
        let len = graphemes(string.as_str()).len();
        Row { string, len }
    }

    /// What is drawn of the row between the cluster columns `start` and
    /// `end`: its clusters in that range, a tab as one blank.
    pub fn render(&self, start: usize, end: usize) -> (line: String)
        ensures
            line@ == rendered(self@, start as int, end as int),
    {
        show_between(&graphemes(self.string.as_str()), start, end)
    }

    /// The number of grapheme clusters in the row.
    pub fn len(&self) -> (n: usize)
        ensures
            n == cluster_count(self@),
            partitioned(self@),
    {
        proof {
            use_type_invariant(self);
        }
        self.len
    }

    /// Whether the row holds no cluster, which is to say no character.
    pub fn is_empty(&self) -> (empty: bool)
        ensures
            empty == (cluster_count(self@) == 0),
            empty == (self@.len() == 0),
    {
        proof {
            use_type_invariant(self);
            lemma_partitioned_empty(self@);
        }
        self.len == 0
    }

    /// Puts `c` in front of the cluster at `at`. Where the row has no such
    /// cluster, `c` goes to the end of the row.
    pub fn insert(&mut self, at: usize, c: char)
        ensures
            final(self)@ == inserted(old(self)@, at as int, c),
            at >= cluster_count(old(self)@) ==> final(self)@ == old(self)@.push(c),
    {
        let parts = graphemes(self.string.as_str());
        let string = join_with(&parts, at, c);
        proof {
            lemma_split(self@, at as int);
            assert(self@ + seq![c] + Seq::<char>::empty() =~= self@.push(c));
        }
        *self = Row::of(string);
    }

    /// Removes the cluster at `at`. Where the row has no such cluster, the
    /// row stays as it is.
    pub fn delete(&mut self, at: usize)
        ensures
            final(self)@ == deleted(old(self)@, at as int),
    {
        let parts = graphemes(self.string.as_str());
        if at >= parts.len() {
            return ;
        }
        *self = Row::of(join_without(&parts, at));
    }

    /// Puts the text of `new` behind the text of the row.
    pub fn append(&mut self, new: &Row)
        ensures
            final(self)@ == old(self)@ + new@,
    {
        let mut string = self.string.clone();
        string.append(new.string.as_str());
        *self = Row::of(string);
    }

    /// Cuts the row in front of the cluster at `at`: the row keeps the
    /// clusters before it and the result holds the others. Past the last
    /// cluster the result is empty; at 0 the row is left empty and the result
    /// holds all of it.
    pub fn split(&mut self, at: usize) -> (rest: Row)
        ensures
            final(self)@ == head(old(self)@, at as int),
            rest@ == tail(old(self)@, at as int),
            final(self)@ + rest@ == old(self)@,
            at >= cluster_count(old(self)@) ==> rest@.len() == 0 && cluster_count(rest@) == 0
                && final(self)@ == old(self)@,
            at == 0 ==> final(self)@.len() == 0 && cluster_count(final(self)@) == 0 && rest@ == old(self)@,
    {
        let parts = graphemes(self.string.as_str());
        let kept = Row::of(join_before(&parts, at));
        let rest = Row::of(join_from(&parts, at));
        proof {
            lemma_split(self@, at as int);
            lemma_partitioned_empty(kept@);
            lemma_partitioned_empty(rest@);
        }
        *self = kept;
        rest
    }

    /// The text of the row in UTF-8.
    pub fn as_bytes(&self) -> (bytes: &[u8])
        ensures
            bytes@ == vstd::utf8::encode_utf8(self@),
    {
        self.string.as_str().as_bytes()
    }
}

impl Row {
    /// The row that holds the text of `slice`.
    pub fn from(slice: &str) -> (row: Row)
        ensures
            row@ == slice@,
    {
        Row::of(String::from_str(slice))
    }
}

impl Default for Row {
    /// The empty row.
    fn default() -> (row: Row)
        ensures
            row@ == Seq::<char>::empty(),
            cluster_count(row@) == 0,
    {
        let row = Row::of(String::new());
        proof {
            lemma_partitioned_empty(row@);
        }
        row
    }
}

impl Clone for Row {
    fn clone(&self) -> (row: Row)
        ensures
            row@ == self@,
    {
        proof {
            use_type_invariant(self);
        }
        Row { string: self.string.clone(), len: self.len }
    }
}

/// A place in a document: cluster column `x` of row `y`.
#[derive(Clone, Copy, Debug, PartialEq, Eq, Structural)]
pub struct Position {
    pub x: usize,
    pub y: usize,
}

impl Default for Position {
    /// The start of a document.
    fn default() -> (position: Position)
        ensures
            position == (Position { x: 0, y: 0 }),
    {
        Position { x: 0, y: 0 }
    }
}

/// `rows` after a line break at column `x` of row `y`: that row is cut in
/// two. With `y` one past the last row an empty row is added; past that,
/// nothing changes.
pub open spec fn with_newline(rows: Seq<Seq<char>>, x: int, y: int) -> Seq<Seq<char>> {
    if y < 0 || y > rows.len() {
        rows
    } else if y == rows.len() {
        rows.push(Seq::empty())
    } else {
        rows.update(y, head(rows[y], x)).insert(y + 1, tail(rows[y], x))
    }
}

/// `rows` after `c` was typed at column `x` of row `y`. A line feed breaks
/// the row and is never stored in it. With `y` one past the last row the
/// character starts a new row; past that, nothing changes.
pub open spec fn with_char(rows: Seq<Seq<char>>, x: int, y: int, c: char) -> Seq<Seq<char>> {
    if y < 0 || y > rows.len() {
        rows
    } else if c == '\n' {
        with_newline(rows, x, y)
    } else if y == rows.len() {
        rows.push(seq![c])
    } else {
        rows.update(y, inserted(rows[y], x, c))
    }
}

/// `rows` after the cluster at column `x` of row `y` was deleted. At the end
/// of a row that has a successor, the successor is joined to the row. With no
/// row `y`, nothing changes.
pub open spec fn without_cluster(rows: Seq<Seq<char>>, x: int, y: int) -> Seq<Seq<char>> {
    if y < 0 || y >= rows.len() {
        rows
    } else if x == cluster_count(rows[y]) && y + 1 < rows.len() {
        rows.update(y, rows[y] + rows[y + 1]).remove(y + 1)
    } else {
        rows.update(y, deleted(rows[y], x))
    }
}

/// The texts of a sequence of rows.
pub open spec fn row_texts(rows: Seq<Row>) -> Seq<Seq<char>> {
    Seq::new(rows.len(), |i: int| rows[i]@)
}

/// A text as a sequence of rows.
#[derive(Debug)]
pub struct Document {
    rows: Vec<Row>,
    dirty: bool,
}

impl View for Document {
    type V = Seq<Seq<char>>;

    closed spec fn view(&self) -> Seq<Seq<char>> {
        row_texts(self.rows@)
    }
}

impl Document {
    /// Whether the document was edited since it was made.
    pub closed spec fn dirty(&self) -> bool {
        self.dirty
    }

    /// The document that holds the lines of `content`, not yet edited.
    pub fn new(content: String) -> (document: Document)
        ensures
            document@ == crate::text::lines(content@),
            !document.dirty(),
    {
        let lines = split_lines(content.as_str());
        let mut rows: Vec<Row> = Vec::new();
        let mut i: usize = 0;
        while i < lines.len()
            invariant
                i <= lines.len(),
                rows@.len() == i,
                forall|j: int| 0 <= j < i ==> (#[trigger] rows@[j])@ == lines@[j]@,
            decreases lines.len() - i,
        {
            let row = Row::from(lines[i].as_str());
            rows.push(row);
            i += 1;
        }
        assert(row_texts(rows@) =~= texts(lines@));
        Document { rows, dirty: false }
    }

    /// The row with the given index, if there is one.
    pub fn row(&self, index: usize) -> (row: Option<&Row>)
        ensures
            index < self@.len() ==> row is Some && row->0@ == self@[index as int],
            index >= self@.len() ==> row is None,
    {
        if index < self.rows.len() {
            Some(&self.rows[index])
        } else {
            None
        }
    }

    /// Whether the document has no row.
    pub fn is_empty(&self) -> (empty: bool)
        ensures
            empty == (self@.len() == 0),
    {
        self.rows.len() == 0
    }

    /// The number of rows.
    pub fn len(&self) -> (n: usize)
        ensures
            n == self@.len(),
    {
        self.rows.len()
    }

    /// Breaks the row at `at` in two. One past the last row this adds an
    /// empty row; past that, nothing happens.
    pub fn insert_newline(&mut self, at: &Position)
        ensures
            final(self)@ == with_newline(old(self)@, at.x as int, at.y as int),
            final(self).dirty() == old(self).dirty(),
    {
        if at.y > self.rows.len() {
            return ;
        }
        if at.y == self.rows.len() {
            self.rows.push(Row::default());
            assert(self@ =~= with_newline(old(self)@, at.x as int, at.y as int));
            return ;
        }
        let new_row = self.rows[at.y].split(at.x);
        self.rows.insert(at.y + 1, new_row);
        assert(self@ =~= with_newline(old(self)@, at.x as int, at.y as int));
    }

    /// Types `c` at `at` and marks the document as edited. A line feed
    /// breaks the row. One past the last row the character starts a new row;
    /// past that, nothing happens and the document is not marked.
    pub fn insert(&mut self, at: &Position, c: char)
        ensures
            final(self)@ == with_char(old(self)@, at.x as int, at.y as int, c),
            final(self).dirty() == (old(self).dirty() || at.y <= old(self)@.len()),
    {
        if at.y > self.rows.len() {
            return ;
        }
        self.dirty = true;
        if c == '\n' {
            self.insert_newline(at);
            return ;
        }
        if at.y == self.rows.len() {
            let mut row = Row::default();
            row.insert(0, c);
            assert(row@ =~= seq![c]);
            self.rows.push(row);
            assert(self@ =~= with_char(old(self)@, at.x as int, at.y as int, c));
        } else {
            self.rows[at.y].insert(at.x, c);
            assert(self@ =~= with_char(old(self)@, at.x as int, at.y as int, c));
        }
    }

    /// Deletes the cluster at `at` and marks the document as edited. At the
    /// end of a row the next row is joined to it. Where there is no row
    /// `at.y`, nothing happens and the document is not marked.
    pub fn delete(&mut self, at: &Position)
        ensures
            final(self)@ == without_cluster(old(self)@, at.x as int, at.y as int),
            final(self).dirty() == (old(self).dirty() || at.y < old(self)@.len()),
    {
        let len = self.rows.len();
        if at.y >= len {
            return ;
        }
        self.dirty = true;
        if at.x == self.rows[at.y].len() && at.y + 1 < len {
            let next_row = self.rows.remove(at.y + 1);
            self.rows[at.y].append(&next_row);
            assert(self@ =~= without_cluster(old(self)@, at.x as int, at.y as int));
        } else {
            self.rows[at.y].delete(at.x);
            assert(self@ =~= without_cluster(old(self)@, at.x as int, at.y as int));
        }
    }
}

impl Default for Document {
    /// The document without rows.
    fn default() -> (document: Document)
        ensures
            document@ == Seq::<Seq<char>>::empty(),
            !document.dirty(),
    {
        let document = Document { rows: Vec::new(), dirty: false };
        assert(document@ =~= Seq::<Seq<char>>::empty());
        document
    }
}

impl Clone for Document {
    fn clone(&self) -> (document: Document)
        ensures
            document@ == self@,
            document.dirty() == self.dirty(),
    {
        let mut rows: Vec<Row> = Vec::new();
        let mut i: usize = 0;
        while i < self.rows.len()
            invariant
                i <= self.rows.len(),
                rows@.len() == i,
                forall|j: int| 0 <= j < i ==> (#[trigger] rows@[j])@ == self.rows@[j]@,
            decreases self.rows.len() - i,
        {
            let row = self.rows[i].clone();
            rows.push(row);
            i += 1;
        }
        assert(row_texts(rows@) =~= row_texts(self.rows@));
        Document { rows, dirty: self.dirty }
    }
}

/// The number of clusters in row `y`; 0 where there is no such row.
pub open spec fn row_len(rows: Seq<Seq<char>>, y: int) -> int {
    if 0 <= y < rows.len() {
        cluster_count(rows[y]) as int
    } else {
        0
    }
}

/// Where the cursor stands after `key`. Left and Right go on to the
/// neighbouring row at the ends of a row; Down may reach the place one past
/// the last row; the column never lies past the end of the row arrived at.
/// Keys that do not move the cursor only have the column held to the row.
pub open spec fn moved(rows: Seq<Seq<char>>, cursor: Position, key: Key) -> Position {
    let x = cursor.x as int;
    let y = cursor.y as int;
    let (x1, y1) = match key {
        Key::Up => (x, if y > 0 { y - 1 } else { 0 }),
        Key::Down => (x, if y < rows.len() { y + 1 } else { y }),
        Key::Left => if x > 0 {
            (x - 1, y)
        } else if y > 0 {
            (row_len(rows, y - 1), y - 1)
        } else {
            (x, y)
        },
        Key::Right => if x < row_len(rows, y) {
            (x + 1, y)
        } else if y < rows.len() {
            (0, y + 1)
        } else {
            (x, y)
        },
        _ => (x, y),
    };
    let width = row_len(rows, y1);
    Position { x: (if x1 > width { width } else { x1 }) as usize, y: y1 as usize }
}

/// `value`, held to what a `usize` can hold.
pub open spec fn clipped(value: int) -> int {
    if value > usize::MAX {
        usize::MAX as int
    } else {
        value
    }
}

/// The scroll offset along one axis that keeps `cursor` in view: the old one
/// where the cursor is inside `offset .. offset + extent`, else the nearest
/// one that shows it.
pub open spec fn scrolled_axis(offset: int, cursor: int, extent: int) -> int {
    if cursor < offset {
        cursor
    } else if cursor >= clipped(offset + extent) {
        clipped(cursor - extent + 1)
    } else {
        offset
    }
}

/// What an editor holds: the rows of its document, the cursor and the scroll
/// offset of its viewport.
pub struct EditorView {
    pub rows: Seq<Seq<char>>,
    pub cursor: Position,
    pub offset: Position,
}

/// The editor after its viewport followed the cursor.
pub open spec fn scrolled(view: EditorView, area: Rect) -> EditorView {
    EditorView {
        offset: Position {
            x: scrolled_axis(view.offset.x as int, view.cursor.x as int, area.width as int) as usize,
            y: scrolled_axis(view.offset.y as int, view.cursor.y as int, area.height as int) as usize,
        },
        ..view
    }
}

/// Whether the cursor is in view along each axis along which `area` is not
/// empty: not before the offset, and less than the extent of the area
/// behind it.
pub open spec fn in_view(view: EditorView, area: Rect) -> bool {
    &&& area.width > 0 ==> view.offset.x <= view.cursor.x < view.offset.x + area.width
    &&& area.height > 0 ==> view.offset.y <= view.cursor.y < view.offset.y + area.height
}

/// The editor after `key`, before its viewport follows.
pub open spec fn typed(view: EditorView, key: Key) -> EditorView {
    match key {
        Key::Char(c) => {
            let rows = with_char(view.rows, view.cursor.x as int, view.cursor.y as int, c);
            EditorView { rows, cursor: moved(rows, view.cursor, Key::Right), ..view }
        },
        Key::Delete => EditorView {
            rows: without_cluster(view.rows, view.cursor.x as int, view.cursor.y as int),
            ..view
        },
        Key::Backspace => if view.cursor.x > 0 || view.cursor.y > 0 {
            let cursor = moved(view.rows, view.cursor, Key::Left);
            EditorView {
                rows: without_cluster(view.rows, cursor.x as int, cursor.y as int),
                cursor,
                ..view
            }
        } else {
            view
        },
        Key::Up | Key::Down | Key::Left | Key::Right => EditorView {
            cursor: moved(view.rows, view.cursor, key),
            ..view
        },
        Key::ShiftEnter => EditorView { cursor: moved(view.rows, view.cursor, Key::Down), ..view },
        _ => view,
    }
}

/// The editor after `key` was pressed while it is shown in `area`.
pub open spec fn pressed(view: EditorView, key: Key, area: Rect) -> EditorView {
    scrolled(typed(view, key), area)
}

/// The number of rows that an area shows: one less than its height.
pub open spec fn visible_rows(rows: Seq<Seq<char>>, area: Rect) -> int {
    let room = if area.height > 0 {
        area.height - 1
    } else {
        0
    };
    if room < rows.len() {
        room
    } else {
        rows.len() as int
    }
}

/// What is drawn of a document in `area`: its first rows, as many as are
/// visible, each from its first column to the width of the area.
pub open spec fn rendered_rows(rows: Seq<Seq<char>>, area: Rect) -> Seq<Seq<char>> {
    Seq::new(visible_rows(rows, area) as nat, |i: int| rendered(rows[i], 0, area.width as int))
}

/// `std::io::Error`, the error that handling a key names in its result. The
/// editor hands none out; nothing is claimed of its values.
#[verifier::external_type_specification]
#[verifier::external_body]
pub struct ExIoError(std::io::Error);

/// A document under edit, with a cursor and a viewport.
#[derive(Debug)]
pub struct Editor {
    cursor_position: Position,
    offset: Position,
    document: Document,
}

impl View for Editor {
    type V = EditorView;

    closed spec fn view(&self) -> EditorView {
        EditorView { rows: self.document@, cursor: self.cursor_position, offset: self.offset }
    }
}

impl Editor {
    /// An editor on an empty document, with cursor and viewport at its start.
    pub fn new() -> (editor: Editor)
        ensures
            editor@.rows == Seq::<Seq<char>>::empty(),
            editor@.cursor == (Position { x: 0, y: 0 }),
            editor@.offset == (Position { x: 0, y: 0 }),
    {
        Editor {
            cursor_position: Position::default(),
            document: Document::new(String::new()),
            offset: Position::default(),
        }
    }

    /// Replaces the document by the lines of `content` and puts the cursor
    /// at its start. The viewport stays where it is.
    pub fn set_content(&mut self, content: String)
        ensures
            final(self)@.rows == crate::text::lines(content@),
            final(self)@.cursor == (Position { x: 0, y: 0 }),
            final(self)@.offset == old(self)@.offset,
    {
        self.cursor_position = Position::default();
        self.document = Document::new(content);
    }

    /// What is drawn of `row` in `area`: its clusters from the first column
    /// to the width of the area.
    pub fn render_row(&self, row: &Row, area: Rect) -> (line: String)
        ensures
            line@ == rendered(row@, 0, area.width as int),
    {
        row.render(0, area.width as usize)
    }

    /// What is drawn of the document in `area`, row by row.
    pub fn render_rows(&self, area: Rect) -> (lines: Vec<String>)
        ensures
            texts(lines@) == rendered_rows(self@.rows, area),
    {
        let room = if area.height > 0 {
            (area.height - 1) as usize
        } else {
            0
        };
        let count = if room < self.document.len() {
            room
        } else {
            self.document.len()
        };
        let mut lines: Vec<String> = Vec::new();
        let mut i: usize = 0;
        while i < count
            invariant
                i <= count <= self.document@.len(),
                lines@.len() == i,
                forall|j: int|
                    0 <= j < i ==> (#[trigger] lines@[j])@ == rendered(
                        self.document@[j],
                        0,
                        area.width as int,
                    ),
            decreases count - i,
        {
            if let Some(row) = self.document.row(i) {
                lines.push(self.render_row(row, area));
            }
            i += 1;
        }
        assert(texts(lines@) =~= rendered_rows(self@.rows, area));
        lines
    }

    /// Handles a key: a character is typed at the cursor, which then moves
    /// right; Delete removes the cluster at the cursor and Backspace the one
    /// before it; the arrow keys move the cursor, and Shift+Enter moves it
    /// down. Afterwards the viewport follows the cursor. Other keys only have
    /// the viewport follow. Never fails.
    pub fn process_keypress(&mut self, key: Key, area: Rect) -> (result: Result<(), std::io::Error>)
        ensures
            result is Ok,
            final(self)@ == pressed(old(self)@, key, area),
            in_view(final(self)@, area),
    {
        match key {
            Key::Char(c) => {
                self.document.insert(&self.cursor_position, c);
                self.move_cursor(Key::Right, area);
            },
            Key::Delete => self.document.delete(&self.cursor_position),
            Key::Backspace => {
                if self.cursor_position.x > 0 || self.cursor_position.y > 0 {
                    self.move_cursor(Key::Left, area);
                    self.document.delete(&self.cursor_position);
                }
            },
            Key::Up | Key::Down | Key::Left | Key::Right => self.move_cursor(key, area),
            Key::ShiftEnter => self.move_cursor(Key::Down, area),
            _ => (),
        }
        self.scroll(area);
        Ok(())
    }

    /// Lets the viewport follow the cursor: along each axis the offset moves
    /// only as far as is needed to show the cursor. In an area that is not
    /// empty the cursor is in view afterwards.
    pub fn scroll(&mut self, area: Rect)
        ensures
            final(self)@ == scrolled(old(self)@, area),
            in_view(final(self)@, area),
    {
        let x = self.cursor_position.x;
        let y = self.cursor_position.y;
        let width = area.width as usize;
        let height = area.height as usize;
        if y < self.offset.y {
            self.offset.y = y;
        } else if y >= self.offset.y.saturating_add(height) {
            self.offset.y = y.saturating_sub(height).saturating_add(1);
        }
        if x < self.offset.x {
            self.offset.x = x;
        } else if x >= self.offset.x.saturating_add(width) {
            self.offset.x = x.saturating_sub(width).saturating_add(1);
        }
    }

    /// Moves the cursor as `key` says. At the start of the document, Left
    /// leaves the cursor where it is.
    pub fn move_cursor(&mut self, key: Key, area: Rect)
        ensures
            final(self)@.cursor == moved(old(self)@.rows, old(self)@.cursor, key),
            final(self)@.rows == old(self)@.rows,
            final(self)@.offset == old(self)@.offset,
            final(self)@.cursor.x <= row_len(final(self)@.rows, final(self)@.cursor.y as int),
            key == Key::Left && old(self)@.cursor == (Position { x: 0, y: 0 }) ==> final(self)@.cursor
                == old(self)@.cursor,
    {
        let mut y = self.cursor_position.y;
        let mut x = self.cursor_position.x;
        let height = self.document.len();
        let mut width = if let Some(row) = self.document.row(y) {
            row.len()
        } else {
            0
        };
        match key {
            Key::Up => y = y.saturating_sub(1),
            Key::Down => {
                if y < height {
                    y = y.saturating_add(1);
                }
            },
            Key::Left => {
                if x > 0 {
                    x -= 1;
                } else if y > 0 {
                    y -= 1;
                    if let Some(row) = self.document.row(y) {
                        x = row.len();
                    } else {
                        x = 0;
                    }
                }
            },
            Key::Right => {
                if x < width {
                    x += 1;
                } else if y < height {
                    y += 1;
                    x = 0;
                }
            },
            _ => (),
        }
        width = if let Some(row) = self.document.row(y) {
            row.len()
        } else {
            0
        };
        if x > width {
            x = width;
        }
        self.cursor_position = Position { x, y };
    }

    /// Where the cursor stands.
    pub fn cursor_position(&self) -> (position: &Position)
        ensures
            *position == self@.cursor,
    {
        &self.cursor_position
    }

    /// The scroll offset of the viewport.
    pub fn offset(&self) -> (position: &Position)
        ensures
            *position == self@.offset,
    {
        &self.offset
    }

    /// The document under edit.
    pub fn document(&self) -> (document: &Document)
        ensures
            document@ == self@.rows,
    {
        &self.document
    }
}

impl Clone for Editor {
    fn clone(&self) -> (editor: Editor)
        ensures
            editor@ == self@,
    {
        Editor {
            cursor_position: self.cursor_position,
            offset: self.offset,
            document: self.document.clone(),
        }
    }
}

/// After scrolling the cursor is in view, wherever cursor and viewport
/// were before.
pub proof fn lemma_scrolled_in_view(view: EditorView, area: Rect)
    ensures
        in_view(scrolled(view, area), area),
        scrolled(view, area).cursor == view.cursor,
        scrolled(view, area).rows == view.rows,
{
}

/// Whether rows and columns of `rows` can be counted in a `usize`, as they
/// can in every document.
pub open spec fn addressable(rows: Seq<Seq<char>>) -> bool {
    &&& rows.len() <= usize::MAX
    &&& forall|y: int| 0 <= y < rows.len() ==> #[trigger] cluster_count(rows[y]) <= usize::MAX
}

/// Wherever the cursor is moved, its column is not past the end of the row
/// that it arrives in, and its row is not past the place behind the last
/// row if it was not before.
pub proof fn lemma_cursor_in_row(rows: Seq<Seq<char>>, cursor: Position, key: Key)
    ensures
        addressable(rows) ==> moved(rows, cursor, key).x <= row_len(
            rows,
            moved(rows, cursor, key).y as int,
        ),
        addressable(rows) && cursor.y <= rows.len() ==> moved(rows, cursor, key).y <= rows.len(),
{
    let y = cursor.y as int;
    if !addressable(rows) {
    } else if 0 < y <= rows.len() {
        assert(cluster_count(rows[y - 1]) <= usize::MAX);
    }
    if addressable(rows) && y < rows.len() {
        assert(cluster_count(rows[y]) <= usize::MAX);
    }
    if addressable(rows) && y + 1 < rows.len() {
        assert(cluster_count(rows[y + 1]) <= usize::MAX);
    }
}

/// Left at the start of a document leaves the cursor there.
pub proof fn lemma_left_at_start(rows: Seq<Seq<char>>)
    ensures
        moved(rows, Position { x: 0, y: 0 }, Key::Left) == (Position { x: 0, y: 0 }),
{
}

/// A character stays a cluster of its own where it is put into `text` at
/// cluster `at`: the clusters around it are those of `text`.
pub open spec fn stands_alone(text: Seq<char>, at: int, c: char) -> bool {
    grapheme_clusters(inserted(text, at, c)) == grapheme_clusters(text).insert(at, seq![c])
}

/// Whether typing `c` at column `x` of row `y` leaves the clusters of that
/// row as they are: a line feed cuts the row at a cluster boundary that the
/// first part keeps, and any other character stays a cluster of its own.
pub open spec fn settled(rows: Seq<Seq<char>>, x: int, y: int, c: char) -> bool {
    &&& 0 <= y < rows.len()
    &&& 0 <= x <= cluster_count(rows[y])
    &&& partitioned(rows[y])
    &&& if c == '\n' {
        cluster_count(head(rows[y], x)) == x
    } else {
        stands_alone(rows[y], x, c)
    }
}

/// Putting a character into a text and deleting at the same place gives the
/// text back, as long as the character stays a cluster of its own.
pub proof fn lemma_insert_then_delete(text: Seq<char>, at: int, c: char)
    ensures
        partitioned(text) && 0 <= at <= cluster_count(text) && stands_alone(text, at, c) ==> deleted(
            inserted(text, at, c),
            at,
        ) == text,
{
    if partitioned(text) && 0 <= at <= cluster_count(text) && stands_alone(text, at, c) {
        let clusters = grapheme_clusters(text);
        let n = clusters.len() as int;
        let after = clusters.insert(at, seq![c]);
        assert(after.subrange(0, at) =~= clusters.subrange(0, at));
        assert(after.subrange(at + 1, n + 1) =~= clusters.subrange(at, n));
        lemma_split(text, at);
        assert(joined_without(after, at) == head(text, at) + tail(text, at));
    }
}

/// Typing a character into a document and deleting at the same position
/// gives back the document, row contents and row lengths alike, as long as
/// the clusters of the row stay as they are.
pub proof fn lemma_type_then_delete(rows: Seq<Seq<char>>, x: int, y: int, c: char)
    ensures
        settled(rows, x, y, c) ==> without_cluster(with_char(rows, x, y, c), x, y) == rows,
{
    if settled(rows, x, y, c) {
        lemma_split(rows[y], x);
        if c == '\n' {
            let cut = rows.update(y, head(rows[y], x)).insert(y + 1, tail(rows[y], x));
            assert(cut[y] == head(rows[y], x));
            assert(cut[y + 1] == tail(rows[y], x));
            assert(cut.update(y, cut[y] + cut[y + 1]).remove(y + 1) =~= rows);
        } else {
            lemma_insert_then_delete(rows[y], x, c);
            let put = rows.update(y, inserted(rows[y], x, c));
            assert(cluster_count(put[y]) == cluster_count(rows[y]) + 1);
            assert(put.update(y, deleted(put[y], x)) =~= rows);
        }
    }
}

} // verus!

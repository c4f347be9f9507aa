//! The structured preamble of a document: how it is split off the body, and
//! the settings it carries.

use vstd::prelude::*;
use crate::lines::{
    after_line, ended_lines, has_crlf, join_lines, join_range, lemma_join_concat,
    lemma_join_lines_of, lemma_join_parts, lemma_line_ends_bounds, lemma_lines_after,
    lemma_lines_concat, lemma_no_line_feed_one_line, lemma_open_line_last, line_ends, lines_of,
    open_line, split_lines, text_after_line,
};
use crate::text::texts;

verus! {

/// How a named page size is turned.
#[derive(Debug, Clone, Copy, PartialEq, Eq, Structural)]
pub enum PageOrientation {
    Portrait,
    Landscape,
}

/// The size of a page: a named format with its orientation, or a width and a
/// height given as dimensions.
#[derive(Debug)]
pub enum PageSize {
    Named { name: String, orientation: PageOrientation },
    Explicit { width: String, height: String },
}

/// What a `PageSize` holds, as plain text.
pub enum PageSizeView {
    Named { name: Seq<char>, orientation: PageOrientation },
    Explicit { width: Seq<char>, height: Seq<char> },
}

impl View for PageSize {
    type V = PageSizeView;

    open spec fn view(&self) -> PageSizeView {
        match *self {
            PageSize::Named { name, orientation } => PageSizeView::Named {
                name: name@,
                orientation,
            },
            PageSize::Explicit { width, height } => PageSizeView::Explicit {
                width: width@,
                height: height@,
            },
        }
    }
}

impl Default for PageSize {
    /// A4, upright.
    fn default() -> (size: Self)
        ensures
            size@ == default_page_size(),
    {
        PageSize::Named { name: "A4".to_owned(), orientation: PageOrientation::Portrait }
    }
}

impl Clone for PageSize {
    fn clone(&self) -> (copy: Self)
        ensures
            copy@ == self@,
    {
        match self {
            PageSize::Named { name, orientation } => PageSize::Named {
                name: name.clone(),
                orientation: *orientation,
            },
            PageSize::Explicit { width, height } => PageSize::Explicit {
                width: width.clone(),
                height: height.clone(),
            },
        }
    }
}

/// The page size of a document that names none.
pub open spec fn default_page_size() -> PageSizeView {
    PageSizeView::Named { name: "A4"@, orientation: PageOrientation::Portrait }
}

/// The four margins of a page, each a dimension.
#[derive(Debug)]
pub struct PageMargin {
    pub top: String,
    pub right: String,
    pub bottom: String,
    pub left: String,
}

/// What a `PageMargin` holds, as plain text.
pub struct PageMarginView {
    pub top: Seq<char>,
    pub right: Seq<char>,
    pub bottom: Seq<char>,
    pub left: Seq<char>,
}

impl View for PageMargin {
    type V = PageMarginView;

    open spec fn view(&self) -> PageMarginView {
        PageMarginView {
            top: self.top@,
            right: self.right@,
            bottom: self.bottom@,
            left: self.left@,
        }
    }
}

/// The margins of a document that names none: three quarters of an inch on
/// every side.
pub open spec fn default_page_margin() -> PageMarginView {
    PageMarginView { top: "0.75in"@, right: "0.75in"@, bottom: "0.75in"@, left: "0.75in"@ }
}

impl Default for PageMargin {
    fn default() -> (margin: Self)
        ensures
            margin@ == default_page_margin(),
    {
        PageMargin {
            top: "0.75in".to_owned(),
            right: "0.75in".to_owned(),
            bottom: "0.75in".to_owned(),
            left: "0.75in".to_owned(),
        }
    }
}

impl Clone for PageMargin {
    fn clone(&self) -> (copy: Self)
        ensures
            copy@ == self@,
    {
        PageMargin {
            top: self.top.clone(),
            right: self.right.clone(),
            bottom: self.bottom.clone(),
            left: self.left.clone(),
        }
    }
}

/// The page settings of a document.
#[derive(Debug)]
pub struct PageConfig {
    pub size: PageSize,
    pub margin: PageMargin,
}

/// What a `PageConfig` holds, as plain text.
pub struct PageConfigView {
    pub size: PageSizeView,
    pub margin: PageMarginView,
}

impl View for PageConfig {
    type V = PageConfigView;

    open spec fn view(&self) -> PageConfigView {
        PageConfigView { size: self.size@, margin: self.margin@ }
    }
}

impl Default for PageConfig {
    fn default() -> (page: Self)
        ensures
            page@ == (PageConfigView { size: default_page_size(), margin: default_page_margin() }),
    {
        PageConfig { size: PageSize::default(), margin: PageMargin::default() }
    }
}

impl Clone for PageConfig {
    fn clone(&self) -> (copy: Self)
        ensures
            copy@ == self@,
    {
        PageConfig { size: self.size.clone(), margin: self.margin.clone() }
    }
}

/// The settings of the document as a whole.
#[derive(Debug)]
pub struct DocConfig {
    pub title: String,
}

/// What a `DocConfig` holds, as plain text.
pub struct DocConfigView {
    pub title: Seq<char>,
}

impl View for DocConfig {
    type V = DocConfigView;

    open spec fn view(&self) -> DocConfigView {
        DocConfigView { title: self.title@ }
    }
}

impl Default for DocConfig {
    fn default() -> (document: Self)
        ensures
            document@ == (DocConfigView { title: "Untitled Document"@ }),
    {
        DocConfig { title: "Untitled Document".to_owned() }
    }
}

impl Clone for DocConfig {
    fn clone(&self) -> (copy: Self)
        ensures
            copy@ == self@,
    {
        DocConfig { title: self.title.clone() }
    }
}

/// The settings that a preamble carries. Every one of them has a default, so
/// a preamble may name any part of them, or none.
#[derive(Debug)]
pub struct FrontMatter {
    pub document: DocConfig,
    pub page: PageConfig,
}

/// What a `FrontMatter` holds, as plain text.
pub struct FrontMatterView {
    pub document: DocConfigView,
    pub page: PageConfigView,
}

impl View for FrontMatter {
    type V = FrontMatterView;

    open spec fn view(&self) -> FrontMatterView {
        FrontMatterView { document: self.document@, page: self.page@ }
    }
}

/// The settings of a document without a preamble.
pub open spec fn default_frontmatter() -> FrontMatterView {
    FrontMatterView {
        document: DocConfigView { title: "Untitled Document"@ },
        page: PageConfigView { size: default_page_size(), margin: default_page_margin() },
    }
}

impl Default for FrontMatter {
    fn default() -> (frontmatter: Self)
        ensures
            frontmatter@ == default_frontmatter(),
    {
        FrontMatter { document: DocConfig::default(), page: PageConfig::default() }
    }
}

impl Clone for FrontMatter {
    fn clone(&self) -> (copy: Self)
        ensures
            copy@ == self@,
    {
        FrontMatter { document: self.document.clone(), page: self.page.clone() }
    }
}

/// The line that opens and closes a preamble.
pub open spec fn delimiter() -> Seq<char> {
    seq!['-', '-', '-']
}

/// The index of the first line at or after `from` that is the delimiter, and
/// the number of lines where there is none.
pub open spec fn next_delimiter(lines: Seq<Seq<char>>, from: int) -> int
    decreases lines.len() - from,
{
    if from < 0 || from >= lines.len() {
        lines.len() as int
    } else if lines[from] == delimiter() {
        from
    } else {
        next_delimiter(lines, from + 1)
    }
}

/// Whether a text starts with a preamble: it has more than two lines, the
/// first of them is the delimiter, and a later line is the delimiter again.
pub open spec fn has_preamble(content: Seq<char>) -> bool {
    let lines = lines_of(content);
    lines.len() > 2 && lines[0] == delimiter() && next_delimiter(lines, 1) < lines.len()
}

/// The lines between the opening delimiter and the first delimiter after it.
pub open spec fn preamble_lines(content: Seq<char>) -> Seq<Seq<char>> {
    let lines = lines_of(content);
    lines.subrange(1, next_delimiter(lines, 1))
}

/// The lines after the delimiter that closes the preamble.
pub open spec fn body_lines(content: Seq<char>) -> Seq<Seq<char>> {
    let lines = lines_of(content);
    lines.subrange(next_delimiter(lines, 1) + 1, lines.len() as int)
}

/// The preamble of a text that has one, without the two delimiters.
pub open spec fn preamble_of(content: Seq<char>) -> Seq<char> {
    join_lines(preamble_lines(content))
}

/// Where the body of a text with a preamble starts: right behind the
/// terminator of the closing delimiter's line, and at the end of the text
/// where that line ends the text.
pub open spec fn body_start(content: Seq<char>) -> int {
    after_line(content, next_delimiter(lines_of(content), 1))
}

/// The body of a text. Where the text has a preamble, it is the rest of the
/// text from `body_start` on, unchanged; where it has none, it is the whole
/// text.
pub open spec fn body_of(content: Seq<char>) -> Seq<char> {
    if has_preamble(content) {
        content.skip(body_start(content))
    } else {
        content
    }
}

fn is_delimiter(line: &String) -> (yes: bool)
    ensures
        yes == (line@ == delimiter()),
{
    proof {
        reveal_strlit("---");
    }
    assert("---"@ == delimiter());
    let token = "---".to_owned();
    *line == token
}

/// Splits a document into its preamble and its body. The preamble is there
/// when the document has more than two lines, the first line is the delimiter
/// and a later line repeats it; it is made of the lines between the two,
/// joined by line feeds. The body is everything behind the line of the second
/// delimiter, character for character. A document without a preamble is its
/// own body.
pub fn split_by_frontmatter(content: &str) -> (parts: (Option<String>, String))
    ensures
        has_preamble(content@) <==> parts.0 is Some,
        parts.0 matches Some(preamble) ==> preamble@ == preamble_of(content@),
        parts.1@ == body_of(content@),
        lines_of(content@).len() == 0 || lines_of(content@)[0] != delimiter() ==> parts.0 is None
            && parts.1@ == content@,
{
    let lines = split_lines(content);
    if lines.len() > 2 && is_delimiter(&lines[0]) {
        let mut i: usize = 1;
        while i < lines.len() && !is_delimiter(&lines[i])
            invariant
                1 <= i <= lines.len(),
                next_delimiter(texts(lines@), 1) == next_delimiter(texts(lines@), i as int),
            decreases lines.len() - i,
        {
            i += 1;
        }
        if i < lines.len() {
            let preamble = join_range(&lines, 1, i);
            let body = text_after_line(content, i);
            return (Some(preamble), body);
        }
    }
    (None, content.to_owned())
}

/// A preamble and a body put together again: each delimiter on a line of its
/// own, the preamble between them and the body after the second.
pub open spec fn rejoined(preamble: Seq<char>, body: Seq<char>) -> Seq<char> {
    delimiter() + seq!['\n'] + preamble + seq!['\n'] + delimiter() + seq!['\n'] + body
}

proof fn lemma_next_delimiter(lines: Seq<Seq<char>>, from: int)
    requires
        0 <= from,
    ensures
        from <= next_delimiter(lines, from) || next_delimiter(lines, from) == lines.len(),
        next_delimiter(lines, from) <= lines.len(),
        next_delimiter(lines, from) < lines.len() ==> lines[next_delimiter(lines, from)]
            == delimiter(),
        forall|j: int| from <= j < next_delimiter(lines, from) ==> lines[j] != delimiter(),
    decreases lines.len() - from,
{
    if from < lines.len() && lines[from] != delimiter() {
        lemma_next_delimiter(lines, from + 1);
    }
}

/// The delimiter that closes a preamble is the first one after the opening
/// line: no line of the preamble is the delimiter. The lines of the text are
/// the opening delimiter, the preamble's lines, the closing delimiter and the
/// lines of the body, in this order.
pub proof fn law_split_keeps_lines(content: Seq<char>)
    requires
        has_preamble(content),
    ensures
        forall|j: int|
            0 <= j < preamble_lines(content).len() ==> preamble_lines(content)[j] != delimiter(),
        lines_of(body_of(content)) == body_lines(content),
        lines_of(content) == seq![delimiter()] + preamble_lines(content) + seq![delimiter()]
            + lines_of(body_of(content)),
{
    let lines = lines_of(content);
    let close = next_delimiter(lines, 1);
    lemma_next_delimiter(lines, 1);
    lemma_line_ends_bounds(content);
    assert forall|j: int| 0 <= j < preamble_lines(content).len() implies preamble_lines(
        content,
    )[j] != delimiter() by {
        assert(preamble_lines(content)[j] == lines[j + 1]);
    }
    if close < line_ends(content).len() {
        lemma_lines_after(content, close);
        assert(lines.skip(close + 1) == body_lines(content));
    } else {
        assert(body_of(content) == Seq::<char>::empty());
        assert(body_lines(content) == Seq::<Seq<char>>::empty());
    }
    assert(lines =~= seq![delimiter()] + preamble_lines(content) + seq![delimiter()] + body_lines(
        content,
    ));
}

/// The body is the end of the document: the document is what stands before
/// the body, which is empty or ends with the line feed of the closing
/// delimiter's line, and then the body.
pub proof fn law_body_is_the_rest(content: Seq<char>)
    requires
        has_preamble(content),
    ensures
        0 < body_start(content) <= content.len(),
        content.take(body_start(content)) + body_of(content) == content,
        body_start(content) < content.len() ==> content[body_start(content) - 1] == '\n',
{
    lemma_line_ends_bounds(content);
    lemma_next_delimiter(lines_of(content), 1);
}

/// Splitting undoes joining. A preamble without a carriage return, none of
/// whose lines is the delimiter, and any body at all, put together with the
/// two delimiter lines, are split into that preamble and that body, character
/// for character.
pub proof fn law_split_undoes_join(preamble: Seq<char>, body: Seq<char>)
    requires
        !preamble.contains('\r'),
        forall|i: int| 0 <= i < lines_of(preamble).len() ==> lines_of(preamble)[i] != delimiter(),
    ensures
        has_preamble(rejoined(preamble, body)),
        preamble_of(rejoined(preamble, body)) == preamble,
        body_of(rejoined(preamble, body)) == body,
{
    let d = delimiter();
    let nl = seq!['\n'];
    let content = rejoined(preamble, body);
    let first = d + nl;
    let middle = preamble + nl;
    let head = first + middle + first;
    let parts = ended_lines(preamble).push(open_line(preamble));
    assert(content == head + body);
    assert(!has_crlf(preamble)) by {
        if has_crlf(preamble) {
            let i = choose|i: int|
                0 < i < preamble.len() && #[trigger] preamble[i] == '\n' && preamble[i - 1] == '\r';
            assert(preamble.contains(preamble[i - 1]));
        }
    }
    // The first delimiter line.
    assert(!d.contains('\n')) by {
        if d.contains('\n') {
            let i = choose|i: int| 0 <= i < d.len() && d[i] == '\n';
        }
    }
    lemma_no_line_feed_one_line(d);
    assert(first.drop_last() == d);
    assert(ended_lines(first) == seq![d]) by {
        assert(d.last() == '-');
    }
    // The lines of the preamble.
    lemma_open_line_last(preamble);
    assert(middle.drop_last() == preamble);
    assert(ended_lines(middle) == parts) by {
        if open_line(preamble).len() > 0 {
            assert(preamble.contains(preamble.last())) by {
                assert(preamble[preamble.len() - 1] == preamble.last());
            }
        }
    }
    lemma_join_parts(preamble);
    assert forall|i: int| 0 <= i < parts.len() implies parts[i] != d by {
        if i < ended_lines(preamble).len() {
            assert(lines_of(preamble)[i] == parts[i]);
        } else if open_line(preamble).len() > 0 {
            assert(lines_of(preamble)[i] == parts[i]);
        }
    }
    // The head of the document and its lines.
    lemma_lines_concat(middle, first);
    assert(first + middle + first == first + (middle + first));
    lemma_lines_concat(first, middle + first);
    let head_lines = seq![d] + parts + seq![d];
    assert(ended_lines(head) == head_lines);
    lemma_lines_concat(head, body);
    let lines = lines_of(content);
    assert(lines == head_lines + lines_of(body));
    let close = parts.len() as int + 1;
    assert(lines[0] == d);
    assert(lines[close] == d);
    assert forall|j: int| 1 <= j < close implies lines[j] != d by {
        assert(lines[j] == parts[j - 1]);
    }
    lemma_next_delimiter(lines, 1);
    assert(next_delimiter(lines, 1) == close);
    assert(preamble_lines(content) == parts);
    // The body starts where the head ends.
    lemma_line_ends_bounds(head);
    assert(head.last() == '\n');
    assert(line_ends(content)[close] == head.len());
    assert(content.skip(head.len() as int) == body);
}

/// Splitting a document and putting the two parts together again gives the
/// document back, character for character, where the preamble has at least
/// one line, a line feed ends the line of the closing delimiter, and no line
/// up to there ends with a carriage return and a line feed.
pub proof fn law_split_round_trip(content: Seq<char>)
    requires
        has_preamble(content),
        preamble_lines(content).len() > 0,
        next_delimiter(lines_of(content), 1) < line_ends(content).len(),
        !has_crlf(content.take(body_start(content))),
    ensures
        rejoined(preamble_of(content), body_of(content)) == content,
{
    let lines = lines_of(content);
    let close = next_delimiter(lines, 1);
    let pre = preamble_lines(content);
    let d = seq![delimiter()];
    let head = content.take(body_start(content));
    lemma_next_delimiter(lines, 1);
    lemma_lines_after(content, close);
    lemma_open_line_last(head);
    lemma_join_lines_of(head);
    assert(lines_of(head) == ended_lines(head));
    assert(lines.take(close + 1) == d + pre + d);
    assert(join_lines(d) == delimiter());
    lemma_join_concat(d, pre);
    lemma_join_concat(d + pre, d);
    lemma_line_ends_bounds(content);
    assert(head + body_of(content) == content);
}

} // verus!

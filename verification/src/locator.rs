//! Finding the place in a README where the badges go: the end of its title heading.

use vstd::prelude::*;
use vstd::utf8::encode_utf8;
use crate::error::Failure;
use crate::text::chars_of;
use markdown::mdast::Node;
use markdown::message::Message;

verus! {

/// One place in the markup source.
#[derive(Clone, Copy, Debug, PartialEq, Eq, Structural)]
pub struct Point {
    /// Line, counted from 1.
    pub line: usize,
    /// Column, counted from 1.
    pub column: usize,
    /// Number of bytes of the source that stand before this place.
    pub offset: usize,
}

/// The stretch of the markup source that a block was read from.
#[derive(Clone, Copy, Debug, PartialEq, Eq, Structural)]
pub struct Position {
    /// The place of the block's first character.
    pub start: Point,
    /// The place just after the block's last character.
    pub end: Point,
}

/// A top-level block of a document, as far as the locator looks at it.
#[derive(Clone, Copy, Debug, PartialEq, Eq, Structural)]
pub enum Block {
    /// A heading of the given depth (1 is a title).
    Heading { depth: u8, position: Option<Position> },
    /// Anything else: a paragraph, a list, a comment.
    Other,
}

/// What the first heading among `blocks` says of the place where the title ends.
///
/// Blocks that are no headings are passed over. The first heading decides alone: it
/// must carry a position and have depth 1, and then its end offset is the answer.
pub open spec fn title_end(blocks: Seq<Block>) -> Result<usize, Failure>
    decreases blocks.len(),
{
    if blocks.len() == 0 {
        Err(Failure::MissingHeading)
    } else {
        match blocks[0] {
            Block::Heading { depth, position: None } => Err(Failure::PositionUnavailable { depth }),
            Block::Heading { depth, position: Some(position) } => if depth == 1 {
                Ok(position.end.offset)
            } else {
                Err(Failure::Structure { depth, position })
            },
            Block::Other => title_end(blocks.drop_first()),
        }
    }
}

/// Whether `blocks[at]` is a heading and no heading stands before it.
pub open spec fn is_first_heading(blocks: Seq<Block>, at: int) -> bool {
    &&& 0 <= at < blocks.len()
    &&& blocks[at] is Heading
    &&& forall|j: int| 0 <= j < at ==> blocks[j] is Other
}

/// The blocks before the first heading have no say: the outcome is that of the
/// heading taken alone.
pub proof fn lemma_first_heading_decides(blocks: Seq<Block>, at: int)
    requires
        is_first_heading(blocks, at),
    ensures
        title_end(blocks) == title_end(seq![blocks[at]]),
    decreases at,
{
    if at > 0 {
        let tail = blocks.drop_first();
        assert(blocks[0] is Other);
        assert forall|j: int| 0 <= j < at - 1 implies tail[j] is Other by {
            assert(tail[j] == blocks[j + 1]);
        }
        lemma_first_heading_decides(tail, at - 1);
    }
}

/// A first heading of any depth but 1 is a structure error that reports the heading's
/// depth and position.
pub proof fn lemma_subheading_first_is_structure_error(
    blocks: Seq<Block>,
    at: int,
    depth: u8,
    position: Position,
)
    requires
        is_first_heading(blocks, at),
        blocks[at] == (Block::Heading { depth, position: Some(position) }),
        depth != 1,
    ensures
        title_end(blocks) == Err::<usize, Failure>(Failure::Structure { depth, position }),
{
    lemma_first_heading_decides(blocks, at);
}

/// A first heading of depth 1 gives its end offset, whatever stands before or after it.
pub proof fn lemma_title_first_gives_its_end(blocks: Seq<Block>, at: int, position: Position)
    requires
        is_first_heading(blocks, at),
        blocks[at] == (Block::Heading { depth: 1, position: Some(position) }),
    ensures
        title_end(blocks) == Ok::<usize, Failure>(position.end.offset),
{
    lemma_first_heading_decides(blocks, at);
}

/// The heading is reported missing exactly where no block is a heading.
pub proof fn lemma_missing_heading_iff_no_heading(blocks: Seq<Block>)
    ensures
        title_end(blocks) == Err::<usize, Failure>(Failure::MissingHeading) <==> forall|j: int|
            0 <= j < blocks.len() ==> blocks[j] is Other,
    decreases blocks.len(),
{
    if blocks.len() > 0 {
        let tail = blocks.drop_first();
        lemma_missing_heading_iff_no_heading(tail);
        if blocks[0] is Other {
            if forall|j: int| 0 <= j < tail.len() ==> tail[j] is Other {
                assert forall|j: int| 0 <= j < blocks.len() implies blocks[j] is Other by {
                    if j > 0 {
                        assert(blocks[j] == tail[j - 1]);
                    }
                }
            }
            if forall|j: int| 0 <= j < blocks.len() ==> blocks[j] is Other {
                assert forall|j: int| 0 <= j < tail.len() implies tail[j] is Other by {
                    assert(tail[j] == blocks[j + 1]);
                }
            }
        }
    }
}

/// Scans `blocks` in order for the first heading and judges it.
pub fn first_heading_end(blocks: &Vec<Block>) -> (end: Result<usize, Failure>)
    ensures
        end == title_end(blocks@),
{
    let mut i: usize = 0;
    assert(blocks@.skip(0) == blocks@);
    while i < blocks.len()
        invariant
            0 <= i <= blocks.len(),
            title_end(blocks@) == title_end(blocks@.skip(i as int)),
        decreases blocks.len() - i,
    {
        let ghost rest = blocks@.skip(i as int);
        assert(rest[0] == blocks@[i as int]);
        match blocks[i] {
            Block::Heading { depth, position } => {
                return match position {
                    None => Err(Failure::PositionUnavailable { depth }),
                    Some(position) => if depth == 1 {
                        Ok(position.end.offset)
                    } else {
                        Err(Failure::Structure { depth, position })
                    },
                };
            },
            Block::Other => {
                assert(rest.drop_first() == blocks@.skip(i as int + 1));
            },
        }
        i += 1;
    }
    Err(Failure::MissingHeading)
}

/// The longest README that is handed to the markup parser, in bytes of UTF-8.
///
/// The parser's documentation advises such a cap against runs that take very long,
/// and calls 500 kB enough for a big book.
pub const MAX_README_BYTES: usize = 500_000;

/// The longest line prefix of a README that is handed to the markup parser.
///
/// The parser sets no limit to the depth of quotes and list items, and the tree that it
/// builds is taken apart level by level. Quotes and list items are opened, and gone on
/// with, in the prefix of a line only: each level takes a `>`, a bullet, a number or
/// two columns of blanks there, and a tab stands for four columns. So no line is more
/// than twice its prefix deep in quotes and list items, whatever the lines before it
/// hold.
pub const MAX_LINE_PREFIX: usize = 1_000;

/// The most span marks, in one stretch of lines without a blank line, of a README that
/// is handed to the markup parser.
///
/// The parser's documentation warns of texts in which thousands of links, images,
/// emphasis or strong are opened and not closed. A span ends with its paragraph at
/// the latest, and a blank line ends every paragraph, so a span and all spans inside
/// it lie in one such stretch; and each takes a mark of its own to open. So no place
/// is deeper in spans than its stretch has marks. The marks are counted whether or
/// not something closes them: a `]` or a second `*` may be escaped or stand in code,
/// where it closes nothing.
pub const MAX_OPEN_SPANS: usize = 1_000;

/// Whether `c` is one of the digits `0` to `9`.
pub open spec fn is_digit(c: char) -> bool {
    '0' <= c && c <= '9'
}

/// Whether `c` ends a line.
pub open spec fn is_line_end(c: char) -> bool {
    c == '\n' || c == '\r'
}

/// Whether `c` is a space or a tab.
pub open spec fn is_blank(c: char) -> bool {
    c == ' ' || c == '\t'
}

/// Whether `c` can stand in the prefix of a line, where quotes and list items are
/// opened and gone on with: a blank, `>`, one of the bullets `-`, `+` and `*`, or, for
/// a numbered item, a digit, `.` or `)`.
pub open spec fn is_prefix_mark(c: char) -> bool {
    ||| is_blank(c)
    ||| c == '>'
    ||| c == '-'
    ||| c == '+'
    ||| c == '*'
    ||| is_digit(c)
    ||| c == '.'
    ||| c == ')'
}

/// Whether `c` can open a span: `[` a link or an image, `*` and `_` emphasis or strong.
pub open spec fn is_span_mark(c: char) -> bool {
    c == '[' || c == '*' || c == '_'
}

/// Whether all of the line that holds index `end`, from its start up to `end`, is made
/// of prefix marks.
pub open spec fn in_line_prefix(text: Seq<char>, end: int) -> bool
    decreases end,
{
    if end <= 0 || is_line_end(text[end - 1]) {
        true
    } else {
        is_prefix_mark(text[end - 1]) && in_line_prefix(text, end - 1)
    }
}

/// The length of the prefix of the line that holds index `end`, as far as the first
/// `end` characters show it: the number of prefix marks from the start of the line up
/// to the first character that is none.
pub open spec fn line_prefix(text: Seq<char>, end: int) -> nat
    decreases end,
{
    if end <= 0 || is_line_end(text[end - 1]) {
        0
    } else if in_line_prefix(text, end) {
        line_prefix(text, end - 1) + 1
    } else {
        line_prefix(text, end - 1)
    }
}

/// The longest line prefix among the first `end` characters of `text`.
pub open spec fn longest_line_prefix(text: Seq<char>, end: int) -> nat
    decreases end,
{
    if end <= 0 {
        0
    } else if line_prefix(text, end) > longest_line_prefix(text, end - 1) {
        line_prefix(text, end)
    } else {
        longest_line_prefix(text, end - 1)
    }
}

/// Whether all of the line that holds index `end`, from its start up to `end`, is
/// blank.
pub open spec fn in_blank_line(text: Seq<char>, end: int) -> bool
    decreases end,
{
    if end <= 0 || is_line_end(text[end - 1]) {
        true
    } else {
        is_blank(text[end - 1]) && in_blank_line(text, end - 1)
    }
}

/// Whether the character before index `end` ends a blank line. The second half of a
/// line end written as `\r\n` ends no line of its own.
pub open spec fn ends_blank_line(text: Seq<char>, end: int) -> bool {
    &&& end > 0
    &&& is_line_end(text[end - 1])
    &&& !(text[end - 1] == '\n' && end > 1 && text[end - 2] == '\r')
    &&& in_blank_line(text, end - 1)
}

/// The number of span marks between the last blank line before index `end` and `end`.
pub open spec fn open_spans(text: Seq<char>, end: int) -> nat
    decreases end,
{
    if end <= 0 || ends_blank_line(text, end) {
        0
    } else if is_span_mark(text[end - 1]) {
        open_spans(text, end - 1) + 1
    } else {
        open_spans(text, end - 1)
    }
}

/// The most span marks in one stretch of lines without a blank line, among the first
/// `end` characters of `text`.
pub open spec fn most_open_spans(text: Seq<char>, end: int) -> nat
    decreases end,
{
    if end <= 0 {
        0
    } else if open_spans(text, end) > most_open_spans(text, end - 1) {
        open_spans(text, end)
    } else {
        most_open_spans(text, end - 1)
    }
}

/// Whether a text can be handed to the markup parser: it is not too long, no line of it
/// has too long a prefix, and no stretch of it holds too many span marks.
pub open spec fn within_limits(text: Seq<char>) -> bool {
    &&& encode_utf8(text).len() <= MAX_README_BYTES
    &&& longest_line_prefix(text, text.len() as int) <= MAX_LINE_PREFIX
    &&& most_open_spans(text, text.len() as int) <= MAX_OPEN_SPANS
}

/// What the markup parser makes of a text, as far as the locator looks at it.
pub ghost enum Outline {
    /// A document, with its top-level blocks in order.
    Document(Seq<Block>),
    /// A tree whose root is no document.
    NotADocument,
    /// No tree: the parser reported an error, in these words.
    Rejected(Seq<char>),
    /// Nothing: the text is over the limits and was not handed to the parser.
    OverLimit,
}

/// `markdown::message::Message`, the parser's report of markup that it does not accept.
#[verifier::external_type_specification]
#[verifier::external_body]
pub struct ExMessage(Message);

/// The words of a `markdown::message::Message`, as its `Display` writes them.
pub uninterp spec fn markdown_message_text(message: Message) -> Seq<char>;

/// The outline of the tree that `markdown::to_mdast` builds from `text` under the
/// crate's default parse options.
pub uninterp spec fn markdown_outline(text: Seq<char>) -> Outline;

/// Calls `to_string` on a `markdown::message::Message`, which writes the place, the
/// reason, the source and the rule of the message.
///
/// Trusted: that the words are a function of the message, which
/// [`markdown_message_text`] names. Nothing is claimed of what they are.
#[verifier::external_body]
fn message_text(message: &Message) -> (text: String)
    ensures
        text@ == markdown_message_text(*message),
{
    message.to_string()
}

/// Calls `markdown::to_mdast` with `ParseOptions::default()` and copies out of the tree
/// what [`Block`] holds: for each child of the root, in order, whether it is a heading,
/// and then its depth and position.
///
/// The parser is called only on a text within the limits. Its documentation warns
/// that a text in which thousands of spans are opened can stop it, and it sets no limit
/// to the depth of quotes and list items; the limits bound both.
///
/// Trusted: that the parser is a function of the text alone, which [`markdown_outline`]
/// names. Nothing is claimed of what the outline is.
#[verifier::external_body]
fn parse_markdown(text: &str) -> (parsed: Result<Option<Vec<Block>>, Message>)
    requires
        within_limits(text@),
    ensures
        match parsed {
            Ok(Some(blocks)) => markdown_outline(text@) == Outline::Document(blocks@),
            Ok(None) => markdown_outline(text@) == Outline::NotADocument,
            Err(message) => markdown_outline(text@) == Outline::Rejected(
                markdown_message_text(message),
            ),
        },
{
    let tree = markdown::to_mdast(text, &markdown::ParseOptions::default())?;
    let Node::Root(root) = tree else { return Ok(None) };
    Ok(Some(root.children.iter().map(|node| match node {
        Node::Heading(heading) => Block::Heading {
            depth: heading.depth,
            position: heading.position.as_ref().map(|p| Position {
                start: Point { line: p.start.line, column: p.start.column, offset: p.start.offset },
                end: Point { line: p.end.line, column: p.end.column, offset: p.end.offset },
            }),
        },
        _ => Block::Other,
    }).collect()))
}

/// What became of the text of a README: the value behind an [`Outline`].
#[derive(Clone, Debug, PartialEq, Eq)]
pub enum Markup {
    /// A document, with its top-level blocks in order.
    Document(Vec<Block>),
    /// A tree whose root is no document.
    NotADocument,
    /// No tree: the parser reported an error, in these words.
    Rejected(String),
    /// Nothing: the text is over the limits and was not handed to the parser.
    OverLimit,
}

impl View for Markup {
    type V = Outline;

    open spec fn view(&self) -> Outline {
        match self {
            Markup::Document(blocks) => Outline::Document(blocks@),
            Markup::NotADocument => Outline::NotADocument,
            Markup::Rejected(words) => Outline::Rejected(words@),
            Markup::OverLimit => Outline::OverLimit,
        }
    }
}

/// The outline of a README: that of the markup parser for a text within the limits,
/// and none for any other text.
pub open spec fn outline_of(text: Seq<char>) -> Outline {
    if within_limits(text) {
        markdown_outline(text)
    } else {
        Outline::OverLimit
    }
}

/// Where the title of a README ends, given the outline of its text. A text that gives
/// no document has no title.
pub open spec fn title_end_in(outline: Outline) -> Result<usize, Failure> {
    match outline {
        Outline::Document(blocks) => title_end(blocks),
        Outline::NotADocument => Err(Failure::MarkupParse),
        Outline::Rejected(_) => Err(Failure::MarkupParse),
        Outline::OverLimit => Err(Failure::MarkupOverLimit),
    }
}

/// Measures the longest line prefix of `chars`.
pub fn measure_line_prefix(chars: &Vec<char>) -> (longest: usize)
    ensures
        longest == longest_line_prefix(chars@, chars@.len() as int),
{
    let mut longest: usize = 0;
    let mut current: usize = 0;
    let mut in_prefix = true;
    let mut i: usize = 0;
    while i < chars.len()
        invariant
            0 <= i <= chars.len(),
            current <= i,
            longest <= i,
            in_prefix == in_line_prefix(chars@, i as int),
            current == line_prefix(chars@, i as int),
            longest == longest_line_prefix(chars@, i as int),
        decreases chars.len() - i,
    {
        let c = chars[i];
        if c == '\n' || c == '\r' {
            in_prefix = true;
            current = 0;
        } else {
            let blank = c == ' ' || c == '\t';
            let bullet = c == '>' || c == '-' || c == '+' || c == '*';
            let number = ('0' <= c && c <= '9') || c == '.' || c == ')';
            in_prefix = in_prefix && (blank || bullet || number);
            if in_prefix {
                current += 1;
            }
        }
        if current > longest {
            longest = current;
        }
        i += 1;
    }
    longest
}

/// Measures the most span marks that `chars` holds in one stretch of lines without a
/// blank line.
pub fn measure_open_spans(chars: &Vec<char>) -> (most: usize)
    ensures
        most == most_open_spans(chars@, chars@.len() as int),
{
    let mut most: usize = 0;
    let mut current: usize = 0;
    let mut in_blank = true;
    let mut i: usize = 0;
    while i < chars.len()
        invariant
            0 <= i <= chars.len(),
            current <= i,
            most <= i,
            in_blank == in_blank_line(chars@, i as int),
            current == open_spans(chars@, i as int),
            most == most_open_spans(chars@, i as int),
        decreases chars.len() - i,
    {
        let c = chars[i];
        if c == '\n' || c == '\r' {
            let second_half = c == '\n' && i > 0 && chars[i - 1] == '\r';
            if in_blank && !second_half {
                current = 0;
            }
            in_blank = true;
        } else {
            in_blank = in_blank && (c == ' ' || c == '\t');
            if c == '[' || c == '*' || c == '_' {
                current += 1;
            }
        }
        if current > most {
            most = current;
        }
        i += 1;
    }
    most
}

impl Markup {
    /// Parses the text of a README, if it is within the limits.
    ///
    /// A text of more than [`MAX_README_BYTES`] bytes, with a line prefix of more than
    /// [`MAX_LINE_PREFIX`] characters, or with more than [`MAX_OPEN_SPANS`] span marks
    /// in one stretch without a blank line, is not parsed and gives
    /// [`Markup::OverLimit`]. Any other text gives what the markup parser makes of it.
    pub fn parse(readme: &str) -> (markup: Markup)
        ensures
            markup@ == outline_of(readme@),
            within_limits(readme@) ==> markup@ == markdown_outline(readme@),
            !within_limits(readme@) ==> markup == Markup::OverLimit,
    {
        if readme.as_bytes().len() > MAX_README_BYTES {
            return Markup::OverLimit;
        }
        let chars = chars_of(readme);
        if measure_line_prefix(&chars) > MAX_LINE_PREFIX {
            return Markup::OverLimit;
        }
        if measure_open_spans(&chars) > MAX_OPEN_SPANS {
            return Markup::OverLimit;
        }
        match parse_markdown(readme) {
            Ok(Some(blocks)) => Markup::Document(blocks),
            Ok(None) => Markup::NotADocument,
            Err(message) => Markup::Rejected(message_text(&message)),
        }
    }

    /// The byte offset just after the title heading.
    pub fn title_end(&self) -> (end: Result<usize, Failure>)
        ensures
            end == title_end_in(self@),
    {
        match self {
            Markup::Document(blocks) => first_heading_end(blocks),
            Markup::NotADocument => Err(Failure::MarkupParse),
            Markup::Rejected(_) => Err(Failure::MarkupParse),
            Markup::OverLimit => Err(Failure::MarkupOverLimit),
        }
    }
}

} // verus!

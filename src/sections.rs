//! How the prose of a page becomes text: code blocks, paragraphs, and the
//! split of a description into its headed sections.
use vstd::prelude::*;
use crate::document::{Article, ArticleModel};
use crate::page::{Element, ElementModel, regex_replaced, replace_all};
use crate::text::{chars_of, concatenated, escape_html_entities, escaped, join_lines, joined, same_text};

verus! {

/// Whether `c` has the Unicode `White_Space` property.
pub open spec fn is_white_space(c: char) -> bool {
    let n = c as u32;
    (0x9 <= n <= 0xd) || n == 0x20 || n == 0x85 || n == 0xa0 || n == 0x1680 || (0x2000 <= n
        <= 0x200a) || n == 0x2028 || n == 0x2029 || n == 0x202f || n == 0x205f || n == 0x3000
}

fn white_space(c: char) -> (r: bool)
    ensures
        r == is_white_space(c),
{
    let n = c as u32;
    (0x9 <= n && n <= 0xd) || n == 0x20 || n == 0x85 || n == 0xa0 || n == 0x1680 || (0x2000 <= n
        && n <= 0x200a) || n == 0x2028 || n == 0x2029 || n == 0x202f || n == 0x205f || n == 0x3000
}

/// A text piece of a definition that starts a new line: the keyword `where`,
/// or a piece that starts with white space.
pub open spec fn breaks_line(piece: Seq<char>) -> bool {
    piece == "where"@ || (piece.len() > 0 && is_white_space(piece[0]))
}

/// The text pieces of a definition joined, with a newline before each piece
/// that breaks the line.
pub open spec fn reflowed(pieces: Seq<Seq<char>>) -> Seq<char>
    decreases pieces.len(),
{
    if pieces.len() == 0 {
        Seq::empty()
    } else {
        reflowed(pieces.drop_last()) + (if breaks_line(pieces.last()) {
            seq!['\n']
        } else {
            Seq::empty()
        }) + pieces.last()
    }
}

/// `body`, escaped, in a Rust code block.
pub open spec fn code_block(body: Seq<char>) -> Seq<char> {
    "<pre><code class=\"language-rust\">"@ + escaped(body) + "</code></pre>"@
}

/// The text of an element: its text nodes laid end to end.
pub open spec fn text_of(e: ElementModel) -> Seq<char> {
    concatenated(e.pieces)
}

fn breaks_line_exec(piece: &String) -> (r: bool)
    ensures
        r == breaks_line(piece@),
{
    if same_text(piece.as_str(), "where") {
        return true;
    }
    let cs = chars_of(piece.as_str());
    cs.len() > 0 && white_space(cs[0])
}

/// Wraps `body`, escaped, in a Rust code block.
pub fn code_block_of(body: &str) -> (r: String)
    ensures
        r@ == code_block(body@),
{
    let mut r = String::new();
    r.append("<pre><code class=\"language-rust\">");
    let e = escape_html_entities(body);
    r.append(e.as_str());
    r.append("</code></pre>");
    r
}

/// A definition's text pieces as a code block, with each `where` and each
/// piece that starts with white space on a new line.
pub fn code_node_text(pieces: &Vec<String>) -> (r: String)
    ensures
        r@ == code_block(reflowed(pieces.deep_view())),
{
    let mut body = String::new();
    let mut i: usize = 0;
    while i < pieces.len()
        invariant
            i <= pieces@.len(),
            body@ == reflowed(pieces.deep_view().take(i as int)),
        decreases pieces@.len() - i,
    {
        proof {
            reveal_strlit("\n");
        }
        if breaks_line_exec(&pieces[i]) {
            body.append("\n");
        }
        body.append(pieces[i].as_str());
        assert(pieces.deep_view().take(i as int + 1).drop_last() == pieces.deep_view().take(i as int));
        assert(pieces.deep_view().take(i as int + 1).last() == pieces[i as int]@);
        i = i + 1;
    }
    assert(pieces.deep_view().take(pieces@.len() as int) == pieces.deep_view());
    code_block_of(body.as_str())
}

/// The text of an element.
pub fn element_text(e: &Element) -> (r: String)
    ensures
        r@ == text_of(e.deep_view()),
{
    let mut r = String::new();
    let mut i: usize = 0;
    while i < e.pieces.len()
        invariant
            i <= e.pieces@.len(),
            r@ == concatenated(e.pieces.deep_view().take(i as int)),
        decreases e.pieces@.len() - i,
    {
        r.append(e.pieces[i].as_str());
        assert(e.pieces.deep_view().take(i as int + 1).drop_last() == e.pieces.deep_view().take(i as int));
        i = i + 1;
    }
    assert(e.pieces.deep_view().take(e.pieces@.len() as int) == e.pieces.deep_view());
    r
}

/// The expression that finds a link whose target is not an absolute address,
/// keeping the link's text in its group.
pub open spec fn dangling_link() -> Seq<char> {
    "<a href=\"[^h].*\">([\\s\\S]*)</a>"@
}

/// The text that a block of a description contributes: a paragraph's markup
/// with its links into the page unwrapped, or a code block of a `div`'s
/// text; other blocks contribute nothing.
pub open spec fn paragraph_of(e: ElementModel) -> Option<Seq<char>> {
    if e.name == "p"@ {
        match regex_replaced(dangling_link(), e.inner_html, "$1"@) {
            Some(t) => Some(t),
            None => Some(e.inner_html),
        }
    } else if e.name == "div"@ {
        Some(code_block(text_of(e)))
    } else {
        None
    }
}

/// The text that a block of a description contributes, if any.
pub fn parse_document_paragraph(e: &Element) -> (r: Option<String>)
    ensures
        r.deep_view() == paragraph_of(e.deep_view()),
{
    if same_text(e.name.as_str(), "p") {
        match replace_all("<a href=\"[^h].*\">([\\s\\S]*)</a>", e.inner_html.as_str(), "$1") {
            Some(t) => Some(t),
            None => Some(e.inner_html.clone()),
        }
    } else if same_text(e.name.as_str(), "div") {
        let t = element_text(e);
        Some(code_block_of(t.as_str()))
    } else {
        None
    }
}

/// Whether a block of a description is a heading.
pub open spec fn is_heading(e: ElementModel) -> bool {
    e.name == "h1"@
}

/// The blocks of a description split at its headings: the paragraphs before
/// the first heading, and for each heading its text with the paragraphs that
/// follow it up to the next heading, in page order.
pub open spec fn split_blocks(blocks: Seq<ElementModel>) -> (Seq<Seq<char>>, Seq<(Seq<char>, Seq<Seq<char>>)>)
    decreases blocks.len(),
{
    if blocks.len() == 0 {
        (Seq::empty(), Seq::empty())
    } else {
        let (lead, sections) = split_blocks(blocks.skip(1));
        if is_heading(blocks[0]) {
            (Seq::empty(), seq![(text_of(blocks[0]), lead)] + sections)
        } else {
            match paragraph_of(blocks[0]) {
                Some(p) => (seq![p] + lead, sections),
                None => (lead, sections),
            }
        }
    }
}

/// A section of prose: its heading and its paragraphs, one per line.
pub open spec fn prose_section(s: (Seq<char>, Seq<Seq<char>>)) -> (Seq<char>, ArticleModel) {
    (s.0, ArticleModel::Text(joined(s.1, seq!['\n'])))
}

/// The description of a page with these blocks.
pub open spec fn description_of(blocks: Seq<ElementModel>) -> Seq<char> {
    joined(split_blocks(blocks).0, seq!['\n'])
}

/// The headed sections of a page with these blocks.
pub open spec fn sections_of(blocks: Seq<ElementModel>) -> Seq<(Seq<char>, ArticleModel)> {
    split_blocks(blocks).1.map_values(|s: (Seq<char>, Seq<Seq<char>>)| prose_section(s))
}

/// Splits the blocks of a description at its headings, walking them from the
/// last to the first: the description proper, then the headed sections in
/// page order.
pub fn split_sections(blocks: &Vec<Element>) -> (r: (String, Vec<(String, Article)>))
    ensures
        r.0@ == description_of(blocks.deep_view()),
        r.1.deep_view() == sections_of(blocks.deep_view()),
{
    let mut lead: Vec<String> = Vec::new();
    let mut sections: Vec<(String, Vec<String>)> = Vec::new();
    let mut i: usize = blocks.len();
    assert(blocks.deep_view().skip(blocks@.len() as int).len() == 0);
    while i > 0
        invariant
            i <= blocks@.len(),
            (lead.deep_view(), sections.deep_view()) == split_blocks(blocks.deep_view().skip(i as int)),
        decreases i,
    {
        i = i - 1;
        let ghost rest = blocks.deep_view().skip(i as int);
        assert(rest.skip(1) == blocks.deep_view().skip(i as int + 1));
        assert(rest[0] == blocks[i as int].deep_view());
        let e = &blocks[i];
        if same_text(e.name.as_str(), "h1") {
            let heading = element_text(e);
            let ghost before = sections.deep_view();
            let body = lead;
            lead = Vec::new();
            sections.insert(0, (heading, body));
            assert(sections.deep_view() == seq![(heading@, body.deep_view())] + before);
        } else {
            match parse_document_paragraph(e) {
                Some(p) => {
                    let ghost before = lead.deep_view();
                    lead.insert(0, p);
                    assert(lead.deep_view() == seq![p@] + before);
                },
                None => {},
            }
        }
    }
    assert(blocks.deep_view().skip(0) == blocks.deep_view());
    let description = join_lines(&lead);
    let mut out: Vec<(String, Article)> = Vec::new();
    let mut k: usize = 0;
    while k < sections.len()
        invariant
            k <= sections@.len(),
            out.deep_view() == sections.deep_view().take(k as int).map_values(
                |s: (Seq<char>, Seq<Seq<char>>)| prose_section(s),
            ),
        decreases sections@.len() - k,
    {
        let heading = sections[k].0.clone();
        let text = join_lines(&sections[k].1);
        let ghost before = out.deep_view();
        out.push((heading, Article::Text(text)));
        assert(out.deep_view() == before.push((heading@, ArticleModel::Text(text@))));
        assert(sections.deep_view().take(k as int + 1) == sections.deep_view().take(k as int).push(
            sections.deep_view()[k as int],
        ));
        k = k + 1;
    }
    assert(sections.deep_view().take(sections@.len() as int) == sections.deep_view());
    (description, out)
}

/// The texts of the headings among `blocks`, in page order.
pub open spec fn heading_texts(blocks: Seq<ElementModel>) -> Seq<Seq<char>>
    decreases blocks.len(),
{
    if blocks.len() == 0 {
        Seq::empty()
    } else if is_heading(blocks[0]) {
        seq![text_of(blocks[0])] + heading_texts(blocks.skip(1))
    } else {
        heading_texts(blocks.skip(1))
    }
}

/// The paragraphs among `blocks` that come before the first heading.
pub open spec fn leading_paragraphs(blocks: Seq<ElementModel>) -> Seq<Seq<char>>
    decreases blocks.len(),
{
    if blocks.len() == 0 || is_heading(blocks[0]) {
        Seq::empty()
    } else {
        match paragraph_of(blocks[0]) {
            Some(p) => seq![p] + leading_paragraphs(blocks.skip(1)),
            None => leading_paragraphs(blocks.skip(1)),
        }
    }
}

/// Sections come in page order: the headings of the sections are the page's
/// headings in the order they appear, and the description holds only what
/// comes before the first heading.
pub proof fn lemma_sections_in_page_order(blocks: Seq<ElementModel>)
    ensures
        sections_of(blocks).map_values(|s: (Seq<char>, ArticleModel)| s.0) == heading_texts(blocks),
        description_of(blocks) == joined(leading_paragraphs(blocks), seq!['\n']),
    decreases blocks.len(),
{
    lemma_split_order(blocks);
    let f = |s: (Seq<char>, Seq<Seq<char>>)| prose_section(s);
    let g = |s: (Seq<char>, ArticleModel)| s.0;
    let h = |s: (Seq<char>, Seq<Seq<char>>)| s.0;
    assert(split_blocks(blocks).1.map_values(f).map_values(g) == split_blocks(blocks).1.map_values(h));
}

proof fn lemma_split_order(blocks: Seq<ElementModel>)
    ensures
        split_blocks(blocks).1.map_values(|s: (Seq<char>, Seq<Seq<char>>)| s.0) == heading_texts(blocks),
        split_blocks(blocks).0 == leading_paragraphs(blocks),
    decreases blocks.len(),
{
    let h = |s: (Seq<char>, Seq<Seq<char>>)| s.0;
    if blocks.len() == 0 {
        assert(split_blocks(blocks).1.map_values(h) =~= Seq::empty());
    } else {
        lemma_split_order(blocks.skip(1));
        let (lead, secs) = split_blocks(blocks.skip(1));
        if is_heading(blocks[0]) {
            assert((seq![(text_of(blocks[0]), lead)] + secs).map_values(h) =~= seq![text_of(blocks[0])]
                + secs.map_values(h));
        }
    }
}

} // verus!

use vstd::prelude::*;
use crate::model::Entry;

verus! {

/// What html2text makes of `html` at `width` columns: the laid-out text, or
/// `None` where it refuses the input.
pub uninterp spec fn html_as_text(html: Seq<char>, width: usize) -> Option<Seq<char>>;

#[verifier::external_type_specification]
#[verifier::external_body]
pub struct ExHtmlError(html2text::Error);

/// Relies on html2text::from_read: the plain-text layout of an HTML string,
/// wrapped to `width` columns, which depends on its two arguments alone; a
/// zero width is refused as too narrow.
#[verifier::external_body]
fn html_to_text(html: &str, width: usize) -> (r: Result<String, html2text::Error>)
    ensures
        r is Ok <==> html_as_text(html@, width) is Some,
        r is Ok ==> r->Ok_0@ == html_as_text(html@, width)->Some_0,
        width == 0 ==> r is Err,
{
    html2text::from_read(html.as_bytes(), width)
}

/// Relies on String::push: appends one character.
#[verifier::external_body]
fn push_char(s: &mut String, c: char)
    ensures
        final(s)@ == old(s)@.push(c),
{
    s.push(c)
}

/// The pieces of `s` between newline characters, in order; `s` without a
/// newline is one piece, and a newline at the end leaves an empty last piece.
pub open spec fn pieces(s: Seq<char>) -> Seq<Seq<char>>
    decreases s.len(),
{
    if s.len() == 0 {
        seq![Seq::empty()]
    } else {
        let p = pieces(s.drop_last());
        if s.last() == '\n' {
            p.push(Seq::empty())
        } else {
            p.update(p.len() - 1, p.last().push(s.last()))
        }
    }
}

proof fn lemma_pieces_not_empty(s: Seq<char>)
    ensures
        pieces(s).len() >= 1,
    decreases s.len(),
{
    if s.len() > 0 {
        lemma_pieces_not_empty(s.drop_last());
    }
}

/// The display lines of `s`: each piece between newlines, ended by a newline.
pub open spec fn display_lines(s: Seq<char>) -> Seq<Seq<char>> {
    pieces(s).map_values(|p: Seq<char>| p.push('\n'))
}

/// Cuts `text` at each newline and ends every piece with a newline of its own.
pub fn text_lines(text: &str) -> (r: Vec<String>)
    ensures
        r@.map_values(|l: String| l@) == display_lines(text@),
{
    let mut done: Vec<String> = Vec::new();
    let mut cur = String::new();
    let ghost s = text@;
    proof {
        broadcast use vstd::string::axiom_spec_iter;
    }
    for c in it: text.chars()
        invariant
            it.seq() == s,
            done@.len() + 1 == pieces(s.take(it.index() as int)).len(),
            forall|j: int| 0 <= j < done@.len() ==>
                #[trigger] done@[j]@ == pieces(s.take(it.index() as int))[j].push('\n'),
            cur@ == pieces(s.take(it.index() as int)).last(),
    {
        let ghost k = it.index() as int;
        proof {
            assert(s.take(k + 1).drop_last() =~= s.take(k));
            lemma_pieces_not_empty(s.take(k));
        }
        if c == '\n' {
            push_char(&mut cur, '\n');
            done.push(cur);
            cur = String::new();
        } else {
            push_char(&mut cur, c);
        }
    }
    push_char(&mut cur, '\n');
    done.push(cur);
    proof {
        assert(s.take(s.len() as int) =~= s);
        lemma_pieces_not_empty(s);
        assert(done@.map_values(|l: String| l@) =~= display_lines(s));
    }
    done
}

/// The text shown for an entry without content or description.
pub const NO_TEXT: &'static str = "No content or description tag provided.";

/// What an entry shows: its content, else its description, else a fixed
/// notice.
pub open spec fn entry_source(e: &Entry) -> Seq<char> {
    match e.content {
        Some(c) => c@,
        None => match e.description {
            Some(d) => d@,
            None => NO_TEXT@,
        },
    }
}

pub fn source_text(e: &Entry) -> (r: &str)
    ensures
        r@ == entry_source(e),
{
    match &e.content {
        Some(c) => c.as_str(),
        None => match &e.description {
            Some(d) => d.as_str(),
            None => NO_TEXT,
        },
    }
}

/// The column width at which an entry's text is laid out.
pub const TEXT_WIDTH: usize = 90;

/// Lays out an entry's HTML as display lines at `TEXT_WIDTH` columns.
pub fn render_entry(e: &Entry) -> (r: Result<Vec<String>, crate::model::ReaderError>)
    ensures
        r is Ok <==> html_as_text(entry_source(e), TEXT_WIDTH) is Some,
        r is Ok ==> r->Ok_0@.map_values(|l: String| l@)
            == display_lines(html_as_text(entry_source(e), TEXT_WIDTH)->Some_0),
        r is Err ==> r->Err_0 == crate::model::ReaderError::Render,
{
    let html = source_text(e);
    match html_to_text(html, TEXT_WIDTH) {
        Ok(t) => Ok(text_lines(t.as_str())),
        Err(_) => Err(crate::model::ReaderError::Render),
    }
}

} // verus!

//! Flattening the book into the single Markdown stream handed to pandoc.
use vstd::prelude::*;

verus! {

/// One entry of the book, in the order of a depth-first walk of its tree.
#[derive(Clone, Debug)]
pub enum BookEntry {
    /// A chapter; one without a source path is synthetic and left out.
    Chapter { path: Option<String>, content: String },
    /// A separator between groups of chapters.
    Separator,
    /// The title of a part of the book.
    PartTitle(String),
}

/// The heading line that opens the stream with the book's `title`.
pub open spec fn title_heading(title: Seq<char>) -> Seq<char> {
    "# "@ + title + " \n"@
}

/// The heading that introduces a part titled `title`.
pub open spec fn heading(title: Seq<char>) -> Seq<char> {
    "# "@ + title + "\n\n"@
}

/// What one entry adds to the stream: a part title its heading, a chapter
/// with a source path its content verbatim, anything else nothing.
pub open spec fn entry_text(e: BookEntry) -> Seq<char> {
    match e {
        BookEntry::Chapter { path, content } => if path is Some {
            content@
        } else {
            Seq::empty()
        },
        BookEntry::Separator => Seq::empty(),
        BookEntry::PartTitle(t) => heading(t@),
    }
}

/// The text of `entries`, one after another in their order.
pub open spec fn entries_text(entries: Seq<BookEntry>) -> Seq<char>
    decreases entries.len(),
{
    if entries.len() == 0 {
        Seq::empty()
    } else {
        entries_text(entries.drop_last()) + entry_text(entries.last())
    }
}

/// The stream keeps the order of the book: the text of two runs of entries,
/// one after the other, is the text of the first followed by that of the
/// second.
pub proof fn lemma_entries_text_append(a: Seq<BookEntry>, b: Seq<BookEntry>)
    ensures
        entries_text(a + b) == entries_text(a) + entries_text(b),
    decreases b.len(),
{
    if b.len() == 0 {
        assert(a + b == a);
    } else {
        assert((a + b).drop_last() == a + b.drop_last());
        assert((a + b).last() == b.last());
        lemma_entries_text_append(a, b.drop_last());
    }
}

/// The whole stream: the book's title as a heading, when there is one, then
/// the text of the entries.
pub open spec fn book_text(title: Option<Seq<char>>, entries: Seq<BookEntry>) -> Seq<char> {
    match title {
        Some(t) => title_heading(t) + entries_text(entries),
        None => entries_text(entries),
    }
}

/// Appends the heading for the part titled `title` to `out`.
fn push_heading(out: &mut String, title: &str)
    ensures
        final(out)@ == old(out)@ + heading(title@),
{
    out.append("# ");
    out.append(title);
    out.append("\n\n");
    assert(final(out)@ == old(out)@ + heading(title@));
}

/// Appends the heading for the book's `title` to `out`.
fn push_title_heading(out: &mut String, title: &str)
    ensures
        final(out)@ == old(out)@ + title_heading(title@),
{
    out.append("# ");
    out.append(title);
    out.append(" \n");
    assert(final(out)@ == old(out)@ + title_heading(title@));
}

/// Concatenates the book into one Markdown stream, in the order of `entries`.
pub fn aggregate(title: Option<&str>, entries: &Vec<BookEntry>) -> (r: String)
    ensures
        r@ == book_text(
            match title {
                Some(t) => Some(t@),
                None => None,
            },
            entries@,
        ),
{
    let mut out = String::new();
    if let Some(t) = title {
        push_title_heading(&mut out, t);
    }
    let ghost start = out@;
    let mut i: usize = 0;
    while i < entries.len()
        invariant
            i <= entries@.len(),
            out@ == start + entries_text(entries@.subrange(0, i as int)),
        decreases entries.len() - i,
    {
        let ghost before = out@;
        match &entries[i] {
            BookEntry::Chapter { path, content } => {
                if path.is_some() {
                    out.append(content.as_str());
                }
            },
            BookEntry::Separator => {},
            BookEntry::PartTitle(t) => {
                push_heading(&mut out, t.as_str());
            },
        }
        assert(entries@.subrange(0, i + 1).drop_last() == entries@.subrange(0, i as int));
        assert(out@ == before + entry_text(entries@[i as int]));
        i = i + 1;
    }
    assert(entries@.subrange(0, entries@.len() as int) == entries@);
    out
}

} // verus!

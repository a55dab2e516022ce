use vstd::prelude::*;

use super::elements::button_html;
use super::{
    author_html, description_html, line, lines, rendered, lemma_lines_push, title_html,
    Body, Header, Html, Scripts, ToRawHtml,
};

verus! {

/// A line as `RawHtml::add` writes it: `idn` spaces, the value, a line break,
/// and nothing else.
pub proof fn law_line_shape(value: Seq<char>, idn: nat)
    ensures
        line(value, idn).len() == idn + value.len() + 1,
        forall|k: int| 0 <= k < idn ==> #[trigger] line(value, idn)[k] == ' ',
        forall|j: int| 0 <= j < value.len() ==> #[trigger] line(value, idn)[idn + j] == value[j],
        line(value, idn)[(idn + value.len()) as int] == '\n',
{
}

proof fn lemma_rendered_push(a: Seq<Box<dyn ToRawHtml>>, b: Seq<Box<dyn ToRawHtml>>, t: Seq<char>)
    requires
        b.len() == a.len() + 1,
        forall|i: int| 0 <= i < a.len() ==> #[trigger] b[i].raw_html() == a[i].raw_html(),
        b[a.len() as int].raw_html() == t,
    ensures
        rendered(b) == rendered(a).push(t),
{
    let l = rendered(b);
    let r = rendered(a).push(t);
    assert(l.len() == b.len());
    assert(r.len() == a.len() + 1);
    assert forall|i: int| 0 <= i < l.len() implies l[i] == r[i] by {
        if i < a.len() {
            assert(l[i] == b[i].raw_html());
            assert(r[i] == rendered(a)[i]);
        }
    }
    assert(l =~= r);
}

proof fn lemma_lines_empty(items: Seq<Seq<char>>, idn: nat)
    requires
        items.len() == 0,
    ensures
        lines(items, idn) == Seq::<char>::empty(),
{
}

proof fn lemma_indent_two(value: Seq<char>)
    ensures
        line(value, 2) == seq![' ', ' '] + value + seq!['\n'],
{
    assert(Seq::new(2, |i: int| ' ') =~= seq![' ', ' ']);
    assert(line(value, 2) =~= seq![' ', ' '] + value + seq!['\n']);
}

/// A block of scripts with no element is the opening and the closing tag,
/// each on a line of its own.
pub proof fn law_scripts_empty(s: Scripts)
    requires
        s.elements@.len() == 0,
    ensures
        s.raw_html() == "<script>\n</script>\n"@,
{
    reveal_strlit("<script>");
    reveal_strlit("</script>");
    reveal_strlit("<script>\n</script>\n");
    lemma_lines_empty(rendered(s.elements@), 2);
    assert(s.raw_html() =~= "<script>\n</script>\n"@);
}

/// A block of scripts that holds the elements of another and one more, whose
/// text is `t`, is the other's text with `t` written on a line of its own, indented by two spaces, just before the closing tag; all
/// that came before stays as it was.
pub proof fn law_scripts_push(a: Scripts, b: Scripts, t: Seq<char>)
    requires
        b.elements@.len() == a.elements@.len() + 1,
        forall|i: int|
            0 <= i < a.elements@.len() ==> #[trigger] b.elements@[i].raw_html()
                == a.elements@[i].raw_html(),
        b.elements@[a.elements@.len() as int].raw_html() == t,
    ensures
        a.raw_html().len() >= 10,
        a.raw_html().subrange(a.raw_html().len() - 10, a.raw_html().len() as int) == "</script>\n"@,
        b.raw_html() == a.raw_html().subrange(0, a.raw_html().len() - 10) + seq![' ', ' ']
            + t + seq!['\n'] + "</script>\n"@,
{
    reveal_strlit("</script>");
    reveal_strlit("</script>\n");
    let close = line("</script>"@, 0);
    assert(close =~= "</script>\n"@);
    lemma_rendered_push(a.elements@, b.elements@, t);
    lemma_lines_push(rendered(a.elements@), t, 2);
    lemma_indent_two(t);
    let pre = line("<script>"@, 0) + lines(rendered(a.elements@), 2);
    assert(a.raw_html() =~= pre + close);
    assert(a.raw_html().subrange(0, a.raw_html().len() - 10) =~= pre);
    assert(a.raw_html().subrange(a.raw_html().len() - 10, a.raw_html().len() as int) =~= close);
    assert(b.raw_html() == pre + line(t, 2) + close);
    assert(b.raw_html() == pre + line(t, 2) + close);
    assert(b.raw_html() =~= pre + (seq![' ', ' '] + t + seq!['\n']) + close);
}

/// A body with no element is the opening and the closing tag, each on a line
/// of its own.
pub proof fn law_body_empty(b: Body)
    requires
        b.elements@.len() == 0,
    ensures
        b.raw_html() == "<body>\n</body>\n"@,
{
    reveal_strlit("<body>");
    reveal_strlit("</body>");
    reveal_strlit("<body>\n</body>\n");
    lemma_lines_empty(rendered(b.elements@), 2);
    assert(b.raw_html() =~= "<body>\n</body>\n"@);
}

/// A body that holds the elements of another and one more, whose text is `t`,
/// is the other's text with `t` written on a line of its own, indented by two spaces, just before the closing tag; all that came
/// before stays as it was.
pub proof fn law_body_push(a: Body, b: Body, t: Seq<char>)
    requires
        b.elements@.len() == a.elements@.len() + 1,
        forall|i: int|
            0 <= i < a.elements@.len() ==> #[trigger] b.elements@[i].raw_html()
                == a.elements@[i].raw_html(),
        b.elements@[a.elements@.len() as int].raw_html() == t,
    ensures
        a.raw_html().len() >= 8,
        a.raw_html().subrange(a.raw_html().len() - 8, a.raw_html().len() as int) == "</body>\n"@,
        b.raw_html() == a.raw_html().subrange(0, a.raw_html().len() - 8) + seq![' ', ' ']
            + t + seq!['\n'] + "</body>\n"@,
{
    reveal_strlit("</body>");
    reveal_strlit("</body>\n");
    let close = line("</body>"@, 0);
    assert(close =~= "</body>\n"@);
    lemma_rendered_push(a.elements@, b.elements@, t);
    lemma_lines_push(rendered(a.elements@), t, 2);
    lemma_indent_two(t);
    let pre = line("<body>"@, 0) + lines(rendered(a.elements@), 2);
    assert(a.raw_html() =~= pre + close);
    assert(a.raw_html().subrange(0, a.raw_html().len() - 8) =~= pre);
    assert(a.raw_html().subrange(a.raw_html().len() - 8, a.raw_html().len() as int) =~= close);
    assert(b.raw_html() == pre + line(t, 2) + close);
    assert(b.raw_html() == pre + line(t, 2) + close);
    assert(b.raw_html() =~= pre + (seq![' ', ' '] + t + seq!['\n']) + close);
}

/// The page is the doctype line, the head's text and a line break, then the
/// text of the body that holds the page's body elements in their order
/// followed by the scripts, a line break, and the closing tag.
pub proof fn law_page_is_body_with_scripts(h: Html, b: Body)
    requires
        b.elements@.len() == h.body.elements@.len() + 1,
        forall|i: int|
            0 <= i < h.body.elements@.len() ==> #[trigger] b.elements@[i].raw_html()
                == h.body.elements@[i].raw_html(),
        b.elements@[h.body.elements@.len() as int].raw_html() == h.scripts.raw_html(),
    ensures
        h.page() == "<!doctype html>\n"@ + h.header.raw_html() + seq!['\n'] + b.raw_html()
            + seq!['\n'] + "</html>\n"@,
{
    reveal_strlit("<!doctype html>");
    reveal_strlit("<!doctype html>\n");
    reveal_strlit("</html>");
    reveal_strlit("</html>\n");
    lemma_rendered_push(h.body.elements@, b.elements@, h.scripts.raw_html());
    assert(line("<!doctype html>"@, 0) =~= "<!doctype html>\n"@);
    assert(line("</html>"@, 0) =~= "</html>\n"@);
    assert(Seq::new(0, |i: int| ' ') =~= Seq::<char>::empty());
    assert(line(h.header.raw_html(), 0) =~= h.header.raw_html() + seq!['\n']);
    assert(line(b.raw_html(), 0) =~= b.raw_html() + seq!['\n']);
    assert(h.page() =~= "<!doctype html>\n"@ + h.header.raw_html() + seq!['\n'] + b.raw_html()
        + seq!['\n'] + "</html>\n"@);
}

/// A head with every field empty holds the charset line alone.
pub proof fn law_header_empty(h: Header)
    requires
        h.title@.len() == 0,
        h.description@.len() == 0,
        h.author@.len() == 0,
    ensures
        h.raw_html() == "<head>\n  <meta charset=\"utf-8\">\n</head>\n"@,
{
    reveal_strlit("<head>");
    reveal_strlit("<meta charset=\"utf-8\">");
    reveal_strlit("</head>");
    reveal_strlit("<head>\n  <meta charset=\"utf-8\">\n</head>\n");
    assert(Seq::new(2, |i: int| ' ') =~= seq![' ', ' ']);
    assert(h.raw_html() =~= "<head>\n  <meta charset=\"utf-8\">\n</head>\n"@);
}

/// A title adds its line, and nothing else, just before the closing tag of a
/// head whose other fields are empty; an empty title adds nothing.
pub proof fn law_header_title(h: Header, g: Header)
    requires
        g.title@.len() == 0,
        g.description@.len() == 0,
        g.author@.len() == 0,
        h.description@.len() == 0,
        h.author@.len() == 0,
    ensures
        g.raw_html().len() >= 8,
        h.title@.len() > 0 ==> h.raw_html() == g.raw_html().subrange(0, g.raw_html().len() - 8)
            + "  <title>"@ + h.title@ + "</title>\n"@ + "</head>\n"@,
        h.title@.len() == 0 ==> h.raw_html() == g.raw_html(),
{
    reveal_strlit("</head>");
    reveal_strlit("</head>\n");
    reveal_strlit("<title>");
    reveal_strlit("</title>");
    reveal_strlit("  <title>");
    reveal_strlit("</title>\n");
    let close = line("</head>"@, 0);
    assert(close =~= "</head>\n"@);
    let pre = line("<head>"@, 0) + line("<meta charset=\"utf-8\">"@, 2);
    assert(g.raw_html() =~= pre + close);
    assert(g.raw_html().subrange(0, g.raw_html().len() - 8) =~= pre);
    if h.title@.len() > 0 {
        lemma_indent_two(super::title_html(h.title@));
        assert(h.raw_html() =~= pre + ("  <title>"@ + h.title@ + "</title>\n"@) + close);
    } else {
        assert(h.raw_html() =~= g.raw_html());
    }
}

/// A description adds its line, and nothing else, just before the closing tag
/// of a head that has the same title and no author; an empty description adds
/// nothing. The title plays no part in whether the line is written.
pub proof fn law_header_description(h: Header, g: Header)
    requires
        g.title@ == h.title@,
        g.description@.len() == 0,
        g.author@.len() == 0,
        h.author@.len() == 0,
    ensures
        g.raw_html().len() >= 8,
        h.description@.len() > 0 ==> h.raw_html() == g.raw_html().subrange(0, g.raw_html().len() - 8)
            + "  <meta name=\"description\" content=\""@ + h.description@ + "\">\n"@ + "</head>\n"@,
        h.description@.len() == 0 ==> h.raw_html() == g.raw_html(),
{
    reveal_strlit("</head>");
    reveal_strlit("</head>\n");
    reveal_strlit("<meta name=\"description\" content=\"");
    reveal_strlit("  <meta name=\"description\" content=\"");
    reveal_strlit("\">");
    reveal_strlit("\">\n");
    let close = line("</head>"@, 0);
    assert(close =~= "</head>\n"@);
    let pre = line("<head>"@, 0) + line("<meta charset=\"utf-8\">"@, 2) + super::optional_line(
        h.title@.len() > 0,
        super::title_html(h.title@),
    );
    assert(g.raw_html() =~= pre + close);
    assert(g.raw_html().subrange(0, g.raw_html().len() - 8) =~= pre);
    if h.description@.len() > 0 {
        lemma_indent_two(super::description_html(h.description@));
        assert(h.raw_html() =~= pre + ("  <meta name=\"description\" content=\""@ + h.description@
            + "\">\n"@) + close);
    } else {
        assert(h.raw_html() =~= g.raw_html());
    }
}

/// An author adds its line, and nothing else, just before the closing tag of a
/// head that has the same title and description; an empty author adds nothing.
/// Title and description play no part in whether the line is written.
pub proof fn law_header_author(h: Header, g: Header)
    requires
        g.title@ == h.title@,
        g.description@ == h.description@,
        g.author@.len() == 0,
    ensures
        g.raw_html().len() >= 8,
        h.author@.len() > 0 ==> h.raw_html() == g.raw_html().subrange(0, g.raw_html().len() - 8)
            + "  <meta name=\"author\" content=\""@ + h.author@ + "\">\n"@ + "</head>\n"@,
        h.author@.len() == 0 ==> h.raw_html() == g.raw_html(),
{
    reveal_strlit("</head>");
    reveal_strlit("</head>\n");
    reveal_strlit("<meta name=\"author\" content=\"");
    reveal_strlit("  <meta name=\"author\" content=\"");
    reveal_strlit("\">");
    reveal_strlit("\">\n");
    let close = line("</head>"@, 0);
    assert(close =~= "</head>\n"@);
    let pre = line("<head>"@, 0) + line("<meta charset=\"utf-8\">"@, 2) + super::optional_line(
        h.title@.len() > 0,
        super::title_html(h.title@),
    ) + super::optional_line(h.description@.len() > 0, super::description_html(h.description@));
    assert(g.raw_html() =~= pre + close);
    assert(g.raw_html().subrange(0, g.raw_html().len() - 8) =~= pre);
    if h.author@.len() > 0 {
        lemma_indent_two(super::author_html(h.author@));
        assert(h.raw_html() =~= pre + ("  <meta name=\"author\" content=\""@ + h.author@
            + "\">\n"@) + close);
    } else {
        assert(h.raw_html() =~= g.raw_html());
    }
}

/// The title tag holds the value verbatim at one fixed place: every title tag
/// is the empty one with the value put in after its first 7 characters.
pub proof fn law_title_inserts_value(v: Seq<char>)
    ensures
        title_html(v) == title_html(Seq::empty()).take(7) + v + title_html(Seq::empty()).skip(7),
{
    reveal_strlit("<title>");
    reveal_strlit("</title>");
    assert(title_html(Seq::empty()).take(7) =~= "<title>"@);
    assert(title_html(Seq::empty()).skip(7) =~= "</title>"@);
}

/// The description tag holds the value verbatim at one fixed place: it is the
/// empty one with the value put in after its first 34 characters.
pub proof fn law_description_inserts_value(v: Seq<char>)
    ensures
        description_html(v) == description_html(Seq::empty()).take(34) + v + description_html(
            Seq::empty(),
        ).skip(34),
{
    reveal_strlit("<meta name=\"description\" content=\"");
    reveal_strlit("\">");
    assert(description_html(Seq::empty()).take(34) =~= "<meta name=\"description\" content=\""@);
    assert(description_html(Seq::empty()).skip(34) =~= "\">"@);
}

/// The author tag holds the value verbatim at one fixed place: it is the empty
/// one with the value put in after its first 29 characters.
pub proof fn law_author_inserts_value(v: Seq<char>)
    ensures
        author_html(v) == author_html(Seq::empty()).take(29) + v + author_html(Seq::empty()).skip(
            29,
        ),
{
    reveal_strlit("<meta name=\"author\" content=\"");
    reveal_strlit("\">");
    assert(author_html(Seq::empty()).take(29) =~= "<meta name=\"author\" content=\""@);
    assert(author_html(Seq::empty()).skip(29) =~= "\">"@);
}

/// A button holds its action and its text verbatim, each at one fixed place:
/// every button is the empty one with the action put in after its first 27
/// characters and the text after the next 4.
pub proof fn law_button_inserts_action_and_text(action: Seq<char>, text: Seq<char>)
    ensures
        button_html(action, text) == button_html(Seq::empty(), Seq::empty()).take(27) + action
            + button_html(Seq::empty(), Seq::empty()).subrange(27, 31) + text + button_html(
            Seq::empty(),
            Seq::empty(),
        ).skip(31),
{
    reveal_strlit("<button onclick=\"endpoint('");
    reveal_strlit("')\">");
    reveal_strlit("</button>");
    let e = button_html(Seq::empty(), Seq::empty());
    assert(e.take(27) =~= "<button onclick=\"endpoint('"@);
    assert(e.subrange(27, 31) =~= "')\">"@);
    assert(e.skip(31) =~= "</button>"@);
}

} // verus!

use vstd::prelude::*;

pub mod elements;
pub mod laws;

pub use elements::{Button, EndpointScript, Paragraph, RefreshScript};

verus! {

/// `idn` spaces, then `value`, then a line break: one line as `RawHtml::add` writes it.
pub open spec fn line(value: Seq<char>, idn: nat) -> Seq<char> {
    Seq::new(idn, |i: int| ' ') + value + seq!['\n']
}

/// The lines of `items`, in order, each indented by `idn` spaces.
pub open spec fn lines(items: Seq<Seq<char>>, idn: nat) -> Seq<char>
    decreases items.len(),
{
    if items.len() == 0 {
        Seq::empty()
    } else {
        lines(items.drop_last(), idn) + line(items.last(), idn)
    }
}

/// An opening tag on a line of its own, each item indented by two spaces, and a closing tag.
pub open spec fn block_html(open: Seq<char>, items: Seq<Seq<char>>, close: Seq<char>) -> Seq<char> {
    line(open, 0) + lines(items, 2) + line(close, 0)
}

pub proof fn lemma_lines_push(items: Seq<Seq<char>>, item: Seq<char>, idn: nat)
    ensures
        lines(items.push(item), idn) == lines(items, idn) + line(item, idn),
{
    assert(items.push(item).drop_last() =~= items);
}

pub open spec fn title_html(value: Seq<char>) -> Seq<char> {
    "<title>"@ + value + "</title>"@
}

pub open spec fn description_html(value: Seq<char>) -> Seq<char> {
    "<meta name=\"description\" content=\""@ + value + "\">"@
}

pub open spec fn author_html(value: Seq<char>) -> Seq<char> {
    "<meta name=\"author\" content=\""@ + value + "\">"@
}

/// Formats the tags of a page's head.
pub struct ToHTML;

impl ToHTML {
    pub fn title(value: &str) -> (r: String)
        ensures
            r@ == title_html(value@),
    {
        let mut r = String::from_str("<title>");
        r.append(value);
        r.append("</title>");
        r
    }

    pub fn description(value: &str) -> (r: String)
        ensures
            r@ == description_html(value@),
    {
        let mut r = String::from_str("<meta name=\"description\" content=\"");
        r.append(value);
        r.append("\">");
        r
    }

    pub fn author(value: &str) -> (r: String)
        ensures
            r@ == author_html(value@),
    {
        let mut r = String::from_str("<meta name=\"author\" content=\"");
        r.append(value);
        r.append("\">");
        r
    }
}

/// Text of a page under construction, one indented line at a time.
pub struct RawHtml {
    pub inner: String,
}

impl RawHtml {
    pub fn new() -> (r: Self)
        ensures
            r.inner@ == Seq::<char>::empty(),
    {
        RawHtml { inner: String::new() }
    }

    /// Appends `value` on a line of its own, after `idn` spaces.
    pub fn add(&mut self, value: &str, idn: u8)
        ensures
            final(self).inner@ == old(self).inner@ + line(value@, idn as nat),
    {
        let ghost start = self.inner@;
        proof {
            reveal_strlit(" ");
            reveal_strlit("\n");
            assert(" "@ =~= seq![' ']);
            assert("\n"@ =~= seq!['\n']);
        }
        let mut i: u8 = 0;
        while i < idn
            invariant
                i <= idn,
                " "@ == seq![' '],
                self.inner@ == start + Seq::new(i as nat, |k: int| ' '),
            decreases idn - i,
        {
            self.inner.append(" ");
            assert(Seq::new((i + 1) as nat, |k: int| ' ') =~= Seq::new(i as nat, |k: int| ' ').push(' '));
            i = i + 1;
        }
        self.inner.append(value);
        self.inner.append("\n");
        assert(self.inner@ =~= start + line(value@, idn as nat));
    }
}

/// Something that can be written into a page.
pub trait ToRawHtml: Send + Sync {
    /// The text that `to_raw_html` gives.
    spec fn raw_html(&self) -> Seq<char>;

    fn to_raw_html(&self) -> (r: String)
        ensures
            r@ == self.raw_html(),
    ;
}

/// The texts of `elements`, in order.
pub open spec fn rendered(elements: Seq<Box<dyn ToRawHtml>>) -> Seq<Seq<char>> {
    elements.map_values(|e: Box<dyn ToRawHtml>| e.raw_html())
}

/// Adds each element on a line of its own, indented by two spaces.
fn add_elements(html: &mut RawHtml, elements: &Vec<Box<dyn ToRawHtml>>)
    ensures
        final(html).inner@ == old(html).inner@ + lines(rendered(elements@), 2),
{
    let ghost start = html.inner@;
    let ghost items = rendered(elements@);
    let n = elements.len();
    let mut i: usize = 0;
    while i < n
        invariant
            n == elements.len(),
            i <= n,
            items == rendered(elements@),
            html.inner@ == start + lines(items.take(i as int), 2),
        decreases n - i,
    {
        let text = elements[i].to_raw_html();
        html.add(text.as_str(), 2);
        proof {
            assert(items.take(i + 1) =~= items.take(i as int).push(items[i as int]));
            lemma_lines_push(items.take(i as int), items[i as int], 2);
        }
        i = i + 1;
    }
    assert(items.take(n as int) =~= items);
}

/// The head of a page: its line for each of title, description and author that is not empty.
pub open spec fn header_html(title: Seq<char>, description: Seq<char>, author: Seq<char>) -> Seq<char> {
    line("<head>"@, 0) + line("<meta charset=\"utf-8\">"@, 2) + optional_line(
        title.len() > 0,
        title_html(title),
    ) + optional_line(description.len() > 0, description_html(description)) + optional_line(
        author.len() > 0,
        author_html(author),
    ) + line("</head>"@, 0)
}

pub open spec fn optional_line(present: bool, value: Seq<char>) -> Seq<char> {
    if present {
        line(value, 2)
    } else {
        Seq::empty()
    }
}

pub struct Header {
    pub title: String,
    pub description: String,
    pub author: String,
}

impl Default for Header {
    fn default() -> (r: Self)
        ensures
            r.title@ == Seq::<char>::empty(),
            r.description@ == Seq::<char>::empty(),
            r.author@ == Seq::<char>::empty(),
    {
        Header { title: String::new(), description: String::new(), author: String::new() }
    }
}

impl Clone for Header {
    fn clone(&self) -> (r: Self)
        ensures
            r == *self,
    {
        Header {
            title: self.title.clone(),
            description: self.description.clone(),
            author: self.author.clone(),
        }
    }
}

/// Adds `value` at indentation two where it is not empty.
fn add_if_present(html: &mut RawHtml, present: bool, value: &str)
    ensures
        final(html).inner@ == old(html).inner@ + optional_line(present, value@),
{
    if present {
        html.add(value, 2);
    } else {
        assert(html.inner@ =~= html.inner@ + Seq::<char>::empty());
    }
}

impl ToRawHtml for Header {
    open spec fn raw_html(&self) -> Seq<char> {
        header_html(self.title@, self.description@, self.author@)
    }

    fn to_raw_html(&self) -> (r: String) {
        let mut html = RawHtml::new();
        html.add("<head>", 0);
        html.add("<meta charset=\"utf-8\">", 2);
        let title = ToHTML::title(self.title.as_str());
        add_if_present(&mut html, !self.title.as_str().is_empty(), title.as_str());
        let description = ToHTML::description(self.description.as_str());
        add_if_present(&mut html, !self.description.as_str().is_empty(), description.as_str());
        let author = ToHTML::author(self.author.as_str());
        add_if_present(&mut html, !self.author.as_str().is_empty(), author.as_str());
        html.add("</head>", 0);
        assert(html.inner@ =~= self.raw_html());
        html.inner
    }
}

pub struct Body {
    pub elements: Vec<Box<dyn ToRawHtml>>,
}

impl Default for Body {
    fn default() -> (r: Self)
        ensures
            r.elements@.len() == 0,
    {
        Body { elements: Vec::new() }
    }
}

impl ToRawHtml for Body {
    open spec fn raw_html(&self) -> Seq<char> {
        block_html("<body>"@, rendered(self.elements@), "</body>"@)
    }

    fn to_raw_html(&self) -> (r: String) {
        let mut html = RawHtml::new();
        html.add("<body>", 0);
        add_elements(&mut html, &self.elements);
        html.add("</body>", 0);
        assert(html.inner@ =~= self.raw_html());
        html.inner
    }
}

pub struct Scripts {
    pub elements: Vec<Box<dyn ToRawHtml>>,
}

impl Default for Scripts {
    fn default() -> (r: Self)
        ensures
            r.elements@.len() == 0,
    {
        Scripts { elements: Vec::new() }
    }
}

impl ToRawHtml for Scripts {
    open spec fn raw_html(&self) -> Seq<char> {
        block_html("<script>"@, rendered(self.elements@), "</script>"@)
    }

    fn to_raw_html(&self) -> (r: String) {
        let mut html = RawHtml::new();
        html.add("<script>", 0);
        add_elements(&mut html, &self.elements);
        html.add("</script>", 0);
        assert(html.inner@ =~= self.raw_html());
        html.inner
    }
}

/// A whole page: the doctype line, the head, the body with the scripts as its
/// last element, and the closing tag.
pub open spec fn page_html(header: Seq<char>, body: Seq<Seq<char>>, scripts: Seq<char>) -> Seq<char> {
    line("<!doctype html>"@, 0) + line(header, 0) + line(
        block_html("<body>"@, body.push(scripts), "</body>"@),
        0,
    ) + line("</html>"@, 0)
}

pub struct Html {
    pub header: Header,
    pub body: Body,
    pub scripts: Scripts,
}

impl Html {
    /// The text that `build` gives.
    pub open spec fn page(&self) -> Seq<char> {
        page_html(self.header.raw_html(), rendered(self.body.elements@), self.scripts.raw_html())
    }

    pub fn new(header: Header, body: Body, scripts: Scripts) -> (r: Self)
        ensures
            r.header == header,
            r.body == body,
            r.scripts == scripts,
    {
        Html { header, body, scripts }
    }

    /// Writes the page; the scripts close the body.
    pub fn build(&self) -> (r: String)
        ensures
            r@ == self.page(),
    {
        let mut html = RawHtml::new();
        html.add("<!doctype html>", 0);
        let header = self.header.to_raw_html();
        html.add(header.as_str(), 0);

        let mut body = RawHtml::new();
        body.add("<body>", 0);
        add_elements(&mut body, &self.body.elements);
        let scripts = self.scripts.to_raw_html();
        body.add(scripts.as_str(), 2);
        body.add("</body>", 0);
        proof {
            lemma_lines_push(rendered(self.body.elements@), self.scripts.raw_html(), 2);
            assert(body.inner@ =~= block_html(
                "<body>"@,
                rendered(self.body.elements@).push(self.scripts.raw_html()),
                "</body>"@,
            ));
        }
        html.add(body.inner.as_str(), 0);
        html.add("</html>", 0);
        assert(html.inner@ =~= self.page());
        html.inner
    }
}

} // verus!

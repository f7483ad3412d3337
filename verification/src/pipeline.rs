//! One document, from markdown source to the page that is written for it.
//!
//! A page is made in two steps with the template engine between them. First
//! [`Document::new`] derives title and HTML and [`Document::context`] builds
//! what the template is rendered against. The caller then renders the
//! template, and [`Document::artifact`] turns the outcome into the page to
//! write or into the error that ends the run.

use crate::markdown::{get_title, markdown_events, markdown_html, title_of, to_html};
use crate::paths::{file_stem, output_path, output_path_of, stem_of};
use crate::template::{context_entries, context_insert, new_context};
use vstd::prelude::*;

verus! {

/// A markdown source with what is derived from it.
#[derive(Debug, Clone, PartialEq, Eq)]
pub struct Document {
    /// The path the source was read from; it identifies the document.
    pub path: String,
    /// The raw markdown text.
    pub markdown: String,
    /// The title found in the text.
    pub title: String,
    /// The text converted to an HTML fragment.
    pub html: String,
}

/// A rendered page and the path it is written to.
#[derive(Debug, Clone, PartialEq, Eq)]
pub struct Artifact {
    pub path: String,
    pub contents: String,
}

/// The template engine could not render a page.
#[derive(Debug, Clone, PartialEq, Eq)]
pub struct TemplateError {
    /// The engine's description of what went wrong.
    pub message: String,
}

/// The entries a page is rendered against: exactly `title` and `content`.
pub open spec fn page_entries(title: Seq<char>, content: Seq<char>) -> Map<Seq<char>, Seq<char>> {
    Map::empty().insert("title"@, title).insert("content"@, content)
}

/// Builds the context for a page with the given title and HTML content.
pub fn page_context(title: &str, content: &str) -> (context: tera::Context)
    ensures
        context_entries(context) == page_entries(title@, content@),
{
    let mut context = new_context();
    context_insert(&mut context, "title", title);
    context_insert(&mut context, "content", content);
    context
}

impl Document {
    /// Title and HTML are the ones derived from the markdown text.
    pub open spec fn wf(&self) -> bool {
        &&& self.title@ == title_of(markdown_events(self.markdown@))
        &&& self.html@ == markdown_html(self.markdown@)
    }

    /// Where the page of this document goes under `out_dir`.
    pub open spec fn output_path_in(&self, out_dir: Seq<char>) -> Seq<char> {
        output_path_of(out_dir, stem_of(self.path@))
    }

    /// Derives title and HTML from the text read from `path`.
    pub fn new(path: &str, markdown: &str) -> (doc: Document)
        ensures
            doc.wf(),
            doc.path@ == path@,
            doc.markdown@ == markdown@,
    {
        Document {
            path: String::from_str(path),
            markdown: String::from_str(markdown),
            title: get_title(markdown),
            html: to_html(markdown),
        }
    }

    /// The context this document is rendered against.
    pub fn context(&self) -> (context: tera::Context)
        ensures
            context_entries(context) == page_entries(self.title@, self.html@),
    {
        page_context(self.title.as_str(), self.html.as_str())
    }

    /// The path of this document's page: `<out_dir>/<stem>.html`.
    pub fn output_path(&self, out_dir: &str) -> (path: String)
        ensures
            path@ == self.output_path_in(out_dir@),
    {
        let stem = file_stem(self.path.as_str());
        output_path(out_dir, stem.as_str())
    }

    /// Turns the outcome of rendering into the page to write, or into the
    /// error that ends the run. `rendered` is the text the template engine
    /// gave for [`Document::context`], or its description of the failure.
    pub fn artifact(&self, out_dir: &str, rendered: Result<String, String>) -> (result: Result<
        Artifact,
        TemplateError,
    >)
        ensures
            match rendered {
                Ok(text) => result matches Ok(page) && page.path@ == self.output_path_in(out_dir@)
                    && page.contents@ == text@,
                Err(reason) => result matches Err(error) && error.message@ == reason@,
            },
    {
        match rendered {
            Ok(text) => Ok(Artifact { path: self.output_path(out_dir), contents: text }),
            Err(reason) => Err(TemplateError { message: reason }),
        }
    }
}

/// A page context holds two entries and no more: the title under `title`
/// and the HTML under `content`.
pub proof fn lemma_page_entries(title: Seq<char>, content: Seq<char>)
    ensures
        page_entries(title, content).dom() =~= set!["title"@, "content"@],
        page_entries(title, content).dom().len() == 2,
        page_entries(title, content)["title"@] == title,
        page_entries(title, content)["content"@] == content,
{
    reveal_strlit("title");
    reveal_strlit("content");
    assert("title"@ != "content"@) by {
        assert("title"@.len() == 5);
        assert("content"@.len() == 7);
    }
    let keys = set!["title"@, "content"@];
    assert(keys =~= Set::empty().insert("title"@).insert("content"@));
}

/// Two documents made from the same source agree in everything the library
/// derives: title, HTML, the entries handed to the template engine, and the
/// output path. Their pages can differ only where the engine's output does.
pub proof fn lemma_same_source_same_page(a: Document, b: Document, out_dir: Seq<char>)
    requires
        a.wf(),
        b.wf(),
        a.path@ == b.path@,
        a.markdown@ == b.markdown@,
    ensures
        a.title@ == b.title@,
        a.html@ == b.html@,
        page_entries(a.title@, a.html@) == page_entries(b.title@, b.html@),
        a.output_path_in(out_dir) == b.output_path_in(out_dir),
{
}

} // verus!

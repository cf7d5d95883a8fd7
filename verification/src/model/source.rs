//! Web sources: one page that an answer rests on.

use crate::error::{ErrorView, GrokSearchError};
use crate::text::{copy_text, text_of};
use vstd::prelude::*;

verus! {

/// A web page with what is known of it.
#[derive(Debug, PartialEq, Eq)]
pub struct Source {
    /// Where the page is.
    pub url: String,
    /// Which backend named it, and on which path.
    pub provider: String,
    pub title: Option<String>,
    pub description: Option<String>,
    pub published_date: Option<String>,
    /// The text of the page, where it was fetched.
    pub content: Option<String>,
}

/// A source as plain text.
#[verifier::ext_equal]
pub struct SourceView {
    pub url: Seq<char>,
    pub provider: Seq<char>,
    pub title: Option<Seq<char>>,
    pub description: Option<Seq<char>>,
    pub published_date: Option<Seq<char>>,
    pub content: Option<Seq<char>>,
}

impl View for Source {
    type V = SourceView;

    open spec fn view(&self) -> SourceView {
        SourceView {
            url: self.url@,
            provider: self.provider@,
            title: text_of(self.title),
            description: text_of(self.description),
            published_date: text_of(self.published_date),
            content: text_of(self.content),
        }
    }
}

impl SourceView {
    /// The source with other text.
    pub open spec fn with_content(self, content: Option<Seq<char>>) -> SourceView {
        SourceView { content, ..self }
    }
}

/// The sources of a list as plain text.
pub open spec fn sources_of(sources: Seq<Source>) -> Seq<SourceView> {
    Seq::new(sources.len(), |i: int| sources[i]@)
}

/// A reply that holds sources, as plain values.
pub open spec fn sources_reply(reply: Result<Vec<Source>, GrokSearchError>) -> Result<
    Seq<SourceView>,
    ErrorView,
> {
    match reply {
        Ok(sources) => Ok(sources_of(sources@)),
        Err(error) => Err(error@),
    }
}

impl Clone for Source {
    fn clone(&self) -> (copy: Self)
        ensures
            copy == *self,
    {
        Source {
            url: self.url.clone(),
            provider: self.provider.clone(),
            title: copy_text(&self.title),
            description: copy_text(&self.description),
            published_date: copy_text(&self.published_date),
            content: copy_text(&self.content),
        }
    }
}

/// Named texts as plain values.
pub open spec fn fields_view(fields: Seq<(&'static str, String)>) -> Seq<(Seq<char>, Seq<char>)> {
    Seq::new(fields.len(), |i: int| (fields[i].0@, fields[i].1@))
}

/// A text under its name, where it is known.
pub open spec fn known_field(name: Seq<char>, value: Option<Seq<char>>) -> Seq<
    (Seq<char>, Seq<char>),
> {
    match value {
        Some(text) => seq![(name, text)],
        None => Seq::empty(),
    }
}

/// What a source is written out as; what is not known of it is left out.
pub open spec fn fields_of(source: SourceView) -> Seq<(Seq<char>, Seq<char>)> {
    seq![("url"@, source.url), ("provider"@, source.provider)] + known_field(
        "title"@,
        source.title,
    ) + known_field("description"@, source.description) + known_field(
        "published_date"@,
        source.published_date,
    ) + known_field("content"@, source.content)
}

/// Adds a text under its name, where it is known.
fn push_known(fields: &mut Vec<(&'static str, String)>, name: &'static str, value: &Option<String>)
    ensures
        fields_view(final(fields)@) == fields_view(old(fields)@) + known_field(
            name@,
            text_of(*value),
        ),
{
    let ghost given = fields@;
    if let Some(text) = value {
        fields.push((name, text.clone()));
    }
    assert(fields_view(fields@) =~= fields_view(given) + known_field(name@, text_of(*value)));
}

impl Source {
    /// What the source is written out as, field by field; what is not known of it
    /// is left out.
    pub fn fields(&self) -> (fields: Vec<(&'static str, String)>)
        ensures
            fields_view(fields@) == fields_of(self@),
    {
        let mut fields: Vec<(&'static str, String)> = Vec::new();
        fields.push(("url", self.url.clone()));
        fields.push(("provider", self.provider.clone()));
        assert(fields_view(fields@) =~= seq![("url"@, self.url@), ("provider"@, self.provider@)]);
        push_known(&mut fields, "title", &self.title);
        push_known(&mut fields, "description", &self.description);
        push_known(&mut fields, "published_date", &self.published_date);
        push_known(&mut fields, "content", &self.content);
        fields
    }

    /// A source of which only the address and the backend are known.
    pub fn new(url: String, provider: &str) -> (source: Source)
        ensures
            source@ == (SourceView {
                url: url@,
                provider: provider@,
                title: None,
                description: None,
                published_date: None,
                content: None,
            }),
    {
        Source {
            url,
            provider: provider.to_owned(),
            title: None,
            description: None,
            published_date: None,
            content: None,
        }
    }

    /// The source under a title.
    pub fn with_title(self, title: String) -> (source: Source)
        ensures
            source@ == (SourceView { title: Some(title@), ..self@ }),
    {
        Source { title: Some(title), ..self }
    }
}

/// A copy of a list of sources.
pub fn copy_sources(sources: &Vec<Source>) -> (copy: Vec<Source>)
    ensures
        copy@ == sources@,
{
    let copy = sources.clone();
    assert(copy@ =~= sources@);
    copy
}

/// The sources under the name of one backend.
pub open spec fn relabelled(sources: Seq<SourceView>, provider: Seq<char>) -> Seq<SourceView> {
    Seq::new(sources.len(), |i: int| SourceView { provider, ..sources[i] })
}

/// Whether some source of the list has the address.
pub open spec fn lists_url(sources: Seq<SourceView>, url: Seq<char>) -> bool {
    exists|i: int| 0 <= i < sources.len() && (#[trigger] sources[i]).url == url
}

/// The sources without those whose address an earlier one has.
pub open spec fn distinct(sources: Seq<SourceView>) -> Seq<SourceView>
    decreases sources.len(),
{
    if sources.len() == 0 {
        sources
    } else {
        let earlier = distinct(sources.drop_last());
        if lists_url(earlier, sources.last().url) {
            earlier
        } else {
            earlier.push(sources.last())
        }
    }
}

/// The sources of two lists, those of the first in front, each address once.
pub open spec fn merged(first: Seq<SourceView>, second: Seq<SourceView>) -> Seq<SourceView> {
    distinct(first + second)
}

/// The sources under the name of one backend.
pub fn with_provider(sources: Vec<Source>, provider: &str) -> (result: Vec<Source>)
    ensures
        sources_of(result@) == relabelled(sources_of(sources@), provider@),
{
    let mut result: Vec<Source> = Vec::new();
    for i in 0..sources.len()
        invariant
            result.len() == i,
            forall|j: int|
                0 <= j < i ==> #[trigger] result@[j]@ == relabelled(
                    sources_of(sources@),
                    provider@,
                )[j],
    {
        let source = sources[i].clone();
        result.push(Source { provider: provider.to_owned(), ..source });
    }
    assert(sources_of(result@) =~= relabelled(sources_of(sources@), provider@));
    result
}

/// Whether some source of the list has the address.
fn has_url(sources: &Vec<Source>, url: &String) -> (found: bool)
    ensures
        found == lists_url(sources_of(sources@), url@),
{
    for i in 0..sources.len()
        invariant
            forall|j: int| 0 <= j < i ==> (#[trigger] sources_of(sources@)[j]).url != url@,
    {
        if sources[i].url == *url {
            assert(sources_of(sources@)[i as int].url == url@);
            return true;
        }
    }
    false
}

/// Adds the sources of a list whose address is not there yet.
fn add_distinct(result: &mut Vec<Source>, sources: &Vec<Source>, Ghost(given): Ghost<Seq<SourceView>>)
    requires
        sources_of(old(result)@) == distinct(given),
    ensures
        sources_of(final(result)@) == distinct(given + sources_of(sources@)),
{
    assert(given + sources_of(sources@).take(0) =~= given);
    for i in 0..sources.len()
        invariant
            sources_of(result@) == distinct(given + sources_of(sources@).take(i as int)),
    {
        let ghost before = sources_of(result@);
        if !has_url(result, &sources[i].url) {
            result.push(sources[i].clone());
            assert(sources_of(result@) =~= before.push(sources@[i as int]@));
        }
        proof {
            let next = given + sources_of(sources@).take(i + 1);
            assert(next.drop_last() =~= given + sources_of(sources@).take(i as int));
            assert(next.last() == sources@[i as int]@);
        }
    }
    assert(sources_of(sources@).take(sources.len() as int) =~= sources_of(sources@));
}

/// The sources of two lists, those of the first in front, each address once.
pub fn merge_sources(first: Vec<Source>, second: Vec<Source>) -> (result: Vec<Source>)
    ensures
        sources_of(result@) == merged(sources_of(first@), sources_of(second@)),
{
    let mut result: Vec<Source> = Vec::new();
    assert(sources_of(result@) =~= distinct(Seq::empty()));
    add_distinct(&mut result, &first, Ghost(Seq::empty()));
    assert(Seq::empty() + sources_of(first@) =~= sources_of(first@));
    add_distinct(&mut result, &second, Ghost(sources_of(first@)));
    result
}

} // verus!

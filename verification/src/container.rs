//! The container variant of loading: a zipped book, whose content resources
//! come in the order of its spine, each giving a heading and body text. The
//! archive itself is opened where the file is read; what it holds is handed
//! in as plain values.

use crate::blocks::{BlockSpec, LabeledBlock};
use crate::error::ReaderError;
use crate::text::{from_chars, to_chars, trim, trim_range};
use scraper::{Html, Selector};
use vstd::prelude::*;

verus! {

/// One entry of the spine of a book: the id that the spine names, and the
/// text of the resource of that id, where the book declares one and holds
/// it as text.
pub struct SpineResource {
    pub idref: String,
    pub content: Option<String>,
}

/// The mathematical value of a [`SpineResource`].
pub struct ResourceSpec {
    pub idref: Seq<char>,
    pub content: Option<Seq<char>>,
}

impl View for SpineResource {
    type V = ResourceSpec;

    open spec fn view(&self) -> ResourceSpec {
        ResourceSpec {
            idref: self.idref@,
            content: match self.content {
                Some(text) => Some(text@),
                None => None,
            },
        }
    }
}

impl DeepView for SpineResource {
    type V = ResourceSpec;

    open spec fn deep_view(&self) -> ResourceSpec {
        self@
    }
}

/// The texts of the elements of the HTML document `html` that the CSS
/// selector `selector` matches, in the order in which `scraper` finds them:
/// for each element its text nodes, joined. `None` where the selector does
/// not parse.
pub uninterp spec fn selected_texts(
    html: Seq<char>,
    selector: Seq<char>,
) -> Option<Seq<Seq<char>>>;

/// Parses the document with `Html::parse_document` and the selector with
/// `Selector::parse`, and hands out, for each element of `Html::select`, what
/// `ElementRef::text` yields, joined.
#[verifier::external_body]
fn select_texts(html: &str, selector: &str) -> (texts: Option<Vec<String>>)
    ensures
        match texts {
            Some(found) => selected_texts(html@, selector@) == Some(found.deep_view()),
            None => selected_texts(html@, selector@) is None,
        },
{
    let document = Html::parse_document(html);
    let selector = Selector::parse(selector).ok()?;
    Some(document.select(&selector).map(|element| element.text().collect::<String>()).collect())
}

/// Whether `result` is the value `outcome`.
pub open spec fn blocks_result_is(
    result: Result<Vec<LabeledBlock>, ReaderError>,
    outcome: Result<Seq<BlockSpec>, ReaderError>,
) -> bool {
    match outcome {
        Ok(blocks) => result matches Ok(found) && found.deep_view() == blocks,
        Err(error) => result matches Err(found) && found == error,
    }
}

/// The blocks of one content resource, from the texts of its title elements
/// and of its paragraphs: the first title as a heading, then each paragraph,
/// trimmed, as body text. A resource without a title counts as corrupt.
pub open spec fn page_blocks(
    titles: Seq<Seq<char>>,
    paragraphs: Seq<Seq<char>>,
) -> Result<Seq<BlockSpec>, ReaderError> {
    if titles.len() == 0 {
        Err(ReaderError::IoFailure)
    } else {
        Ok(
            seq![BlockSpec::Heading(titles[0])] + paragraphs.map_values(
                |paragraph: Seq<char>| BlockSpec::Body(trim(paragraph)),
            ),
        )
    }
}

/// The blocks of one content resource, from the texts of its title elements
/// and of its paragraphs.
pub fn page_blocks_from(
    titles: &Vec<String>,
    paragraphs: &Vec<String>,
) -> (result: Result<Vec<LabeledBlock>, ReaderError>)
    ensures
        blocks_result_is(result, page_blocks(titles.deep_view(), paragraphs.deep_view())),
{
    if titles.len() == 0 {
        return Err(ReaderError::IoFailure);
    }
    let mut blocks: Vec<LabeledBlock> = Vec::new();
    blocks.push(LabeledBlock::Heading(titles[0].clone()));
    let ghost heading = seq![BlockSpec::Heading(titles.deep_view()[0])];
    let ghost bodies = paragraphs.deep_view().map_values(
        |paragraph: Seq<char>| BlockSpec::Body(trim(paragraph)),
    );
    assert(blocks.deep_view() =~= heading + bodies.take(0));
    let mut i: usize = 0;
    while i < paragraphs.len()
        invariant
            i <= paragraphs.len(),
            bodies == paragraphs.deep_view().map_values(
                |paragraph: Seq<char>| BlockSpec::Body(trim(paragraph)),
            ),
            blocks.deep_view() == heading + bodies.take(i as int),
        decreases paragraphs.len() - i,
    {
        let ghost before = blocks.deep_view();
        let chars = to_chars(paragraphs[i].as_str());
        let (a, b) = trim_range(&chars, 0, chars.len());
        assert(chars@.subrange(0, chars@.len() as int) =~= chars@);
        let text = from_chars(&chars, a, b);
        blocks.push(LabeledBlock::Body(text));
        assert(blocks.deep_view() =~= before.push(bodies[i as int]));
        assert(before.push(bodies[i as int]) =~= heading + bodies.take(i + 1));
        i += 1;
    }
    assert(bodies.take(i as int) =~= bodies);
    Ok(blocks)
}

/// The selector of the title of a content resource.
pub open spec fn title_selector() -> Seq<char> {
    "head > title"@
}

/// The selector of the paragraphs of a content resource.
pub open spec fn paragraph_selector() -> Seq<char> {
    "p"@
}

/// The blocks of the content resource whose text is `html`.
pub open spec fn html_blocks(html: Seq<char>) -> Result<Seq<BlockSpec>, ReaderError> {
    match (selected_texts(html, title_selector()), selected_texts(html, paragraph_selector())) {
        (Some(titles), Some(paragraphs)) => page_blocks(titles, paragraphs),
        _ => Err(ReaderError::IoFailure),
    }
}

/// Loads one content resource: its title becomes a heading, its paragraphs
/// body text.
pub fn load_page(html: &str) -> (result: Result<Vec<LabeledBlock>, ReaderError>)
    ensures
        blocks_result_is(result, html_blocks(html@)),
{
    let titles = select_texts(html, "head > title");
    let paragraphs = select_texts(html, "p");
    match (titles, paragraphs) {
        (Some(titles), Some(paragraphs)) => page_blocks_from(&titles, &paragraphs),
        _ => Err(ReaderError::IoFailure),
    }
}

/// The blocks of a book: those of the resources that its spine lists, in the
/// order of the spine. A resource that is missing, that cannot be read, or
/// that is corrupt fails the whole load: none is passed over.
pub open spec fn book_blocks(resources: Seq<ResourceSpec>) -> Result<Seq<BlockSpec>, ReaderError>
    decreases resources.len(),
{
    if resources.len() == 0 {
        Ok(Seq::empty())
    } else {
        match book_blocks(resources.drop_last()) {
            Err(error) => Err(error),
            Ok(before) => match resources.last().content {
                None => Err(ReaderError::IoFailure),
                Some(html) => match html_blocks(html) {
                    Ok(page) => Ok(before + page),
                    Err(error) => Err(error),
                },
            },
        }
    }
}

/// A load that has failed on the first `upto` resources of the spine fails
/// in the same way on the whole of it.
pub proof fn lemma_book_failure_stays(resources: Seq<ResourceSpec>, upto: int)
    requires
        0 <= upto <= resources.len(),
        book_blocks(resources.take(upto)) is Err,
    ensures
        book_blocks(resources) == book_blocks(resources.take(upto)),
    decreases resources.len(),
{
    if upto == resources.len() {
        assert(resources.take(upto) =~= resources);
    } else {
        assert(resources.drop_last().take(upto) =~= resources.take(upto));
        lemma_book_failure_stays(resources.drop_last(), upto);
    }
}

/// A load fails in one way only: as an input failure.
pub proof fn lemma_book_fails_as_input(resources: Seq<ResourceSpec>)
    ensures
        book_blocks(resources) matches Err(error) ==> error == ReaderError::IoFailure,
    decreases resources.len(),
{
    if resources.len() > 0 {
        lemma_book_fails_as_input(resources.drop_last());
    }
}

/// The entry has a text, and the text has a title.
pub open spec fn resource_loads(resource: ResourceSpec) -> bool {
    match resource.content {
        Some(html) => html_blocks(html) is Ok,
        None => false,
    }
}

/// A book loads if and only if every entry of its spine has a text with a
/// title.
pub proof fn lemma_book_loads(resources: Seq<ResourceSpec>)
    ensures
        book_blocks(resources) is Ok <==> forall|i: int|
            0 <= i < resources.len() ==> resource_loads(#[trigger] resources[i]),
    decreases resources.len(),
{
    if resources.len() > 0 {
        let shorter = resources.drop_last();
        lemma_book_loads(shorter);
        let last = resources.len() - 1;
        if book_blocks(resources) is Ok {
            assert forall|i: int| 0 <= i < resources.len() implies resource_loads(
                #[trigger] resources[i],
            ) by {
                if i < last {
                    assert(shorter[i] == resources[i]);
                }
            }
        } else {
            if book_blocks(shorter) is Ok {
                assert(!resource_loads(resources[last]));
            } else {
                let i = choose|i: int|
                    0 <= i < shorter.len() && !resource_loads(#[trigger] shorter[i]);
                assert(shorter[i] == resources[i]);
            }
        }
    }
}

/// Loads a zipped book from the entries of its spine: the blocks of its
/// content resources, in the order of the spine.
pub fn load_container(
    resources: &Vec<SpineResource>,
) -> (result: Result<Vec<LabeledBlock>, ReaderError>)
    ensures
        blocks_result_is(result, book_blocks(resources.deep_view())),
{
    let ghost spine = resources.deep_view();
    let mut blocks: Vec<LabeledBlock> = Vec::new();
    let mut i: usize = 0;
    assert(blocks.deep_view() =~= Seq::<BlockSpec>::empty());
    while i < resources.len()
        invariant
            i <= resources.len(),
            spine == resources.deep_view(),
            book_blocks(spine.take(i as int)) == Ok::<Seq<BlockSpec>, ReaderError>(
                blocks.deep_view(),
            ),
        decreases resources.len() - i,
    {
        let ghost before = blocks.deep_view();
        proof {
            let upto = spine.take(i + 1);
            assert(upto.drop_last() =~= spine.take(i as int));
            assert(upto.last() == spine[i as int]);
        }
        match &resources[i].content {
            None => {
                proof {
                    lemma_book_failure_stays(spine, i + 1);
                }
                return Err(ReaderError::IoFailure);
            },
            Some(html) => {
                match load_page(html.as_str()) {
                    Err(error) => {
                        proof {
                            lemma_book_failure_stays(spine, i + 1);
                        }
                        return Err(error);
                    },
                    Ok(page) => {
                        let mut page = page;
                        let ghost added = page.deep_view();
                        blocks.append(&mut page);
                        assert(blocks.deep_view() =~= before + added);
                    },
                }
            },
        }
        i += 1;
    }
    assert(spine.take(i as int) =~= spine);
    Ok(blocks)
}

} // verus!

//! What the crawler takes from a page: its title, the addresses it links
//! to, and its text.
//!
//! The markup is parsed by the `scraper` crate, in one trusted function
//! whose result is named by [`scrape`]. What is made of that result is
//! proved here.

use crate::common::error::Error;
use crate::common::text::{chars_of, optional_text, trim, trimmed};
use crate::crawler::address::{url_join, url_parse, Address, AddressView};
use crate::crawler::fetcher::{worth_fetching, Fetcher};
use vstd::hash_set::StringHashSet;
use vstd::prelude::*;
use vstd::string::StringExecFns;

verus! {

/// What was taken from a page.
#[derive(Debug)]
pub struct ParsedPage {
    /// The text of the first `title` element, trimmed.
    pub title: Option<String>,
    /// The addresses the page links to, each once, in the order found.
    pub links: Vec<Address>,
    /// The text of the page, its pieces separated by single spaces.
    pub text_content: String,
}

/// The mathematical value of a [`ParsedPage`].
pub struct PageView {
    pub title: Option<Seq<char>>,
    pub links: Seq<AddressView>,
    pub text_content: Seq<char>,
}

/// The values of a list of addresses.
pub open spec fn address_views(list: Seq<Address>) -> Seq<AddressView> {
    list.map_values(|a: Address| a@)
}

impl View for ParsedPage {
    type V = PageView;

    open spec fn view(&self) -> PageView {
        PageView {
            title: match self.title {
                Some(t) => Some(t@),
                None => None,
            },
            links: address_views(self.links@),
            text_content: self.text_content@,
        }
    }
}

/// The raw material of a page, as the markup parser hands it out.
pub struct Scraped {
    /// The text inside the first element that the title selector matches.
    pub title: Option<String>,
    /// For each element that the link selector matches, the value of the
    /// link attribute, if the element has it.
    pub hrefs: Vec<Option<String>>,
    /// For each node below the root element, its text if it is a text
    /// node.
    pub texts: Vec<Option<String>>,
}

/// The mathematical value of a [`Scraped`].
pub struct ScrapedView {
    pub title: Option<Seq<char>>,
    pub hrefs: Seq<Option<Seq<char>>>,
    pub texts: Seq<Option<Seq<char>>>,
}

impl View for Scraped {
    type V = ScrapedView;

    open spec fn view(&self) -> ScrapedView {
        ScrapedView {
            title: optional_text(self.title),
            hrefs: self.hrefs@.map_values(|s: Option<String>| optional_text(s)),
            texts: self.texts@.map_values(|s: Option<String>| optional_text(s)),
        }
    }
}

/// What `scraper` finds in the document `html`: the text of the first
/// match of `title_selector`, the `attribute` values of the matches of
/// `link_selector`, and the text nodes. A selector that is no CSS
/// selector matches nothing.
pub uninterp spec fn scrape(
    html: Seq<char>,
    title_selector: Seq<char>,
    link_selector: Seq<char>,
    attribute: Seq<char>,
) -> ScrapedView;

/// Parses `html` with `Html::parse_document` and the two selectors with
/// `Selector::parse`, then reads off, with `Html::select`,
/// `ElementRef::text`, `Element::attr` and `Node::as_text`, the three
/// parts of a [`Scraped`]; a selector that `Selector::parse` rejects
/// gives no title and no links. The result is the meaning of [`scrape`].
#[verifier::external_body]
fn scrape_document(html: &str, title_selector: &str, link_selector: &str, attribute: &str) -> (r:
    Scraped)
    ensures
        r@ == scrape(html@, title_selector@, link_selector@, attribute@),
{
    let document = scraper::Html::parse_document(html);
    let titles = scraper::Selector::parse(title_selector).ok();
    let links = scraper::Selector::parse(link_selector).ok();
    Scraped {
        title: titles.and_then(|s| document.select(&s).next().map(|e| e.text().collect())),
        hrefs: links.map(
            |s| document.select(&s).map(|e| e.value().attr(attribute).map(String::from)).collect(),
        ).unwrap_or_default(),
        texts: document.root_element().descendants().map(
            |n| n.value().as_text().map(|t| String::from(&**t)),
        ).collect(),
    }
}

/// The address that `href` stands for on a page at `base`: `href` itself
/// where it is an absolute address, else `href` resolved against `base`.
pub open spec fn resolve(href: Seq<char>, base: Seq<char>) -> Option<AddressView> {
    match url_parse(href) {
        Some(a) => Some(a),
        None => url_join(base, href),
    }
}

/// Whether one of `links` has the text `text`.
pub open spec fn has_text(links: Seq<AddressView>, text: Seq<char>) -> bool {
    exists|i: int| 0 <= i < links.len() && (#[trigger] links[i]).text == text
}

/// The links of a page at `base` with these `href` values: every value
/// that is not empty, does not begin with `#` and can be resolved, each
/// address once, in the order of first occurrence.
pub open spec fn collect_links(hrefs: Seq<Option<Seq<char>>>, base: Seq<char>) -> Seq<
    AddressView,
>
    decreases hrefs.len(),
{
    if hrefs.len() == 0 {
        Seq::empty()
    } else {
        let before = collect_links(hrefs.drop_last(), base);
        match hrefs.last() {
            Some(href) => if href.len() > 0 && href[0] != '#' {
                match resolve(href, base) {
                    Some(a) => if has_text(before, a.text) {
                        before
                    } else {
                        before.push(a)
                    },
                    None => before,
                }
            } else {
                before
            },
            None => before,
        }
    }
}

/// The text nodes, each trimmed and followed by one space, those that
/// are empty after trimming left out.
pub open spec fn join_texts(nodes: Seq<Option<Seq<char>>>) -> Seq<char>
    decreases nodes.len(),
{
    if nodes.len() == 0 {
        Seq::empty()
    } else {
        let before = join_texts(nodes.drop_last());
        match nodes.last() {
            Some(text) => if trimmed(text).len() > 0 {
                before + trimmed(text) + seq![' ']
            } else {
                before
            },
            None => before,
        }
    }
}

/// The page that the raw material `raw` makes at `base`.
pub open spec fn assemble_page(raw: ScrapedView, base: Seq<char>) -> PageView {
    PageView {
        title: match raw.title {
            Some(t) => Some(trimmed(t)),
            None => None,
        },
        links: collect_links(raw.hrefs, base),
        text_content: trimmed(join_texts(raw.texts)),
    }
}

/// Those of `links` that are worth crawling, in their order: see
/// [`worth_fetching`].
pub open spec fn crawlable(links: Seq<AddressView>) -> Seq<AddressView>
    decreases links.len(),
{
    if links.len() == 0 {
        Seq::empty()
    } else if worth_fetching(links.last()) {
        crawlable(links.drop_last()).push(links.last())
    } else {
        crawlable(links.drop_last())
    }
}

/// Extracts links and text from pages.
#[derive(Debug)]
pub struct Parser {
    link_selector: String,
    title_selector: String,
}

impl Parser {
    /// A parser that takes links from `a` elements with an `href` and the
    /// title from the `title` element.
    pub fn new() -> (r: Self)
        ensures
            r.link_selector() == "a[href]"@,
            r.title_selector() == "title"@,
    {
        Parser { link_selector: "a[href]".to_owned(), title_selector: "title".to_owned() }
    }

    /// The CSS selector of the elements that carry links.
    pub closed spec fn link_selector(&self) -> Seq<char> {
        self.link_selector@
    }

    /// The CSS selector of the element that carries the title.
    pub closed spec fn title_selector(&self) -> Seq<char> {
        self.title_selector@
    }

    /// Takes title, links and text from `html`, a page fetched from
    /// `base_url`. Markup of any kind gives a page; the call never fails.
    pub fn parse(&self, html: &str, base_url: &Address) -> (r: Result<ParsedPage, Error>)
        ensures
            r matches Ok(page) && page@ == assemble_page(
                scrape(html@, self.title_selector(), self.link_selector(), "href"@),
                base_url@.text,
            ),
    {
        let raw = scrape_document(
            html,
            self.title_selector.as_str(),
            self.link_selector.as_str(),
            "href",
        );
        Ok(self.assemble(raw, base_url))
    }

    /// Makes a page of the raw material `raw`, found at `base_url`.
    pub fn assemble(&self, raw: Scraped, base_url: &Address) -> (page: ParsedPage)
        ensures
            page@ == assemble_page(raw@, base_url@.text),
    {
        let title = match &raw.title {
            Some(t) => Some(trim(t.as_str())),
            None => None,
        };
        let links = self.extract_links(&raw.hrefs, base_url);
        let text_content = self.extract_text(&raw.texts);
        ParsedPage { title, links, text_content }
    }

    /// Resolves `href`, absolute or relative to `base_url`.
    pub fn resolve_url(&self, href: &str, base_url: &Address) -> (r: Result<Address, Error>)
        ensures
            match r {
                Ok(a) => resolve(href@, base_url@.text) == Some(a@),
                Err(e) => resolve(href@, base_url@.text) is None && e is UrlParseError,
            },
    {
        match Address::parse(href) {
            Ok(a) => Ok(a),
            Err(_) => base_url.join(href),
        }
    }

    /// The links among `hrefs`; see [`collect_links`].
    pub fn extract_links(&self, hrefs: &Vec<Option<String>>, base_url: &Address) -> (links: Vec<
        Address,
    >)
        ensures
            address_views(links@) == collect_links(
                hrefs@.map_values(|s: Option<String>| optional_text(s)),
                base_url@.text,
            ),
    {
        let ghost all = hrefs@.map_values(|s: Option<String>| optional_text(s));
        let mut links: Vec<Address> = Vec::new();
        let mut seen = StringHashSet::new();
        let mut i: usize = 0;
        while i < hrefs.len()
            invariant
                i <= hrefs.len(),
                all == hrefs@.map_values(|s: Option<String>| optional_text(s)),
                address_views(links@) == collect_links(all.take(i as int), base_url@.text),
                forall|t: Seq<char>| seen@.contains(t) <==> has_text(address_views(links@), t),
            decreases hrefs.len() - i,
        {
            let ghost before = address_views(links@);
            proof {
                assert(all.take(i + 1).drop_last() =~= all.take(i as int));
            }
            match &hrefs[i] {
                Some(href) => {
                    let chars = chars_of(href.as_str());
                    if chars.len() > 0 && chars[0] != '#' {
                        match self.resolve_url(href.as_str(), base_url) {
                            Ok(a) => {
                                if !seen.contains(a.as_str()) {
                                    seen.insert(a.as_str().to_owned());
                                    links.push(a);
                                    proof {
                                        let after = address_views(links@);
                                        assert forall|t: Seq<char>|
                                            seen@.contains(t) <==> has_text(after, t) by {
                                            if has_text(after, t) {
                                                let k = choose|k: int|
                                                    0 <= k < after.len() && (
                                                    #[trigger] after[k]).text == t;
                                                if k < before.len() {
                                                    assert(before[k].text == t);
                                                }
                                            }
                                            if has_text(before, t) {
                                                let k = choose|k: int|
                                                    0 <= k < before.len() && (
                                                    #[trigger] before[k]).text == t;
                                                assert(after[k].text == t);
                                            }
                                            if t == a@.text {
                                                assert(after[before.len() as int].text == t);
                                            }
                                        }
                                    }
                                }
                            },
                            Err(_) => {},
                        }
                    }
                },
                None => {},
            }
            i += 1;
        }
        assert(all.take(i as int) =~= all);
        links
    }

    /// The text of a page from its text nodes: each node trimmed, the
    /// empty ones left out, the others joined by single spaces.
    pub fn extract_text(&self, nodes: &Vec<Option<String>>) -> (text: String)
        ensures
            text@ == trimmed(
                join_texts(nodes@.map_values(|s: Option<String>| optional_text(s))),
            ),
    {
        let ghost all = nodes@.map_values(|s: Option<String>| optional_text(s));
        let mut text = String::new();
        let mut i: usize = 0;
        while i < nodes.len()
            invariant
                i <= nodes.len(),
                all == nodes@.map_values(|s: Option<String>| optional_text(s)),
                text@ == join_texts(all.take(i as int)),
            decreases nodes.len() - i,
        {
            proof {
                assert(all.take(i + 1).drop_last() =~= all.take(i as int));
            }
            match &nodes[i] {
                Some(node) => {
                    let piece = trim(node.as_str());
                    if piece.as_str().unicode_len() > 0 {
                        text.append(piece.as_str());
                        text.append(" ");
                        proof {
                            reveal_strlit(" ");
                        }
                    }
                },
                None => {},
            }
            i += 1;
        }
        assert(all.take(i as int) =~= all);
        trim(text.as_str())
    }

    /// Keeps the links worth crawling: `http` and `https` addresses whose
    /// last path segment does not end, in any letter case, in one of the
    /// extensions that mark something other than a page; see
    /// [`Fetcher::should_fetch`].
    pub fn filter_links(&self, links: Vec<Address>) -> (kept: Vec<Address>)
        ensures
            address_views(kept@) == crawlable(address_views(links@)),
    {
        let ghost all = address_views(links@);
        let ghost items = links@;
        let mut kept: Vec<Address> = Vec::new();
        for link in it: links.into_iter()
            invariant
                it.seq() == items,
                all == address_views(items),
                address_views(kept@) == crawlable(all.take(it.index() as int)),
        {
            assert(all.take(it.index() + 1).drop_last() =~= all.take(it.index() as int));
            if Fetcher::should_fetch(&link) {
                kept.push(link);
            }
        }
        assert(all.take(items.len() as int) =~= all);
        kept
    }
}

impl Default for Parser {
    fn default() -> (r: Self)
        ensures
            r.link_selector() == "a[href]"@,
            r.title_selector() == "title"@,
    {
        Parser::new()
    }
}

} // verus!

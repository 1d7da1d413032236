//! The listing: its title and the links to its venue pages.

use vstd::prelude::*;
use vstd::string::*;
use crate::error::{ScrapeError, ScrapeErrorView};
use crate::html::{attribute, attribute_of, select, selection, text_view};

verus! {

/// Why the url crate refused an address.
#[verifier::external_type_specification]
#[verifier::external_body]
pub struct ExUrlError(url::ParseError);

/// The image that carries the title of the listing.
pub const TITLE_SELECTOR: &'static str = "#title img";

/// The attribute of the title image that holds the title.
pub const TITLE_ATTRIBUTE: &'static str = "alt";

/// The map areas that link to the venue pages.
pub const LINK_SELECTOR: &'static str = "#m_shop area[href]";

/// The attribute of a map area that holds its target.
pub const LINK_TARGET: &'static str = "href";

/// The attribute of a map area that holds the venue's title.
pub const LINK_TITLE: &'static str = "title";

/// The serialization of the absolute URL that `url::Url::parse` reads from
/// `text`; `None` where it reads none.
pub uninterp spec fn normalized_url(text: Seq<char>) -> Option<Seq<char>>;

/// The serialization of the URL that `url::Url::join` resolves `reference`
/// to, with the URL that `url::Url::parse` reads from `base` as its base;
/// `None` where `base` is no URL or `reference` cannot be resolved.
pub uninterp spec fn joined_url(base: Seq<char>, reference: Seq<char>) -> Option<Seq<char>>;

/// A link from the listing to a venue page.
#[derive(Debug, PartialEq, Eq)]
pub struct VenueLink {
    /// The venue's title, as the listing displays it.
    pub title: String,
    /// The absolute address of the venue page.
    pub url: String,
}

/// A [`VenueLink`] with its texts as sequences of characters.
pub struct VenueLinkView {
    pub title: Seq<char>,
    pub url: Seq<char>,
}

impl View for VenueLink {
    type V = VenueLinkView;

    open spec fn view(&self) -> VenueLinkView {
        VenueLinkView { title: self.title@, url: self.url@ }
    }
}

/// What is read of the listing.
#[derive(Debug, PartialEq, Eq)]
pub struct IndexPage {
    /// The title that every event of the listing is given.
    pub event_title: String,
    /// The venue pages, in the order of the document.
    pub venue_links: Vec<VenueLink>,
}

/// An [`IndexPage`] with its texts as sequences of characters.
pub struct IndexPageView {
    pub event_title: Seq<char>,
    pub venue_links: Seq<VenueLinkView>,
}

/// Links as views.
pub open spec fn links_view(links: Seq<VenueLink>) -> Seq<VenueLinkView> {
    Seq::new(links.len(), |i: int| links[i]@)
}

impl View for IndexPage {
    type V = IndexPageView;

    open spec fn view(&self) -> IndexPageView {
        IndexPageView { event_title: self.event_title@, venue_links: links_view(self.venue_links@) }
    }
}

/// A result that holds a link, as a view.
pub open spec fn link_result_view(r: Result<VenueLink, ScrapeError>) -> Result<
    VenueLinkView,
    ScrapeErrorView,
> {
    match r {
        Ok(link) => Ok(link@),
        Err(e) => Err(e@),
    }
}

/// A result that holds links, as a view.
pub open spec fn links_result_view(r: Result<Vec<VenueLink>, ScrapeError>) -> Result<
    Seq<VenueLinkView>,
    ScrapeErrorView,
> {
    match r {
        Ok(links) => Ok(links_view(links@)),
        Err(e) => Err(e@),
    }
}

/// A result that holds a listing, as a view.
pub open spec fn index_result_view(r: Result<IndexPage, ScrapeError>) -> Result<
    IndexPageView,
    ScrapeErrorView,
> {
    match r {
        Ok(page) => Ok(page@),
        Err(e) => Err(e@),
    }
}

/// The link that a map area with the given attributes stands for. Both
/// attributes are required, and the target must resolve against `base_url`.
pub open spec fn link_from(
    href: Option<Seq<char>>,
    title: Option<Seq<char>>,
    position: nat,
    base_url: Seq<char>,
) -> Result<VenueLinkView, ScrapeErrorView> {
    if href is Some && title is Some {
        match joined_url(base_url, href->0) {
            Some(url) => Ok(VenueLinkView { title: title->0, url }),
            None => Err(ScrapeErrorView::UnresolvableLink { href: href->0 }),
        }
    } else {
        Err(ScrapeErrorView::MalformedVenueLink { position })
    }
}

/// The link of the map area `node`, the `position`-th of the listing.
pub open spec fn link_of(node: kuchiki::NodeRef, position: nat, base_url: Seq<char>) -> Result<
    VenueLinkView,
    ScrapeErrorView,
> {
    link_from(
        attribute_of(node, LINK_TARGET@),
        attribute_of(node, LINK_TITLE@),
        position,
        base_url,
    )
}

/// `front`, followed by the links of `rest` if there are any; the error of
/// `rest` otherwise.
pub open spec fn prepend_links(
    front: Seq<VenueLinkView>,
    rest: Result<Seq<VenueLinkView>, ScrapeErrorView>,
) -> Result<Seq<VenueLinkView>, ScrapeErrorView> {
    match rest {
        Ok(links) => Ok(front + links),
        Err(e) => Err(e),
    }
}

/// The links of the map areas `areas` from the `from`-th on, in order; the
/// first area that gives none fails them all.
pub open spec fn links_from(areas: Seq<kuchiki::NodeRef>, from: nat, base_url: Seq<char>) -> Result<
    Seq<VenueLinkView>,
    ScrapeErrorView,
>
    decreases areas.len() - from,
{
    if from >= areas.len() {
        Ok(Seq::empty())
    } else {
        match link_of(areas[from as int], from, base_url) {
            Ok(link) => prepend_links(seq![link], links_from(areas, from + 1, base_url)),
            Err(e) => Err(e),
        }
    }
}

/// The title that the title images `images` give the listing: the
/// alternative text of the first.
pub open spec fn title_of(images: Seq<kuchiki::NodeRef>) -> Result<Seq<char>, ScrapeErrorView> {
    if images.len() == 0 {
        Err(ScrapeErrorView::MissingTitle)
    } else {
        match attribute_of(images[0], TITLE_ATTRIBUTE@) {
            Some(title) => Ok(title),
            None => Err(ScrapeErrorView::MissingTitleText),
        }
    }
}

/// What is read of the listing `document`, whose address is `base_url`.
pub open spec fn index_of(document: kuchiki::NodeRef, base_url: Seq<char>) -> Result<
    IndexPageView,
    ScrapeErrorView,
> {
    match selection(document, TITLE_SELECTOR@) {
        Ok(images) => match title_of(images) {
            Ok(event_title) => match selection(document, LINK_SELECTOR@) {
                Ok(areas) => match links_from(areas, 0, base_url) {
                    Ok(venue_links) => Ok(IndexPageView { event_title, venue_links }),
                    Err(e) => Err(e),
                },
                Err(e) => Err(e),
            },
            Err(e) => Err(e),
        },
        Err(e) => Err(e),
    }
}

/// Calls `url::Url::parse` and hands out the URL's serialization. The
/// result is the one that `normalized_url` names.
#[verifier::external_body]
pub(crate) fn parse_url(text: &str) -> (r: Result<String, url::ParseError>)
    ensures
        match r {
            Ok(url) => normalized_url(text@) == Some(url@),
            Err(_) => normalized_url(text@) is None,
        },
{
    url::Url::parse(text).map(String::from)
}

/// Calls `url::Url::join` on the URL that `url::Url::parse` reads from
/// `base`, and hands out the serialization of what it resolves `reference`
/// to. The result is the one that `joined_url` names.
#[verifier::external_body]
pub(crate) fn join_url(base: &str, reference: &str) -> (r: Result<String, url::ParseError>)
    ensures
        match r {
            Ok(url) => joined_url(base@, reference@) == Some(url@),
            Err(_) => joined_url(base@, reference@) is None,
        },
{
    url::Url::parse(base)?.join(reference).map(String::from)
}

/// Reads an address as an absolute URL and gives it back in its normal
/// form.
pub fn normalize(text: &str) -> (r: Result<String, ScrapeError>)
    ensures
        match r {
            Ok(url) => normalized_url(text@) == Some(url@),
            Err(e) => normalized_url(text@) is None && e@ == (ScrapeErrorView::MalformedUrl {
                url: text@,
            }),
        },
{
    match parse_url(text) {
        Ok(url) => Ok(url),
        Err(_) => Err(ScrapeError::MalformedUrl { url: String::from_str(text) }),
    }
}

/// Makes the link of a map area from its attributes: both must be there,
/// and the target is resolved against the listing's address.
pub fn venue_link(href: Option<String>, title: Option<String>, position: usize, base_url: &str)
    -> (r: Result<VenueLink, ScrapeError>)
    ensures
        link_result_view(r) == link_from(
            text_view(href),
            text_view(title),
            position as nat,
            base_url@,
        ),
{
    match (href, title) {
        (Some(href), Some(title)) => match join_url(base_url, href.as_str()) {
            Ok(url) => Ok(VenueLink { title, url }),
            Err(_) => Err(ScrapeError::UnresolvableLink { href }),
        },
        _ => Err(ScrapeError::MalformedVenueLink { position }),
    }
}

/// Reads the links to the venue pages off the map areas of the listing.
pub fn read_links(areas: &Vec<kuchiki::NodeRef>, base_url: &str) -> (r: Result<
    Vec<VenueLink>,
    ScrapeError,
>)
    ensures
        links_result_view(r) == links_from(areas@, 0, base_url@),
{
    let mut links: Vec<VenueLink> = Vec::new();
    let mut i: usize = 0;
    assert(links_view(links@) + Seq::<VenueLinkView>::empty() == links_view(links@));
    while i < areas.len()
        invariant
            i <= areas.len(),
            links_from(areas@, 0, base_url@) == prepend_links(
                links_view(links@),
                links_from(areas@, i as nat, base_url@),
            ),
        decreases areas.len() - i,
    {
        let ghost before = links_view(links@);
        let ghost rest = links_from(areas@, (i + 1) as nat, base_url@);
        let area = &areas[i];
        match venue_link(attribute(area, LINK_TARGET), attribute(area, LINK_TITLE), i, base_url) {
            Ok(link) => {
                proof {
                    assert(links_view(links@.push(link)) == before.push(link@));
                    if rest is Ok {
                        assert(before + (seq![link@] + rest->Ok_0) == before.push(link@)
                            + rest->Ok_0);
                    }
                }
                links.push(link);
            },
            Err(e) => {
                return Err(e);
            },
        }
        i += 1;
    }
    Ok(links)
}

/// Reads the listing: its title off the title image, and the links to the
/// venue pages, in the order of the document.
pub fn extract_index(document: &kuchiki::NodeRef, base_url: &str) -> (r: Result<
    IndexPage,
    ScrapeError,
>)
    ensures
        index_result_view(r) == index_of(*document, base_url@),
{
    let images = match select(document, TITLE_SELECTOR) {
        Ok(images) => images,
        Err(e) => {
            return Err(e);
        },
    };
    if images.len() == 0 {
        return Err(ScrapeError::MissingTitle);
    }
    let event_title = match attribute(&images[0], TITLE_ATTRIBUTE) {
        Some(title) => title,
        None => {
            return Err(ScrapeError::MissingTitleText);
        },
    };
    let areas = match select(document, LINK_SELECTOR) {
        Ok(areas) => areas,
        Err(e) => {
            return Err(e);
        },
    };
    match read_links(&areas, base_url) {
        Ok(venue_links) => Ok(IndexPage { event_title, venue_links }),
        Err(e) => Err(e),
    }
}

/// A listing without a title image is refused as such, whatever else it
/// holds: no venue link is looked at.
pub proof fn lemma_listing_needs_title(document: kuchiki::NodeRef, base_url: Seq<char>)
    ensures
        selection(document, TITLE_SELECTOR@) matches Ok(images) ==> (images.len() == 0
            ==> index_of(document, base_url) == Err::<IndexPageView, ScrapeErrorView>(
            ScrapeErrorView::MissingTitle,
        )),
{
}

/// The links of a listing stand in the order of its map areas, one for
/// each.
pub proof fn lemma_links_follow_areas(areas: Seq<kuchiki::NodeRef>, from: nat, base_url: Seq<char>)
    requires
        from <= areas.len(),
    ensures
        links_from(areas, from, base_url) matches Ok(links) ==> links.len() == areas.len() - from
            && forall|i: int|
            0 <= i < links.len() ==> Ok::<VenueLinkView, ScrapeErrorView>(#[trigger] links[i])
                == link_of(areas[from + i], (from + i) as nat, base_url),
    decreases areas.len() - from,
{
    if from < areas.len() {
        lemma_links_follow_areas(areas, from + 1, base_url);
        let rest = links_from(areas, from + 1, base_url);
        let first = link_of(areas[from as int], from, base_url);
        if first is Ok && rest is Ok {
            let links = seq![first->Ok_0] + rest->Ok_0;
            assert forall|i: int| 0 <= i < links.len() implies Ok::<
                VenueLinkView,
                ScrapeErrorView,
            >(#[trigger] links[i]) == link_of(areas[from + i], (from + i) as nat, base_url) by {
                if i > 0 {
                    assert(links[i] == rest->Ok_0[i - 1]);
                }
            }
        }
    }
}

} // verus!

//! Field extraction from a profile page's markup.
use vstd::prelude::*;

use scraper::{Html, Selector};

use crate::name::{has_comma, normalized_name, parse_name};
use crate::outcome::{ScrapError, ScrappedProfessor};
use crate::photo::{first_qualifying, opt_view, opt_views, pick_picture};

verus! {

/// Selects the element whose text is the person's name.
pub const NAME_SELECTOR: &'static str = "span.texto";

/// Selects the image elements.
pub const IMAGE_SELECTOR: &'static str = "img";

/// The attribute of an image that holds its path.
pub const IMAGE_SOURCE: &'static str = "src";

/// The site's photo directory: a photo's source starts with it.
pub const PHOTO_DIR: &'static str = "fotos";

/// The site's generic "no photo" image, never taken as a photo.
pub const PLACEHOLDER_PHOTO: &'static str = "fotos/logo.gif";

/// Whether `css` is a selector group that scraper accepts.
pub uninterp spec fn selector_ok(css: Seq<char>) -> bool;

/// The text content of the first element of document `markup` that selector
/// group `css` matches, if any.
pub uninterp spec fn name_text_of(markup: Seq<char>, css: Seq<char>) -> Option<Seq<char>>;

/// For each element of document `markup` that selector group `css` matches, in
/// document order, its `attr` attribute if present.
pub uninterp spec fn srcs_of(markup: Seq<char>, css: Seq<char>, attr: Seq<char>) -> Seq<
    Option<Seq<char>>,
>;

/// Relies on `scraper::Selector::parse`: whether it compiles `css`.
#[verifier::external_body]
fn selector_parses(css: &str) -> (r: bool)
    ensures
        r == selector_ok(css@),
{
    Selector::parse(css).is_ok()
}

/// Relies on `scraper::Html::parse_document`, `Html::select` and
/// `ElementRef::text`: the text of the first element that `css` matches.
#[verifier::external_body]
fn first_text(markup: &str, css: &str) -> (r: Option<String>)
    requires
        selector_ok(css@),
    ensures
        opt_view(r) == name_text_of(markup@, css@),
{
    let sel = match Selector::parse(css) {
        Ok(sel) => sel,
        Err(_) => return None,
    };
    let doc = Html::parse_document(markup);
    let r = doc.select(&sel).next().map(|e| e.text().collect::<String>());
    r
}

/// Relies on `scraper::Html::parse_document`, `Html::select` and
/// `ElementRef::attr`: the `attr` value of each element that `css` matches.
#[verifier::external_body]
fn attr_values(markup: &str, css: &str, attr: &str) -> (r: Vec<Option<String>>)
    requires
        selector_ok(css@),
    ensures
        opt_views(r@) == srcs_of(markup@, css@, attr@),
{
    let sel = match Selector::parse(css) {
        Ok(sel) => sel,
        Err(_) => return Vec::new(),
    };
    let doc = Html::parse_document(markup);
    let r = doc.select(&sel).map(|e| e.attr(attr).map(String::from)).collect();
    r
}

/// The extraction rules, checked once before any page is processed: where the
/// name is and which elements are images.
pub struct SelectorSet {
    name: String,
    image: String,
}

impl SelectorSet {
    #[verifier::type_invariant]
    spec fn valid(&self) -> bool {
        &&& self.name@ == NAME_SELECTOR@
        &&& self.image@ == IMAGE_SELECTOR@
        &&& selector_ok(self.name@)
        &&& selector_ok(self.image@)
    }

    /// The name and image rules; `None` exactly when either is not a valid
    /// selector, a configuration defect to stop on before any page.
    pub fn new() -> (r: Option<SelectorSet>)
        ensures
            r is Some <==> (selector_ok(NAME_SELECTOR@) && selector_ok(IMAGE_SELECTOR@)),
    {
        if selector_parses(NAME_SELECTOR) && selector_parses(IMAGE_SELECTOR) {
            Some(SelectorSet {
                name: String::from_str(NAME_SELECTOR),
                image: String::from_str(IMAGE_SELECTOR),
            })
        } else {
            None
        }
    }
}

/// What a page yields for the name text and image sources found on it.
pub open spec fn fields_outcome_holds(
    name_text: Option<Seq<char>>,
    srcs: Seq<Option<Seq<char>>>,
    r: Result<ScrappedProfessor, ScrapError>,
) -> bool {
    match name_text {
        None => r == Err::<ScrappedProfessor, ScrapError>(ScrapError::NameNotPresent),
        Some(t) => {
            &&& (r is Ok <==> has_comma(t))
            &&& (r matches Err(e) ==> (e matches ScrapError::ParseName(u) && u@ == t))
            &&& (r matches Ok(p) ==> p.name@ == normalized_name(t) && opt_view(p.picture)
                == first_qualifying(srcs, PHOTO_DIR@, PLACEHOLDER_PHOTO@))
        },
    }
}

/// What the page `markup` yields.
pub open spec fn markup_outcome_holds(markup: Seq<char>, r: Result<ScrappedProfessor, ScrapError>) -> bool {
    fields_outcome_holds(
        name_text_of(markup, NAME_SELECTOR@),
        srcs_of(markup, IMAGE_SELECTOR@, IMAGE_SOURCE@),
        r,
    )
}

impl ScrappedProfessor {
    /// Builds the record from the first name element's text (`None` when the page
    /// has none) and the `src` of each image in document order.
    pub fn from_fields(name_text: Option<String>, srcs: &Vec<Option<String>>) -> (r: Result<
        ScrappedProfessor,
        ScrapError,
    >)
        ensures
            fields_outcome_holds(opt_view(name_text), opt_views(srcs@), r),
    {
        let text = match name_text {
            None => return Err(ScrapError::NameNotPresent),
            Some(t) => t,
        };
        let name = match parse_name(text.as_str()) {
            Ok(n) => n,
            Err(e) => return Err(e),
        };
        let picture = pick_picture(srcs, PHOTO_DIR, PLACEHOLDER_PHOTO);
        Ok(ScrappedProfessor { name, picture })
    }

    /// Extracts the record from the page `markup`: the name from the first name
    /// element's text, and the first image that qualifies as the photo. Only the
    /// name can fail; a missing photo gives `picture == None`.
    pub fn from_markup(markup: &str, selectors: &SelectorSet) -> (r: Result<
        ScrappedProfessor,
        ScrapError,
    >)
        ensures
            markup_outcome_holds(markup@, r),
    {
        proof {
            use_type_invariant(selectors);
        }
        let name_text = first_text(markup, selectors.name.as_str());
        let srcs = attr_values(markup, selectors.image.as_str(), IMAGE_SOURCE);
        ScrappedProfessor::from_fields(name_text, &srcs)
    }
}

} // verus!

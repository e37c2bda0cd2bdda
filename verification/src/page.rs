//! The invitation page: which edition of it is shown, the state that the page
//! component keeps, and the text that the page shows.

use vstd::prelude::*;

use crate::agent::{detect_mobile, is_mobile_agent, MOBILE_AGENT_PATTERN};
use crate::matcher::{regex_compiles, PatternError};

verus! {

/// The two years the invitation was published for; they differ in text,
/// artwork and a few rendering details.
#[derive(Debug, Clone, Copy, PartialEq, Eq, Structural)]
pub enum Edition {
    Year2025,
    Year2026,
}

/// The state of the page component: the size of the drawing surface in device
/// pixels and whether the visitor is on a mobile device.
#[derive(Debug, Clone, Copy, PartialEq, Eq, Structural)]
pub struct App {
    pub width: u32,
    pub height: u32,
    pub is_mobile: bool,
}

impl Default for App {
    fn default() -> (a: App)
        ensures
            a.width == 0,
            a.height == 0,
            !a.is_mobile,
    {
        App { width: 0, height: 0, is_mobile: false }
    }
}

/// The texts of the invitation, in the order the page shows them.
pub struct Invitation {
    /// The main heading.
    pub headline: String,
    /// Sub-headings under the main heading.
    pub taglines: Vec<String>,
    /// The when / how / where lines of the highlighted box.
    pub details: Vec<String>,
    /// A note under the invitation, if the edition has one.
    pub disclaimer: Option<String>,
    /// A banner outside the invitation, if the edition has one.
    pub banner: Option<String>,
}

/// The views of a list of strings.
pub open spec fn string_views(v: Seq<String>) -> Seq<Seq<char>> {
    v.map_values(|s: String| s@)
}

pub open spec fn option_view(o: Option<String>) -> Option<Seq<char>> {
    match o {
        Some(s) => Some(s@),
        None => None,
    }
}

pub open spec fn spec_headline() -> Seq<char> {
    "Welcome to Halloween Land!"@
}

pub open spec fn spec_taglines(edition: Edition) -> Seq<Seq<char>> {
    match edition {
        Edition::Year2025 => seq![
            "Auch dieses Jahr oeffnen sich die Pforten"@,
            "Es stehen kaltes Bier und allerlei toedliche Speisen bereit!"@,
        ],
        Edition::Year2026 => Seq::empty(),
    }
}

pub open spec fn spec_details(edition: Edition) -> Seq<Seq<char>> {
    match edition {
        Edition::Year2025 => seq!["Wann: 31.10."@, "Wie: Verkleidet!"@, "Wo: Essen"@],
        Edition::Year2026 => seq!["Wann: 31.10. / 14:00"@, "Wie: Verkleidet!"@, "Wo: Essen"@],
    }
}

pub open spec fn spec_disclaimer(edition: Edition) -> Option<Seq<char>> {
    match edition {
        Edition::Year2025 => None,
        Edition::Year2026 => Some(
            "Best viewed in a desktop browser! (Moar shader, Moar effects, Moar all!)"@,
        ),
    }
}

pub open spec fn spec_banner(edition: Edition) -> Option<Seq<char>> {
    match edition {
        Edition::Year2025 => None,
        Edition::Year2026 => Some("Save the date!"@),
    }
}

impl App {
    /// The page state for a drawing surface of `width` by `height` device
    /// pixels and the visitor's user agent, if the browser reported one.
    /// Fails only when the `regex` crate rejects [`MOBILE_AGENT_PATTERN`].
    pub fn create(width: u32, height: u32, user_agent: Option<&str>) -> (r: Result<App, PatternError>)
        ensures
            r is Ok <==> regex_compiles(MOBILE_AGENT_PATTERN@),
            r matches Ok(app) ==> {
                &&& app.width == width
                &&& app.height == height
                &&& app.is_mobile == is_mobile_agent(
                    match user_agent {
                        Some(s) => Some(s@),
                        None => None,
                    },
                )
            },
    {
        let is_mobile = detect_mobile(user_agent)?;
        Ok(App { width, height, is_mobile })
    }

    /// The texts that the page shows in `edition`.
    pub fn page(&self, edition: Edition) -> (inv: Invitation)
        ensures
            inv.headline@ == spec_headline(),
            string_views(inv.taglines@) == spec_taglines(edition),
            string_views(inv.details@) == spec_details(edition),
            option_view(inv.disclaimer) == spec_disclaimer(edition),
            option_view(inv.banner) == spec_banner(edition),
    {
        let headline = "Welcome to Halloween Land!".to_owned();
        let when_2025 = "Wann: 31.10.";
        let when_2026 = "Wann: 31.10. / 14:00";
        let how = "Wie: Verkleidet!";
        let where_ = "Wo: Essen";
        match edition {
            Edition::Year2025 => {
                let mut taglines: Vec<String> = Vec::new();
                taglines.push("Auch dieses Jahr oeffnen sich die Pforten".to_owned());
                taglines.push("Es stehen kaltes Bier und allerlei toedliche Speisen bereit!".to_owned());
                let mut details: Vec<String> = Vec::new();
                details.push(when_2025.to_owned());
                details.push(how.to_owned());
                details.push(where_.to_owned());
                assert(string_views(taglines@) =~= spec_taglines(edition));
                assert(string_views(details@) =~= spec_details(edition));
                Invitation { headline, taglines, details, disclaimer: None, banner: None }
            },
            Edition::Year2026 => {
                let taglines: Vec<String> = Vec::new();
                let mut details: Vec<String> = Vec::new();
                details.push(when_2026.to_owned());
                details.push(how.to_owned());
                details.push(where_.to_owned());
                assert(string_views(taglines@) =~= spec_taglines(edition));
                assert(string_views(details@) =~= spec_details(edition));
                Invitation {
                    headline,
                    taglines,
                    details,
                    disclaimer: Some(
                        "Best viewed in a desktop browser! (Moar shader, Moar effects, Moar all!)".to_owned(),
                    ),
                    banner: Some("Save the date!".to_owned()),
                }
            },
        }
    }
}

} // verus!

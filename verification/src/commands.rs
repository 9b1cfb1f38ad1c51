//! The command line's commands and what each of them asks for.
//!
//! A run handles one command. [`Cli::plan`] says what the command needs
//! from the network; the program performs the request and hands the answer
//! to [`CatalogView::report`] or to `render_template`, which say what to
//! print or write.

use vstd::prelude::*;
use crate::catalog::{catalog_of, derive_catalog};
use crate::filter::{filter_regex, filter_substring_or_exact_ci, matching_pattern, matching_query};
use crate::pattern::{compile_outcome, is_report_of, pattern_is_valid, PatternError};
use crate::render::{template_url, template_url_of};

verus! {

/// Where the directory listing of the template repository is served from.
pub const GITHUB_API_URL: &'static str = "https://api.github.com/repos/github/gitignore/contents";

/// The media type that the listing request accepts.
pub const LISTING_ACCEPT: &'static str = "application/vnd.github.v3+json";

/// The label by which the client identifies itself.
pub const USER_AGENT: &'static str = "gitignore-generator";

/// The time allowed for a request, in seconds.
pub const REQUEST_TIMEOUT_SECS: u64 = 30;

/// The destination of `generate` when none is given.
pub const DEFAULT_OUTPUT: &'static str = ".gitignore";

/// The parsed command line.
#[derive(Debug, Clone, PartialEq, Eq)]
pub struct Cli {
    /// The command to run; without one the run does nothing.
    pub extra_command: Option<SubCommands>,
}

/// The commands.
#[derive(Debug, Clone, PartialEq, Eq)]
pub enum SubCommands {
    /// Write one template, wrapped in banners, to a file.
    Generate {
        /// The template's name, with or without the suffix.
        template_language: String,
        /// The file to write.
        output: String,
    },
    /// Print every entry of the catalog.
    List,
    /// Print the entries that contain the target or equal it apart from
    /// ASCII case.
    Search {
        target_search: String,
    },
    /// Print the entries in which the regular expression matches.
    RegexSearch {
        regex: String,
    },
}

/// Which entries of the catalog a command shows.
#[derive(Debug, Clone, PartialEq, Eq)]
pub enum CatalogView {
    /// Every entry.
    All,
    /// The entries that match a query.
    Matching { query: String },
    /// The entries in which a pattern matches.
    MatchingPattern { pattern: String },
}

/// What a run needs from the network.
#[derive(Debug, Clone, PartialEq, Eq)]
pub enum Plan {
    /// Nothing: there is no command.
    Idle,
    /// The directory listing at `url`, requested with the media type
    /// `accept` in the `Accept` header; `view` of its catalog is then shown.
    Catalog { url: String, accept: String, view: CatalogView },
    /// The raw template at `url`, to be rendered under the name `template`
    /// and written to `output`.
    Template { url: String, template: String, output: String },
}

/// What to print for a command that shows the catalog.
#[derive(Debug, Clone, PartialEq, Eq)]
pub struct Report {
    /// The names to print, one per line, in this order.
    pub names: Vec<String>,
    /// Whether the names are matches, which are printed highlighted.
    pub highlighted: bool,
}

/// The plan asks for the directory listing and shows `wanted` of it.
pub open spec fn asks_for_listing(plan: Plan, wanted: CatalogView) -> bool {
    &&& plan matches Plan::Catalog { url, accept, view }
    &&& url@ == GITHUB_API_URL@
    &&& accept@ == LISTING_ACCEPT@
    &&& view == wanted
}

/// `plan` is the plan for the command line `cli`.
pub open spec fn plan_of(cli: Cli, plan: Plan) -> bool {
    match cli.extra_command {
        None => plan == Plan::Idle,
        Some(SubCommands::List) => asks_for_listing(plan, CatalogView::All),
        Some(SubCommands::Search { target_search }) => asks_for_listing(
            plan,
            (CatalogView::Matching { query: target_search }),
        ),
        Some(SubCommands::RegexSearch { regex }) => asks_for_listing(
            plan,
            (CatalogView::MatchingPattern { pattern: regex }),
        ),
        Some(SubCommands::Generate { template_language, output }) => {
            &&& plan matches Plan::Template { url, template, output: destination }
            &&& url@ == template_url_of(template_language@)
            &&& template == template_language
            &&& destination == output
        },
    }
}

/// The plan that asks for the directory listing and shows `view` of it.
fn listing_plan(view: CatalogView) -> (plan: Plan)
    ensures
        asks_for_listing(plan, view),
{
    Plan::Catalog { url: GITHUB_API_URL.to_owned(), accept: LISTING_ACCEPT.to_owned(), view }
}

impl Cli {
    /// What this command line needs from the network: nothing without a
    /// command, the listing for `list`, `search` and `regex-search`, and the
    /// raw template for `generate`.
    pub fn plan(&self) -> (plan: Plan)
        ensures
            plan_of(*self, plan),
    {
        match &self.extra_command {
            None => Plan::Idle,
            Some(SubCommands::List) => listing_plan(CatalogView::All),
            Some(SubCommands::Search { target_search }) => listing_plan(
                CatalogView::Matching { query: target_search.clone() },
            ),
            Some(SubCommands::RegexSearch { regex }) => listing_plan(
                CatalogView::MatchingPattern { pattern: regex.clone() },
            ),
            Some(SubCommands::Generate { template_language, output }) => Plan::Template {
                url: template_url(template_language.as_str()),
                template: template_language.clone(),
                output: output.clone(),
            },
        }
    }
}

/// The names that a view shows of the catalog of a listing.
pub open spec fn shown(view: CatalogView, listing: Seq<Seq<char>>) -> Seq<Seq<char>> {
    match view {
        CatalogView::All => catalog_of(listing),
        CatalogView::Matching { query } => matching_query(catalog_of(listing), query@),
        CatalogView::MatchingPattern { pattern } => matching_pattern(
            catalog_of(listing),
            pattern@,
        ),
    }
}

/// The view can be shown: its pattern, if it has one, compiles.
pub open spec fn showable(view: CatalogView) -> bool {
    view matches CatalogView::MatchingPattern { pattern } ==> pattern_is_valid(pattern@)
}

impl CatalogView {
    /// The pattern to echo before the request is made, for the view that
    /// has one.
    pub fn echoed_pattern(&self) -> (echo: Option<String>)
        ensures
            echo == match *self {
                CatalogView::MatchingPattern { pattern } => Some(pattern),
                _ => None,
            },
    {
        match self {
            CatalogView::MatchingPattern { pattern } => Some(pattern.clone()),
            _ => None,
        }
    }

    /// What to print, given the file names of the directory listing: the
    /// derived catalog, filtered as the view says. Only the whole catalog is
    /// printed plain. A pattern that does not compile is reported, and
    /// nothing is printed.
    pub fn report(&self, listing: &Vec<String>) -> (r: Result<Report, PatternError>)
        ensures
            r is Ok <==> showable(*self),
            r matches Ok(report) ==> {
                &&& report.names.deep_view() == shown(*self, listing.deep_view())
                &&& report.highlighted == !(*self is All)
            },
            r matches Err(e) ==> *self matches CatalogView::MatchingPattern { pattern }
                && is_report_of(e, pattern@, compile_outcome(pattern@)->Err_0),
    {
        let catalog = derive_catalog(listing);
        match self {
            CatalogView::All => Ok(Report { names: catalog, highlighted: false }),
            CatalogView::Matching { query } => Ok(
                Report {
                    names: filter_substring_or_exact_ci(&catalog, query.as_str()),
                    highlighted: true,
                },
            ),
            CatalogView::MatchingPattern { pattern } => match filter_regex(
                &catalog,
                pattern.as_str(),
            ) {
                Ok(names) => Ok(Report { names, highlighted: true }),
                Err(e) => Err(e),
            },
        }
    }
}

} // verus!

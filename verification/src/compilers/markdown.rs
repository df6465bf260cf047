//! The stage that renders the posts: how a post is parsed, what its front
//! matter says, and whether it is rendered.

use crate::args::BuildMode;
use crate::error::Error;
use markdown::mdast::Node;
use markdown::{Constructs, ParseOptions};
use vstd::prelude::*;

verus! {

/// A table of TOML values. Nothing in this crate looks inside one but
/// through `table_entries`.
#[verifier::external_type_specification]
#[verifier::external_body]
#[verifier::reject_recursive_types(K)]
#[verifier::reject_recursive_types(V)]
pub struct ExTomlMap<K, V>(toml::map::Map<K, V>);

/// A TOML value.
#[verifier::external_type_specification]
#[verifier::external_body]
pub struct ExTomlValue(toml::Value);

/// The front matter of a post.
pub type FrontMatter = toml::Table;

/// The HTML that `markdown::to_html_with_options` makes of a document, or
/// its diagnostic, with the GFM options for the output, and for the input
/// the default constructs but for the three that are given.
pub uninterp spec fn html_of(
    content: Seq<char>,
    frontmatter: bool,
    gfm_footnote_definition: bool,
    gfm_label_start_footnote: bool,
) -> Result<Seq<char>, Seq<char>>;

/// The top-level nodes of the syntax tree that `markdown::to_mdast` makes
/// of a document, or its diagnostic, with the default constructs but for the
/// three that are given. Each node is given by its text if it is a block of
/// TOML front matter, and by nothing if it is anything else.
pub uninterp spec fn toml_blocks(
    content: Seq<char>,
    frontmatter: bool,
    gfm_footnote_definition: bool,
    gfm_label_start_footnote: bool,
) -> Result<Seq<Option<Seq<char>>>, Seq<char>>;

/// What is read of an entry of a table.
enum Entry {
    /// The entry holds a string.
    Text(String),
    /// The entry holds a date-time, with this year, month and day, or with
    /// a time of day alone.
    Date(Option<(u16, u8, u8)>),
    /// The entry holds a value of any other kind.
    Other,
}

/// The view of an entry of a table.
pub enum EntryView {
    Text(Seq<char>),
    Date(Option<(u16, u8, u8)>),
    Other,
}

impl View for Entry {
    type V = EntryView;

    closed spec fn view(&self) -> EntryView {
        match self {
            Entry::Text(text) => EntryView::Text(text@),
            Entry::Date(date) => EntryView::Date(*date),
            Entry::Other => EntryView::Other,
        }
    }
}

/// What `toml::from_str` makes of a text that it is to read as a table: the
/// entries of the table, or the diagnostic with which it refuses the text.
pub uninterp spec fn toml_reading(text: Seq<char>) -> Result<Map<Seq<char>, EntryView>, Seq<char>>;

/// The entries of a table, each under its key.
pub uninterp spec fn table_entries(table: toml::Table) -> Map<Seq<char>, EntryView>;

/// The view of a text or a diagnostic.
pub open spec fn text_views(result: Result<String, String>) -> Result<Seq<char>, Seq<char>> {
    match result {
        Ok(text) => Ok(text@),
        Err(message) => Err(message@),
    }
}

/// The views of the blocks of a document, or of the diagnostic.
pub open spec fn block_views(result: Result<Vec<Option<String>>, String>) -> Result<
    Seq<Option<Seq<char>>>,
    Seq<char>,
> {
    match result {
        Ok(blocks) => Ok(blocks.deep_view()),
        Err(message) => Err(message@),
    }
}

/// The view of an entry that may be missing.
spec fn entry_view(entry: Option<Entry>) -> Option<EntryView> {
    match entry {
        Some(e) => Some(e@),
        None => None,
    }
}

/// What a table holds under a key, if it holds anything.
pub open spec fn lookup(entries: Map<Seq<char>, EntryView>, key: Seq<char>) -> Option<EntryView> {
    if entries.contains_key(key) {
        Some(entries[key])
    } else {
        None
    }
}

/// The string that a table holds under a key, if it holds a string there.
pub open spec fn string_under(entries: Map<Seq<char>, EntryView>, key: Seq<char>) -> Option<
    Seq<char>,
> {
    match lookup(entries, key) {
        Some(EntryView::Text(text)) => Some(text),
        _ => None,
    }
}

/// The date that a table holds under a key, if it holds a date-time there:
/// the year, month and day, or nothing for a time of day alone.
pub open spec fn date_under(entries: Map<Seq<char>, EntryView>, key: Seq<char>) -> Option<
    Option<(u16, u8, u8)>,
> {
    match lookup(entries, key) {
        Some(EntryView::Date(date)) => Some(date),
        _ => None,
    }
}

/// `markdown::to_html_with_options`, called with the options of
/// `Options::gfm()` in which the parse options are the default ones, and in
/// these the constructs the default ones with the three given switches. The
/// contract gives the result its name and claims nothing else of it.
#[verifier::external_body]
fn markdown_to_html(
    content: &str,
    frontmatter: bool,
    gfm_footnote_definition: bool,
    gfm_label_start_footnote: bool,
) -> (html: Result<String, String>)
    ensures
        text_views(html) == html_of(
            content@,
            frontmatter,
            gfm_footnote_definition,
            gfm_label_start_footnote,
        ),
{
    let constructs = Constructs {
        frontmatter,
        gfm_footnote_definition,
        gfm_label_start_footnote,
        ..Default::default()
    };
    let parse = ParseOptions { constructs, ..Default::default() };
    let options = markdown::Options { parse, ..markdown::Options::gfm() };
    match markdown::to_html_with_options(content, &options) {
        Ok(html) => Ok(html),
        Err(message) => Err(message.to_string()),
    }
}

/// `markdown::to_mdast`, called with the default parse options in which the
/// constructs are the default ones with the three given switches. The
/// children of the root come back one by one: the text of a TOML node, and
/// nothing for a node of any other kind. The contract gives the result its
/// name and claims nothing else of it.
#[verifier::external_body]
fn markdown_toml_blocks(
    content: &str,
    frontmatter: bool,
    gfm_footnote_definition: bool,
    gfm_label_start_footnote: bool,
) -> (blocks: Result<Vec<Option<String>>, String>)
    ensures
        block_views(blocks) == toml_blocks(
            content@,
            frontmatter,
            gfm_footnote_definition,
            gfm_label_start_footnote,
        ),
{
    let constructs = Constructs {
        frontmatter,
        gfm_footnote_definition,
        gfm_label_start_footnote,
        ..Default::default()
    };
    match markdown::to_mdast(content, &ParseOptions { constructs, ..Default::default() }) {
        Ok(Node::Root(root)) => Ok(root.children.into_iter().map(|node| match node {
            Node::Toml(toml) => Some(toml.value),
            _ => None,
        }).collect()),
        Ok(_) => Ok(Vec::new()),
        Err(message) => Err(message.to_string()),
    }
}

/// `toml::from_str`, reading a table. The contract gives the result its
/// name: for a text that is read, the entries of the table; for one that is
/// refused, the diagnostic. It claims nothing else.
#[verifier::external_body]
fn toml_from_str(text: &str) -> (parsed: Result<toml::Table, String>)
    ensures
        match parsed {
            Ok(table) => toml_reading(text@) == Ok::<_, Seq<char>>(table_entries(table)),
            Err(message) => toml_reading(text@) == Err::<Map<Seq<char>, EntryView>, _>(message@),
        },
{
    match toml::from_str::<toml::Table>(text) {
        Ok(table) => Ok(table),
        Err(error) => Err(error.to_string()),
    }
}

/// `toml::map::Map::get`. What the table holds under the key comes back by
/// its kind: a string as a copy of it, a date-time as the year, month and
/// day of its date or as nothing where it has no date, and a value of any
/// other kind as that and no more. A missing entry comes back as nothing.
#[verifier::external_body]
fn table_get(table: &toml::Table, key: &str) -> (entry: Option<Entry>)
    ensures
        entry_view(entry) == lookup(table_entries(*table), key@),
{
    match table.get(key) {
        Some(toml::Value::String(text)) => Some(Entry::Text(text.clone())),
        Some(toml::Value::Datetime(datetime)) => Some(
            Entry::Date(match datetime.date {
                Some(date) => Some((date.year, date.month, date.day)),
                None => None,
            }),
        ),
        Some(_) => Some(Entry::Other),
        None => None,
    }
}

/// How posts are parsed and which of them are rendered.
pub struct MarkdownCompiler {
    build_mode: BuildMode,
    frontmatter: bool,
    gfm_footnote_definition: bool,
    gfm_label_start_footnote: bool,
}

/// The view of a `MarkdownCompiler`.
pub struct MarkdownSettings {
    pub build_mode: BuildMode,
    /// Front matter at the start of a post is recognised.
    pub frontmatter: bool,
    /// Footnote definitions are recognised.
    pub gfm_footnote_definition: bool,
    /// Footnote calls are recognised.
    pub gfm_label_start_footnote: bool,
}

impl View for MarkdownCompiler {
    type V = MarkdownSettings;

    closed spec fn view(&self) -> MarkdownSettings {
        MarkdownSettings {
            build_mode: self.build_mode,
            frontmatter: self.frontmatter,
            gfm_footnote_definition: self.gfm_footnote_definition,
            gfm_label_start_footnote: self.gfm_label_start_footnote,
        }
    }
}

/// A calendar day.
#[derive(Copy, Clone, Debug, PartialEq, Eq, Structural)]
pub struct Day {
    pub year: i32,
    pub month: u32,
    pub day: u32,
}

/// The day on which a post without a publication day is published: far
/// enough in the future to mean never.
pub open spec fn undated() -> Day {
    Day { year: 3000, month: 1, day: 1 }
}

/// A moment: the seconds since the epoch, and the nanoseconds since the
/// start of that second.
#[derive(Copy, Clone, Debug, PartialEq, Eq, Structural)]
pub struct Moment {
    pub seconds: i64,
    pub nanos: u32,
}

impl Moment {
    /// This moment comes before the other.
    pub open spec fn before(self, other: Moment) -> bool {
        self.seconds < other.seconds || (self.seconds == other.seconds && self.nanos
            < other.nanos)
    }
}

/// What is done with a post.
#[derive(Debug, PartialEq, Eq)]
pub enum PostPlan {
    /// The post is left out of the build.
    Skip,
    /// The post is rendered with the template of that name, into the file
    /// that is named after the slug.
    Render { template: String, slug: String },
}

/// The view of a `PostPlan`.
pub enum PostPlanView {
    Skip,
    Render { template: Seq<char>, slug: Seq<char> },
}

impl View for PostPlan {
    type V = PostPlanView;

    open spec fn view(&self) -> PostPlanView {
        match self {
            PostPlan::Skip => PostPlanView::Skip,
            PostPlan::Render { template, slug } => PostPlanView::Render {
                template: template@,
                slug: slug@,
            },
        }
    }
}

/// The view of a plan that may be missing.
pub open spec fn plan_view(plan: Option<PostPlan>) -> Option<PostPlanView> {
    match plan {
        Some(p) => Some(p@),
        None => None,
    }
}

impl MarkdownSettings {
    /// Whether a post is rendered: a release build leaves out the posts
    /// that are not published, a development build renders them all.
    pub open spec fn renders(self, published: bool) -> bool {
        self.build_mode == BuildMode::Development || published
    }

    /// What is done with a post, given the entries of its front matter. A
    /// post that is rendered needs a template and a slug, both strings:
    /// there is no plan for one that lacks either.
    pub open spec fn plan(self, entries: Map<Seq<char>, EntryView>, published: bool) -> Option<
        PostPlanView,
    > {
        if !self.renders(published) {
            Some(PostPlanView::Skip)
        } else {
            match (string_under(entries, "template"@), string_under(entries, "slug"@)) {
                (Some(template), Some(slug)) => Some(PostPlanView::Render { template, slug }),
                _ => None,
            }
        }
    }
}

/// The slug of a post: the string under `slug` in its front matter.
pub fn slug(front_matter: &FrontMatter) -> (slug: Option<String>)
    ensures
        slug.deep_view() == string_under(table_entries(*front_matter), "slug"@),
{
    match table_get(front_matter, "slug") {
        Some(Entry::Text(text)) => Some(text),
        _ => None,
    }
}

/// The name of the template of a post: the string under `template` in its
/// front matter.
pub fn template(front_matter: &FrontMatter) -> (template: Option<String>)
    ensures
        template.deep_view() == string_under(table_entries(*front_matter), "template"@),
{
    match table_get(front_matter, "template") {
        Some(Entry::Text(text)) => Some(text),
        _ => None,
    }
}

/// The day on which a post is published: the publication day of the
/// date-time under `published` in its front matter, and nothing for a post
/// that has no date-time there.
pub fn publication(front_matter: &FrontMatter) -> (day: Option<Day>)
    ensures
        day == match date_under(table_entries(*front_matter), "published"@) {
            Some(date) => Some(day_of(date)),
            None => None,
        },
{
    match table_get(front_matter, "published") {
        Some(Entry::Date(date)) => Some(publication_day(date)),
        _ => None,
    }
}

impl MarkdownCompiler {
    /// The settings for a build in the given mode. Posts start with front
    /// matter and may hold footnotes.
    pub fn new(build_mode: BuildMode) -> (compiler: Self)
        ensures
            compiler@ == (MarkdownSettings {
                build_mode,
                frontmatter: true,
                gfm_footnote_definition: true,
                gfm_label_start_footnote: true,
            }),
    {
        Self {
            build_mode,
            frontmatter: true,
            gfm_footnote_definition: true,
            gfm_label_start_footnote: true,
        }
    }

    /// The mode of the build.
    pub fn build_mode(&self) -> (mode: BuildMode)
        ensures
            mode == self@.build_mode,
    {
        self.build_mode
    }

    /// Whether front matter is recognised.
    pub fn frontmatter(&self) -> (on: bool)
        ensures
            on == self@.frontmatter,
    {
        self.frontmatter
    }

    /// Whether footnote definitions are recognised.
    pub fn gfm_footnote_definition(&self) -> (on: bool)
        ensures
            on == self@.gfm_footnote_definition,
    {
        self.gfm_footnote_definition
    }

    /// Whether footnote calls are recognised.
    pub fn gfm_label_start_footnote(&self) -> (on: bool)
        ensures
            on == self@.gfm_label_start_footnote,
    {
        self.gfm_label_start_footnote
    }

    /// Whether a post is rendered: a release build leaves out the posts
    /// that are not published, a development build renders them all.
    pub fn renders(&self, published: bool) -> (renders: bool)
        ensures
            renders == self@.renders(published),
    {
        !self.build_mode.is_release() || published
    }

    /// Renders a post as HTML. A post that is no valid Markdown is refused
    /// with the diagnostic of the parser.
    pub fn to_html(&self, content: &str) -> (html: Result<String, Error>)
        ensures
            match html_of(
                content@,
                self@.frontmatter,
                self@.gfm_footnote_definition,
                self@.gfm_label_start_footnote,
            ) {
                Ok(text) => html matches Ok(rendered) && rendered@ == text,
                Err(reason) => html matches Err(Error::MarkdownError(message)) && message@
                    == reason,
            },
    {
        match markdown_to_html(
            content,
            self.frontmatter,
            self.gfm_footnote_definition,
            self.gfm_label_start_footnote,
        ) {
            Ok(rendered) => Ok(rendered),
            Err(message) => Err(Error::MarkdownError(message)),
        }
    }

    /// Reads the front matter of a post: the TOML block that the post
    /// starts with. A post that is no valid Markdown is refused with the
    /// diagnostic of the parser, one that starts with anything else than a
    /// TOML block as missing its front matter, and one whose block is no
    /// valid TOML with the diagnostic of the TOML reader.
    pub fn parse_front_matter(&self, content: &str) -> (front_matter: Result<FrontMatter, Error>)
        ensures
            match toml_blocks(
                content@,
                self@.frontmatter,
                self@.gfm_footnote_definition,
                self@.gfm_label_start_footnote,
            ) {
                Err(reason) => front_matter matches Err(Error::MarkdownError(message)) && message@
                    == reason,
                Ok(blocks) => if blocks.len() > 0 && blocks[0] is Some {
                    match toml_reading(blocks[0]->0) {
                        Ok(entries) => front_matter matches Ok(table) && table_entries(table)
                            == entries,
                        Err(reason) => front_matter matches Err(Error::Toml(message)) && message@
                            == reason,
                    }
                } else {
                    front_matter == Err::<FrontMatter, Error>(Error::MissingFrontMatter)
                },
            },
    {
        let blocks = match markdown_toml_blocks(
            content,
            self.frontmatter,
            self.gfm_footnote_definition,
            self.gfm_label_start_footnote,
        ) {
            Ok(blocks) => blocks,
            Err(message) => {
                return Err(Error::MarkdownError(message));
            },
        };
        if blocks.len() == 0 {
            return Err(Error::MissingFrontMatter);
        }
        assert(blocks.deep_view()[0] == blocks@[0].deep_view());
        match &blocks[0] {
            Some(text) => match toml_from_str(text.as_str()) {
                Ok(table) => Ok(table),
                Err(message) => Err(Error::Toml(message)),
            },
            None => Err(Error::MissingFrontMatter),
        }
    }

    /// Decides what is done with a post, given its front matter and
    /// whether it is published. A post that is left out needs no more; one
    /// that is rendered needs a template and a slug, and there is no plan
    /// for one that lacks either.
    pub fn plan_post(&self, front_matter: &FrontMatter, published: bool) -> (plan: Option<PostPlan>)
        ensures
            plan_view(plan) == self@.plan(table_entries(*front_matter), published),
    {
        if !self.renders(published) {
            return Some(PostPlan::Skip);
        }
        match (template(front_matter), slug(front_matter)) {
            (Some(template), Some(slug)) => Some(PostPlan::Render { template, slug }),
            _ => None,
        }
    }
}

/// The day on which a post is published, given the date of its `published`
/// entry: that date, or the far future where the entry holds a time of day
/// without a date.
pub open spec fn day_of(date: Option<(u16, u8, u8)>) -> Day {
    match date {
        Some((year, month, day_of_month)) => Day {
            year: year as i32,
            month: month as u32,
            day: day_of_month as u32,
        },
        None => undated(),
    }
}

/// Computes the day on which a post is published from the date of its
/// `published` entry.
pub fn publication_day(date: Option<(u16, u8, u8)>) -> (day: Day)
    ensures
        day == day_of(date),
{
    match date {
        Some((year, month, day_of_month)) => Day {
            year: year as i32,
            month: month as u32,
            day: day_of_month as u32,
        },
        None => Day { year: 3000, month: 1, day: 1 },
    }
}

/// Whether a post is published at the moment `now`. `publication` is the
/// start of its publication day, and is missing for a post without a
/// `published` entry: such a post is not published. A post with one is
/// published once its publication day has begun.
pub fn is_published(publication: Option<Moment>, now: Moment) -> (published: bool)
    ensures
        published == match publication {
            Some(start) => start.before(now),
            None => false,
        },
{
    match publication {
        Some(start) => start.seconds < now.seconds || (start.seconds == now.seconds && start.nanos
            < now.nanos),
        None => false,
    }
}

} // verus!

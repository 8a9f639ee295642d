use vstd::prelude::*;

use crate::auth::Session;

verus! {

/// Whether a page is sent as a whole document or as a fragment to embed.
#[derive(Debug, Clone, Copy, PartialEq, Eq, Structural)]
pub enum ContentMode {
    Full,
    Embedded,
}

/// Who a page is rendered for.
#[derive(Debug, Clone, PartialEq, Eq)]
pub enum Auth {
    User(Session),
    Admin(Session),
    Guest,
}

/// The audience of a page, from the session that resolved, if any.
pub open spec fn auth_of(session: Option<Session>) -> Auth {
    match session {
        Some(s) => if s@.is_admin {
            Auth::Admin(s)
        } else {
            Auth::User(s)
        },
        None => Auth::Guest,
    }
}

impl From<Option<Session>> for Auth {
    fn from(session: Option<Session>) -> (r: Auth)
        ensures
            r == auth_of(session),
    {
        match session {
            Some(s) => if s.is_admin() {
                Auth::Admin(s)
            } else {
                Auth::User(s)
            },
            None => Auth::Guest,
        }
    }
}

impl vstd::std_specs::convert::FromSpecImpl<Option<Session>> for Auth {
    open spec fn obeys_from_spec() -> bool {
        true
    }

    open spec fn from_spec(session: Option<Session>) -> Auth {
        auth_of(session)
    }
}

/// The name shown before the path in every page title.
pub const SITE_NAME: &'static str = "AOx0";

/// The title of the page at `path`.
pub open spec fn title_for(path: Seq<char>) -> Seq<char> {
    SITE_NAME@ + " - "@ + path
}

/// What a page is rendered with: its title, its mode and its audience.
pub struct Template {
    title: String,
    mode: ContentMode,
    auth: Auth,
}

pub struct TemplateView {
    pub title: Seq<char>,
    pub mode: ContentMode,
    pub auth: Auth,
}

impl View for Template {
    type V = TemplateView;

    closed spec fn view(&self) -> TemplateView {
        TemplateView { title: self.title@, mode: self.mode, auth: self.auth }
    }
}

fn page_title(path: &str) -> (r: String)
    ensures
        r@ == title_for(path@),
{
    String::from_str(SITE_NAME).concat(" - ").concat(path)
}

impl Template {
    /// A fragment for an in-page loader. Fragments carry no navigation, so
    /// no session is resolved for them.
    pub fn embedded(path: &str) -> (t: Template)
        ensures
            t@.title == title_for(path@),
            t@.mode == ContentMode::Embedded,
            t@.auth == Auth::Guest,
    {
        Template { title: page_title(path), mode: ContentMode::Embedded, auth: Auth::Guest }
    }

    /// A whole document, for the session that resolved, if any.
    pub fn full(path: &str, session: Option<Session>) -> (t: Template)
        ensures
            t@.title == title_for(path@),
            t@.mode == ContentMode::Full,
            t@.auth == auth_of(session),
    {
        Template { title: page_title(path), mode: ContentMode::Full, auth: Auth::from(session) }
    }

    pub fn mode(&self) -> (r: ContentMode)
        ensures
            r == self@.mode,
    {
        self.mode
    }

    pub fn auth(&self) -> (r: &Auth)
        ensures
            *r == self@.auth,
    {
        &self.auth
    }

    pub fn title(&self) -> (r: &str)
        ensures
            r@ == self@.title,
    {
        self.title.as_str()
    }

    pub fn is_admin(&self) -> (r: bool)
        ensures
            r <==> self@.auth is Admin,
    {
        matches!(self.auth, Auth::Admin(_))
    }

    pub fn set_title(&mut self, title: &str)
        ensures
            final(self)@.title == title@,
            final(self)@.mode == old(self)@.mode,
            final(self)@.auth == old(self)@.auth,
    {
        self.title = String::from_str(title);
    }
}

/// The sections of the site, in the order the navigation lists them.
#[derive(Debug, Clone, Copy, PartialEq, Eq, Structural)]
pub enum Section {
    Admin,
    Home,
    About,
    Other,
}

pub open spec fn section_path(s: Section) -> Seq<char> {
    match s {
        Section::Admin => "/admin"@,
        Section::Home => "/"@,
        Section::About => "/about"@,
        Section::Other => "/other"@,
    }
}

pub open spec fn section_label(s: Section) -> Seq<char> {
    match s {
        Section::Admin => "Admin"@,
        Section::Home => "Home"@,
        Section::About => "About"@,
        Section::Other => "Other"@,
    }
}

/// The sections the navigation bar links to: every public one, then the
/// admin section for an administrator only.
pub open spec fn navigation_for(is_admin: bool) -> Seq<Section> {
    if is_admin {
        seq![Section::Home, Section::About, Section::Other, Section::Admin]
    } else {
        seq![Section::Home, Section::About, Section::Other]
    }
}

impl Section {
    pub fn map_path(self) -> (r: &'static str)
        ensures
            r@ == section_path(self),
    {
        match self {
            Section::Admin => "/admin",
            Section::Home => "/",
            Section::About => "/about",
            Section::Other => "/other",
        }
    }

    pub fn label(self) -> (r: &'static str)
        ensures
            r@ == section_label(self),
    {
        match self {
            Section::Admin => "Admin",
            Section::Home => "Home",
            Section::About => "About",
            Section::Other => "Other",
        }
    }

    pub fn navigation(auth: &Auth) -> (r: Vec<Section>)
        ensures
            r@ == navigation_for(*auth is Admin),
    {
        let mut r = vec![Section::Home, Section::About, Section::Other];
        if matches!(auth, Auth::Admin(_)) {
            r.push(Section::Admin);
        }
        assert(r@ =~= navigation_for(*auth is Admin));
        r
    }
}

/// What `str::to_uppercase` makes of a text.
pub uninterp spec fn uppercase_of(s: Seq<char>) -> Seq<char>;

/// Relies on `str::to_uppercase`: the upper-case form depends on the text
/// alone, and nothing comes of an empty text.
#[verifier::external_body]
fn uppercase(s: &str) -> (r: String)
    ensures
        r@ == uppercase_of(s@),
        s@.len() == 0 ==> r@.len() == 0,
{
    s.to_uppercase()
}

/// The upper-cased first letter of a name; nothing for an empty name.
pub open spec fn initial_of(name: Seq<char>) -> Seq<char> {
    if name.len() == 0 {
        Seq::empty()
    } else {
        uppercase_of(name.subrange(0, 1))
    }
}

fn initial(name: &str) -> (r: String)
    ensures
        r@ == initial_of(name@),
{
    if name.unicode_len() == 0 {
        String::new()
    } else {
        uppercase(name.substring_char(0, 1))
    }
}

/// The initials that stand for a signed-in user in the navigation bar.
pub fn initials(first_name: &str, last_name: &str) -> (r: String)
    ensures
        r@ == initial_of(first_name@) + initial_of(last_name@),
{
    let last = initial(last_name);
    initial(first_name).concat(last.as_str())
}

} // verus!

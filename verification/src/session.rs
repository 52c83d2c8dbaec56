use std::collections::HashMap;
use vstd::prelude::*;
use vstd::string::*;

verus! {

/// Where a session stands in its life.
#[derive(Debug, PartialEq, Eq, Structural, Clone, Copy)]
pub enum SessionStatus {
    Creating,
    Active,
    Complete,
}

/// What a session is, as the contracts see it.
pub struct EstimateSessionView {
    pub key: Seq<char>,
    pub title: Seq<char>,
    pub choices: Seq<Seq<char>>,
    pub options: Map<String, String>,
    pub status: SessionStatus,
}

/// An estimation session: its key, its title and the choices offered to voters.
#[derive(Debug)]
pub struct EstimateSession {
    key: String,
    title: String,
    choices: Vec<String>,
    options: HashMap<String, String>,
    status: SessionStatus,
}

/// The key under which a session with this title is stored: the title itself.
pub open spec fn spec_slug(title: Seq<char>) -> Seq<char> {
    title
}

/// The cards every new session offers.
pub open spec fn spec_default_choices() -> Seq<Seq<char>> {
    seq![
        "0"@, "0.5"@, "1"@, "2"@, "3"@, "5"@, "8"@, "13"@, "20"@, "40"@, "100"@, "?"@,
    ]
}

impl View for EstimateSession {
    type V = EstimateSessionView;

    closed spec fn view(&self) -> EstimateSessionView {
        EstimateSessionView {
            key: self.key@,
            title: self.title@,
            choices: self.choices.deep_view(),
            options: self.options@,
            status: self.status,
        }
    }
}

impl DeepView for EstimateSession {
    type V = EstimateSessionView;

    open spec fn deep_view(&self) -> EstimateSessionView {
        self@
    }
}

/// A copy of a list of texts.
pub fn clone_texts(v: &Vec<String>) -> (r: Vec<String>)
    ensures
        r.deep_view() == v.deep_view(),
{
    let mut r: Vec<String> = Vec::new();
    let mut i: usize = 0;
    while i < v.len()
        invariant
            i <= v.len(),
            r.deep_view() == v.deep_view().take(i as int),
        decreases v.len() - i,
    {
        r.push(v[i].clone());
        proof {
            assert(v.deep_view().take(i + 1) == v.deep_view().take(i as int).push(v[i as int]@));
        }
        i = i + 1;
    }
    proof {
        assert(v.deep_view().take(v.len() as int) == v.deep_view());
    }
    r
}

/// The key for a session with the given title.
pub fn slug_for(title: &str) -> (r: String)
    ensures
        r@ == spec_slug(title@),
{
    title.to_owned()
}

/// The cards offered by a new session, in order.
pub fn default_choices() -> (r: Vec<String>)
    ensures
        r.deep_view() == spec_default_choices(),
{
    let mut r: Vec<String> = Vec::new();
    r.push(String::from_str("0"));
    r.push(String::from_str("0.5"));
    r.push(String::from_str("1"));
    r.push(String::from_str("2"));
    r.push(String::from_str("3"));
    r.push(String::from_str("5"));
    r.push(String::from_str("8"));
    r.push(String::from_str("13"));
    r.push(String::from_str("20"));
    r.push(String::from_str("40"));
    r.push(String::from_str("100"));
    r.push(String::from_str("?"));
    proof {
        assert(r.deep_view() =~= spec_default_choices());
    }
    r
}

impl EstimateSession {
    /// A new session in the `Creating` state, keyed by its title, offering the default cards.
    pub fn new(title: String) -> (s: EstimateSession)
        ensures
            s@ == (EstimateSessionView {
                key: spec_slug(title@),
                title: title@,
                choices: spec_default_choices(),
                options: Map::empty(),
                status: SessionStatus::Creating,
            }),
    {
        EstimateSession {
            key: slug_for(title.as_str()),
            title,
            choices: default_choices(),
            options: HashMap::new(),
            status: SessionStatus::Creating,
        }
    }

    /// A session with every field given, as stored.
    pub fn from_parts(
        key: String,
        title: String,
        choices: Vec<String>,
        options: HashMap<String, String>,
        status: SessionStatus,
    ) -> (s: EstimateSession)
        ensures
            s@ == (EstimateSessionView {
                key: key@,
                title: title@,
                choices: choices.deep_view(),
                options: options@,
                status,
            }),
    {
        EstimateSession { key, title, choices, options, status }
    }

    pub fn key(&self) -> (r: &String)
        ensures
            r@ == self@.key,
    {
        &self.key
    }

    pub fn title(&self) -> (r: &String)
        ensures
            r@ == self@.title,
    {
        &self.title
    }

    pub fn set_title(&mut self, t: String)
        ensures
            final(self)@ == (EstimateSessionView { title: t@, ..old(self)@ }),
    {
        self.title = t;
    }

    pub fn choices(&self) -> (r: &Vec<String>)
        ensures
            r.deep_view() == self@.choices,
    {
        &self.choices
    }

    pub fn set_choices(&mut self, c: Vec<String>)
        ensures
            final(self)@ == (EstimateSessionView { choices: c.deep_view(), ..old(self)@ }),
    {
        self.choices = c;
    }

    pub fn options(&self) -> (r: &HashMap<String, String>)
        ensures
            r@ == self@.options,
    {
        &self.options
    }

    pub fn status(&self) -> (r: SessionStatus)
        ensures
            r == self@.status,
    {
        self.status
    }
}

impl Clone for EstimateSession {
    fn clone(&self) -> (s: Self)
        ensures
            s@ == self@,
    {
        EstimateSession {
            key: self.key.clone(),
            title: self.title.clone(),
            choices: clone_texts(&self.choices),
            options: self.options.clone(),
            status: self.status,
        }
    }
}

} // verus!

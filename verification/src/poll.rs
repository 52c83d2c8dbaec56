use crate::text::text_eq;
use std::collections::HashMap;
use vstd::prelude::*;
use vstd::string::*;

verus! {

/// Where a poll stands: waiting, taking votes, or closed.
#[derive(Debug, PartialEq, Eq, Structural, Clone, Copy)]
pub enum PollStatus {
    Pending,
    Active,
    Complete,
}

/// The text of a status, as displayed and as accepted by `PollStatus::from_str`.
pub open spec fn status_label(s: PollStatus) -> Seq<char> {
    match s {
        PollStatus::Pending => "Pending"@,
        PollStatus::Active => "Active"@,
        PollStatus::Complete => "Complete"@,
    }
}

/// The status that a text names, if it names one.
pub open spec fn parse_status(s: Seq<char>) -> Option<PollStatus> {
    if s == "Pending"@ {
        Some(PollStatus::Pending)
    } else if s == "Active"@ {
        Some(PollStatus::Active)
    } else if s == "Complete"@ {
        Some(PollStatus::Complete)
    } else {
        None
    }
}

/// A text that names no poll status.
#[derive(Debug)]
pub struct InvalidPollStatus {
    pub input: String,
}

/// What the refusal of `input` as a poll status says.
pub open spec fn spec_invalid_status_message(input: Seq<char>) -> Seq<char> {
    "Invalid theme ["@ + input + "]"@
}

impl InvalidPollStatus {
    /// What the refusal says: `Invalid theme [{input}]`.
    pub fn message(&self) -> (r: String)
        ensures
            r@ == spec_invalid_status_message(self.input@),
    {
        let mut r = "Invalid theme [".to_owned();
        r.append(self.input.as_str());
        r.append("]");
        r
    }
}

impl PollStatus {
    /// Reads a status from its exact name (`Pending`, `Active` or `Complete`);
    /// any other text is refused, the refusal saying `Invalid theme [{s}]`.
    pub fn from_str(s: &str) -> (r: Result<PollStatus, InvalidPollStatus>)
        ensures
            match r {
                Ok(st) => parse_status(s@) == Some(st),
                Err(e) => parse_status(s@) is None && e.input@ == s@ && spec_invalid_status_message(e.input@)
                    == "Invalid theme ["@ + s@ + "]"@,
            },
    {
        if text_eq(s, "Pending") {
            Ok(PollStatus::Pending)
        } else if text_eq(s, "Active") {
            Ok(PollStatus::Active)
        } else if text_eq(s, "Complete") {
            Ok(PollStatus::Complete)
        } else {
            Err(InvalidPollStatus { input: s.to_owned() })
        }
    }

    /// The status's name, as it is displayed.
    pub fn to_string(&self) -> (r: String)
        ensures
            r@ == status_label(*self),
    {
        match self {
            PollStatus::Pending => String::from_str("Pending"),
            PollStatus::Active => String::from_str("Active"),
            PollStatus::Complete => String::from_str("Complete"),
        }
    }
}

/// Reading back the name of a status gives that status.
pub proof fn law_status_name_round_trip(s: PollStatus)
    ensures
        parse_status(status_label(s)) == Some(s),
{
    reveal_strlit("Pending");
    reveal_strlit("Active");
    reveal_strlit("Complete");
    assert("Pending"@.len() == 7);
    assert("Active"@.len() == 6);
    assert("Complete"@.len() == 8);
}

/// What a poll is, as the contracts see it.
pub struct PollView {
    pub id: u128,
    pub idx: u32,
    pub author_id: u128,
    pub title: Seq<char>,
    pub status: PollStatus,
    pub final_vote: Option<Seq<char>>,
}

/// A question put to the session, with its place in the session's list.
#[derive(Debug)]
pub struct Poll {
    id: u128,
    idx: u32,
    author_id: u128,
    title: String,
    status: PollStatus,
    final_vote: Option<String>,
}

/// The text of an optional text, as the contracts see it.
pub open spec fn opt_text(o: Option<String>) -> Option<Seq<char>> {
    match o {
        Some(s) => Some(s@),
        None => None,
    }
}

impl View for Poll {
    type V = PollView;

    closed spec fn view(&self) -> PollView {
        PollView {
            id: self.id,
            idx: self.idx,
            author_id: self.author_id,
            title: self.title@,
            status: self.status,
            final_vote: opt_text(self.final_vote),
        }
    }
}

impl DeepView for Poll {
    type V = PollView;

    open spec fn deep_view(&self) -> PollView {
        self@
    }
}

impl Poll {
    /// A poll without a final vote.
    pub fn new(id: u128, idx: u32, author_id: u128, title: String, status: PollStatus) -> (p: Poll)
        ensures
            p@ == (PollView { id, idx, author_id, title: title@, status, final_vote: None }),
    {
        Poll { id, idx, author_id, title, status, final_vote: None }
    }

    pub fn id(&self) -> (r: u128)
        ensures
            r == self@.id,
    {
        self.id
    }

    pub fn idx(&self) -> (r: u32)
        ensures
            r == self@.idx,
    {
        self.idx
    }

    pub fn author_id(&self) -> (r: u128)
        ensures
            r == self@.author_id,
    {
        self.author_id
    }

    pub fn title(&self) -> (r: &String)
        ensures
            r@ == self@.title,
    {
        &self.title
    }

    pub fn set_title(&mut self, t: String)
        ensures
            final(self)@ == (PollView { title: t@, ..old(self)@ }),
    {
        self.title = t;
    }

    pub fn status(&self) -> (r: &PollStatus)
        ensures
            *r == self@.status,
    {
        &self.status
    }

    pub fn set_status(&mut self, s: PollStatus)
        ensures
            final(self)@ == (PollView { status: s, ..old(self)@ }),
    {
        self.status = s;
    }

    pub fn final_vote(&self) -> (r: &Option<String>)
        ensures
            opt_text(*r) == self@.final_vote,
    {
        &self.final_vote
    }

    pub fn set_final_vote(&mut self, v: Option<String>)
        ensures
            final(self)@ == (PollView { final_vote: opt_text(v), ..old(self)@ }),
    {
        self.final_vote = v;
    }
}

/// A copy of an optional text.
pub fn clone_opt_text(o: &Option<String>) -> (r: Option<String>)
    ensures
        opt_text(r) == opt_text(*o),
{
    match o {
        Some(s) => Some(s.clone()),
        None => None,
    }
}

impl Clone for Poll {
    fn clone(&self) -> (p: Self)
        ensures
            p@ == self@,
    {
        Poll {
            id: self.id,
            idx: self.idx,
            author_id: self.author_id,
            title: self.title.clone(),
            status: self.status,
            final_vote: clone_opt_text(&self.final_vote),
        }
    }
}

/// The kinds of change recorded against a poll.
#[derive(Debug, PartialEq, Eq, Structural, Clone, Copy)]
pub enum PollActionType {
    UpdateTitle,
    StatusChange,
    CastVote,
}

/// A change made to a poll by a user, with free-form context.
#[derive(Debug)]
pub struct PollAction {
    id: u128,
    poll_id: u128,
    user_id: u128,
    t: PollActionType,
    ctx: HashMap<String, String>,
    message: String,
}

impl PollAction {
    pub closed spec fn spec_ids(&self) -> (u128, u128, u128) {
        (self.id, self.poll_id, self.user_id)
    }

    pub closed spec fn spec_type(&self) -> PollActionType {
        self.t
    }

    pub closed spec fn spec_message(&self) -> Seq<char> {
        self.message@
    }

    pub closed spec fn spec_ctx(&self) -> Map<String, String> {
        self.ctx@
    }

    pub fn new(
        id: u128,
        poll_id: u128,
        user_id: u128,
        t: PollActionType,
        ctx: HashMap<String, String>,
        message: String,
    ) -> (a: PollAction)
        ensures
            a.spec_ids() == (id, poll_id, user_id),
            a.spec_type() == t,
            a.spec_message() == message@,
            a.spec_ctx() == ctx@,
    {
        PollAction { id, poll_id, user_id, t, ctx, message }
    }

    pub fn id(&self) -> (r: u128)
        ensures
            r == self.spec_ids().0,
    {
        self.id
    }

    pub fn poll_id(&self) -> (r: u128)
        ensures
            r == self.spec_ids().1,
    {
        self.poll_id
    }

    pub fn user_id(&self) -> (r: u128)
        ensures
            r == self.spec_ids().2,
    {
        self.user_id
    }

    pub fn action_type(&self) -> (r: PollActionType)
        ensures
            r == self.spec_type(),
    {
        self.t
    }

    pub fn ctx(&self) -> (r: &HashMap<String, String>)
        ensures
            r@ == self.spec_ctx(),
    {
        &self.ctx
    }

    pub fn message(&self) -> (r: &String)
        ensures
            r@ == self.spec_message(),
    {
        &self.message
    }
}

/// What a vote is, as the contracts see it.
pub struct VoteView {
    pub poll_id: u128,
    pub user_id: u128,
    pub choice: Seq<char>,
}

/// One user's choice in one poll.
#[derive(Debug)]
pub struct Vote {
    poll_id: u128,
    user_id: u128,
    choice: String,
}

impl View for Vote {
    type V = VoteView;

    closed spec fn view(&self) -> VoteView {
        VoteView { poll_id: self.poll_id, user_id: self.user_id, choice: self.choice@ }
    }
}

impl DeepView for Vote {
    type V = VoteView;

    open spec fn deep_view(&self) -> VoteView {
        self@
    }
}

impl Vote {
    pub fn new(poll_id: u128, user_id: u128, choice: String) -> (v: Vote)
        ensures
            v@ == (VoteView { poll_id, user_id, choice: choice@ }),
    {
        Vote { poll_id, user_id, choice }
    }

    pub fn poll_id(&self) -> (r: u128)
        ensures
            r == self@.poll_id,
    {
        self.poll_id
    }

    pub fn user_id(&self) -> (r: u128)
        ensures
            r == self@.user_id,
    {
        self.user_id
    }

    pub fn choice(&self) -> (r: &String)
        ensures
            r@ == self@.choice,
    {
        &self.choice
    }

    pub fn set_choice(&mut self, c: String)
        ensures
            final(self)@ == (VoteView { choice: c@, ..old(self)@ }),
    {
        self.choice = c;
    }
}

impl Clone for Vote {
    fn clone(&self) -> (v: Self)
        ensures
            v@ == self@,
    {
        Vote { poll_id: self.poll_id, user_id: self.user_id, choice: self.choice.clone() }
    }
}


/// A copy of a list of polls.
pub fn clone_polls(v: &Vec<Poll>) -> (r: Vec<Poll>)
    ensures
        r.deep_view() == v.deep_view(),
{
    let mut r: Vec<Poll> = Vec::new();
    let mut i: usize = 0;
    while i < v.len()
        invariant
            i <= v.len(),
            r.deep_view() == v.deep_view().take(i as int),
        decreases v.len() - i,
    {
        r.push(v[i].clone());
        proof {
            assert(v.deep_view().take(i + 1) =~= v.deep_view().take(i as int).push(v[i as int]@));
        }
        i = i + 1;
    }
    proof {
        assert(v.deep_view().take(v.len() as int) =~= v.deep_view());
    }
    r
}

/// A copy of a list of votes.
pub fn clone_votes(v: &Vec<Vote>) -> (r: Vec<Vote>)
    ensures
        r.deep_view() == v.deep_view(),
{
    let mut r: Vec<Vote> = Vec::new();
    let mut i: usize = 0;
    while i < v.len()
        invariant
            i <= v.len(),
            r.deep_view() == v.deep_view().take(i as int),
        decreases v.len() - i,
    {
        r.push(v[i].clone());
        proof {
            assert(v.deep_view().take(i + 1) =~= v.deep_view().take(i as int).push(v[i as int]@));
        }
        i = i + 1;
    }
    proof {
        assert(v.deep_view().take(v.len() as int) =~= v.deep_view());
    }
    r
}

} // verus!

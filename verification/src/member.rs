use vstd::prelude::*;
use vstd::string::*;

verus! {

/// The part a member plays in an estimation session.
#[derive(Debug, PartialEq, Eq, Structural, Clone, Copy)]
pub enum MemberRole {
    Creator,
    Admin,
    Participant,
    Observer,
    Invited,
}

/// The text shown for a role.
pub open spec fn role_label(r: MemberRole) -> Seq<char> {
    match r {
        MemberRole::Creator => "Creator"@,
        MemberRole::Admin => "Admin"@,
        MemberRole::Participant => "Participant"@,
        MemberRole::Observer => "Observer"@,
        MemberRole::Invited => "Invited"@,
    }
}

impl MemberRole {
    /// The role's name, as it is displayed.
    pub fn to_string(&self) -> (s: String)
        ensures
            s@ == role_label(*self),
    {
        match self {
            MemberRole::Creator => String::from_str("Creator"),
            MemberRole::Admin => String::from_str("Admin"),
            MemberRole::Participant => String::from_str("Participant"),
            MemberRole::Observer => String::from_str("Observer"),
            MemberRole::Invited => String::from_str("Invited"),
        }
    }
}

/// What a member is, as the contracts see it.
pub struct MemberView {
    pub user_id: u128,
    pub name: Seq<char>,
    pub role: MemberRole,
}

/// A user taking part in a session.
#[derive(Debug)]
pub struct Member {
    user_id: u128,
    name: String,
    role: MemberRole,
}

impl View for Member {
    type V = MemberView;

    closed spec fn view(&self) -> MemberView {
        MemberView { user_id: self.user_id, name: self.name@, role: self.role }
    }
}

impl DeepView for Member {
    type V = MemberView;

    open spec fn deep_view(&self) -> MemberView {
        self@
    }
}

impl Member {
    pub fn new(user_id: u128, name: String, role: MemberRole) -> (m: Member)
        ensures
            m@ == (MemberView { user_id, name: name@, role }),
    {
        Member { user_id, name, role }
    }

    pub fn user_id(&self) -> (id: u128)
        ensures
            id == self@.user_id,
    {
        self.user_id
    }

    pub fn name(&self) -> (n: &String)
        ensures
            n@ == self@.name,
    {
        &self.name
    }

    pub fn set_name(&mut self, t: String)
        ensures
            final(self)@ == (MemberView { name: t@, ..old(self)@ }),
    {
        self.name = t;
    }

    pub fn role(&self) -> (r: &MemberRole)
        ensures
            *r == self@.role,
    {
        &self.role
    }

    pub fn set_role(&mut self, r: MemberRole)
        ensures
            final(self)@ == (MemberView { role: r, ..old(self)@ }),
    {
        self.role = r;
    }
}

impl Clone for Member {
    fn clone(&self) -> (m: Self)
        ensures
            m@ == self@,
    {
        Member { user_id: self.user_id, name: self.name.clone(), role: self.role }
    }
}


/// A copy of a list of members.
pub fn clone_members(v: &Vec<Member>) -> (r: Vec<Member>)
    ensures
        r.deep_view() == v.deep_view(),
{
    let mut r: Vec<Member> = Vec::new();
    let mut i: usize = 0;
    while i < v.len()
        invariant
            i <= v.len(),
            r.deep_view() == v.deep_view().take(i as int),
        decreases v.len() - i,
    {
        r.push(v[i].clone());
        proof {
            assert(v.deep_view().take(i + 1) =~= v.deep_view().take(i as int).push(v[i as int]@));
        }
        i = i + 1;
    }
    proof {
        assert(v.deep_view().take(v.len() as int) =~= v.deep_view());
    }
    r
}

} // verus!

use vstd::prelude::*;

verus! {

/// A user's profile, as the contracts see it.
pub struct UserProfileView {
    pub name: Seq<char>,
    pub theme: Seq<char>,
    pub navbar_color: Seq<char>,
    pub link_color: Seq<char>,
}

/// A user's profile: the name the user goes by, and the look the user chose
/// (the theme's name and the navigation bar and link colours).
#[derive(Debug)]
pub struct UserProfile {
    name: String,
    theme: String,
    navbar_color: String,
    link_color: String,
}

impl View for UserProfile {
    type V = UserProfileView;

    closed spec fn view(&self) -> UserProfileView {
        UserProfileView {
            name: self.name@,
            theme: self.theme@,
            navbar_color: self.navbar_color@,
            link_color: self.link_color@,
        }
    }
}

impl UserProfile {
    pub fn new(name: String, theme: String, navbar_color: String, link_color: String) -> (p: UserProfile)
        ensures
            p@ == (UserProfileView {
                name: name@,
                theme: theme@,
                navbar_color: navbar_color@,
                link_color: link_color@,
            }),
    {
        UserProfile { name, theme, navbar_color, link_color }
    }

    pub fn name(&self) -> (r: &String)
        ensures
            r@ == self@.name,
    {
        &self.name
    }

    pub fn theme(&self) -> (r: &String)
        ensures
            r@ == self@.theme,
    {
        &self.theme
    }

    pub fn navbar_color(&self) -> (r: &String)
        ensures
            r@ == self@.navbar_color,
    {
        &self.navbar_color
    }

    pub fn link_color(&self) -> (r: &String)
        ensures
            r@ == self@.link_color,
    {
        &self.link_color
    }

    /// Changes the name, keeping the rest of the profile.
    pub fn set_name(&mut self, name: &str)
        ensures
            final(self)@ == (UserProfileView { name: name@, ..old(self)@ }),
    {
        self.name = name.to_owned();
    }
}

impl Clone for UserProfile {
    fn clone(&self) -> (p: Self)
        ensures
            p@ == self@,
    {
        UserProfile {
            name: self.name.clone(),
            theme: self.theme.clone(),
            navbar_color: self.navbar_color.clone(),
            link_color: self.link_color.clone(),
        }
    }
}

} // verus!

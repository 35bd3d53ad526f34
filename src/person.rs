use vstd::prelude::*;

verus! {

/// The profile a peer publishes: a display name, an optional avatar image
/// and a short biography.
#[derive(Clone, Debug, PartialEq, Eq)]
pub struct Person {
    pub name: String,
    pub avatar: Option<Vec<u8>>,
    pub bio: String,
}

/// The mathematical value of a [`Person`].
pub ghost struct PersonView {
    pub name: Seq<char>,
    pub avatar: Option<Seq<u8>>,
    pub bio: Seq<char>,
}

pub open spec fn avatar_view(avatar: Option<Vec<u8>>) -> Option<Seq<u8>> {
    match avatar {
        Some(a) => Some(a@),
        None => None,
    }
}

impl View for Person {
    type V = PersonView;

    open spec fn view(&self) -> PersonView {
        PersonView { name: self.name@, avatar: avatar_view(self.avatar), bio: self.bio@ }
    }
}

impl Person {
    /// Builds a profile from its three parts.
    pub fn new(name: String, avatar: Option<Vec<u8>>, bio: String) -> (r: Person)
        ensures
            r@ == (PersonView { name: name@, avatar: avatar_view(avatar), bio: bio@ }),
    {
        Person { name, avatar, bio }
    }
}

} // verus!

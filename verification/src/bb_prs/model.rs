//! The list of pull requests as the service reports it.

use vstd::prelude::*;

verus! {

/// A user of the service.
pub struct User {
    pub display_name: String,
}

/// Who opened a pull request.
pub struct Author {
    pub user: User,
}

/// A link to a page.
pub struct Link {
    pub href: String,
}

/// The links of a pull request; `selfs` are those to its own page.
pub struct LinkList {
    pub selfs: Vec<Link>,
}

/// A pull request.
pub struct PullRequest {
    pub id: i64,
    pub title: String,
    pub state: String,
    pub author: Author,
    pub links: LinkList,
}

/// The answer of the service: the pull requests it lists.
pub struct Response {
    pub values: Vec<PullRequest>,
}

impl PullRequest {
    /// The pull request has a link to its own page.
    pub open spec fn linked(&self) -> bool {
        self.links.selfs@.len() > 0
    }

    /// Whether the pull request has a link to its own page.
    pub fn has_link(&self) -> (linked: bool)
        ensures
            linked == self.linked(),
    {
        self.links.selfs.len() > 0
    }

    /// The first link to the pull request's own page.
    pub fn link(&self) -> (href: &str)
        requires
            self.linked(),
        ensures
            href@ == self.links.selfs@[0].href@,
    {
        self.links.selfs[0].href.as_str()
    }

    /// The displayed name of the user who opened the pull request.
    pub fn author(&self) -> (name: &str)
        ensures
            name@ == self.author.user.display_name@,
    {
        self.author.user.display_name.as_str()
    }
}

impl Response {
    /// Every pull request has a link to its own page.
    pub open spec fn linked(&self) -> bool {
        forall|i: int| 0 <= i < self.values@.len() ==> (#[trigger] self.values@[i]).linked()
    }

    /// Whether every pull request has a link to its own page.
    pub fn has_links(&self) -> (linked: bool)
        ensures
            linked == self.linked(),
    {
        let mut i: usize = 0;
        while i < self.values.len()
            invariant
                i <= self.values.len(),
                forall|k: int| 0 <= k < i ==> (#[trigger] self.values@[k]).linked(),
            decreases self.values.len() - i,
        {
            if !self.values[i].has_link() {
                return false;
            }
            i += 1;
        }
        true
    }
}

} // verus!

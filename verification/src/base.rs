//! Base value types: stable ids and the game data root.

use vstd::prelude::*;

verus! {

/// Stable id of a plugin owner scope.
#[derive(Debug, Clone, Copy, PartialEq, Eq, Structural, Hash, PartialOrd, Ord)]
pub struct OwnerId(pub u64);

/// Stable id of a cross-domain message route.
#[derive(Debug, Clone, Copy, PartialEq, Eq, Structural, Hash, PartialOrd, Ord)]
pub struct RouteId(pub u64);

/// Stable id of a debug topic.
#[derive(Debug, Clone, Copy, PartialEq, Eq, Structural, Hash, PartialOrd, Ord)]
pub struct TopicId(pub u64);

/// A path is absolute when it starts at the root directory.
pub open spec fn is_absolute(path: Seq<char>) -> bool {
    path.len() > 0 && path[0] == '/'
}

/// `relative` resolved under `root`: an absolute path stands for itself;
/// otherwise the two are joined by exactly one added separator, and by none
/// where the root is empty or ends in one.
pub open spec fn joined(root: Seq<char>, relative: Seq<char>) -> Seq<char> {
    if is_absolute(relative) {
        relative
    } else if root.len() > 0 && root.last() != '/' {
        root.push('/') + relative
    } else {
        root + relative
    }
}

/// The game sandbox Documents directory: the only writable root the runtime
/// reads configuration from and creates its files under. Never a project
/// root, never a `.app` path.
#[derive(Debug, Clone, PartialEq, Eq)]
pub struct DataRoot(String);

impl DataRoot {
    /// The path of this root.
    pub closed spec fn root(&self) -> Seq<char> {
        self.0@
    }

    #[must_use]
    pub fn new(path: String) -> (r: Self)
        ensures
            r.root() == path@,
    {
        DataRoot(path)
    }

    #[must_use]
    pub fn path(&self) -> (r: &String)
        ensures
            r@ == self.root(),
    {
        &self.0
    }

    /// Resolves `relative` under this root.
    #[must_use]
    pub fn join(&self, relative: &str) -> (r: String)
        ensures
            r@ == joined(self.root(), relative@),
    {
        if relative.unicode_len() > 0 && relative.get_char(0) == '/' {
            return relative.to_owned();
        }
        let mut path: String = self.0.clone();
        let len: usize = path.as_str().unicode_len();
        if len > 0 && path.as_str().get_char(len - 1) != '/' {
            path.append("/");
            proof {
                reveal_strlit("/");
                assert(path@ =~= self.root().push('/'));
            }
        }
        path.append(relative);
        path
    }

    /// Text for logs. It never shows the concrete user path.
    #[must_use]
    pub fn display(&self) -> (r: String)
        ensures
            r@ == "DataRoot(<documents>)"@,
    {
        "DataRoot(<documents>)".to_owned()
    }
}

/// Every path under a root that does not start at the file system root keeps
/// the root as its prefix.
pub proof fn joined_stays_under_root(root: Seq<char>, relative: Seq<char>)
    requires
        !is_absolute(relative),
    ensures
        root.is_prefix_of(joined(root, relative)),
{
}

} // verus!

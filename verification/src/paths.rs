//! Places in the file system, named relative to a directory that the caller
//! knows.

use vstd::prelude::*;

verus! {

/// A path below some directory: the names to join to it, in turn.
#[derive(Debug, PartialEq, Eq)]
pub struct PathBelow {
    pub names: Vec<String>,
}

impl View for PathBelow {
    type V = Seq<Seq<char>>;

    open spec fn view(&self) -> Seq<Seq<char>> {
        self.names.deep_view()
    }
}

impl PathBelow {
    /// A file directly in the directory.
    pub fn file(name: String) -> (r: PathBelow)
        ensures
            r@ == seq![name@],
    {
        let mut names: Vec<String> = Vec::new();
        names.push(name);
        assert(names.deep_view() =~= seq![name@]);
        PathBelow { names }
    }

    /// A file in a directory below the directory.
    pub fn file_in(directory: &str, name: String) -> (r: PathBelow)
        ensures
            r@ == seq![directory@, name@],
    {
        let mut names: Vec<String> = Vec::new();
        names.push(String::from_str(directory));
        names.push(name);
        assert(names.deep_view() =~= seq![directory@, name@]);
        PathBelow { names }
    }
}

} // verus!

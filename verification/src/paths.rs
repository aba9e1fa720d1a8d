//! Paths below the home directory.
use vstd::prelude::*;

use crate::text::texts;

verus! {

/// A path that starts at the home directory and goes on by the names in turn. How the names are
/// joined is up to the operating system.
#[derive(Debug, PartialEq, Eq)]
pub struct FilePath {
    pub home: String,
    pub names: Vec<String>,
}

/// The contents of a [`FilePath`].
#[verifier::ext_equal]
pub struct FilePathView {
    pub home: Seq<char>,
    pub names: Seq<Seq<char>>,
}

impl View for FilePath {
    type V = FilePathView;

    open spec fn view(&self) -> FilePathView {
        FilePathView { home: self.home@, names: texts(self.names@) }
    }
}

impl FilePathView {
    /// The path of an entry of this directory.
    pub open spec fn join(self, name: Seq<char>) -> FilePathView {
        FilePathView { home: self.home, names: self.names.push(name) }
    }
}

/// The home directory itself.
pub open spec fn home_dir(home: Seq<char>) -> FilePathView {
    FilePathView { home, names: Seq::empty() }
}

impl Clone for FilePath {
    fn clone(&self) -> (r: FilePath)
        ensures
            r@ == self@,
    {
        let mut names: Vec<String> = Vec::new();
        for i in 0..self.names.len()
            invariant
                texts(names@) == texts(self.names@).take(i as int),
        {
            let ghost before = texts(names@);
            names.push(self.names[i].clone());
            assert(texts(names@) =~= before.push(texts(self.names@)[i as int]));
            assert(texts(names@) =~= texts(self.names@).take(i as int + 1));
        }
        assert(texts(self.names@).take(self.names@.len() as int) =~= texts(self.names@));
        FilePath { home: self.home.clone(), names }
    }
}

impl FilePath {
    /// The home directory.
    pub fn home(home: &str) -> (r: FilePath)
        ensures
            r@ == home_dir(home@),
    {
        let r = FilePath { home: home.to_owned(), names: Vec::new() };
        assert(r@.names =~= Seq::<Seq<char>>::empty());
        r
    }

    /// The path of an entry of this directory.
    pub fn join(self, name: &str) -> (r: FilePath)
        ensures
            r@ == self@.join(name@),
    {
        let home = self.home;
        let mut names = self.names;
        names.push(name.to_owned());
        let r = FilePath { home, names };
        assert(r@.names =~= self@.names.push(name@));
        r
    }
}

} // verus!

//! The submitted project: a table of named text files.
//!
//! A request body carries the project as a map from file name to content; the
//! handler takes the two files the toolchain knows — the source file and the
//! auxiliary parameter file — out of the table, leaving empty content behind,
//! and writes them into the workspace.

use vstd::prelude::*;

verus! {

/// One named text blob of a submitted project.
pub struct File {
    pub content: String,
}

impl Default for File {
    /// A file that a request did not supply has empty content.
    fn default() -> (r: File)
        ensures
            r.content@ == Seq::<char>::empty(),
    {
        File { content: String::new() }
    }
}

/// One entry of the project's file table.
pub struct Entry {
    pub name: String,
    pub file: File,
}

/// The name under which the toolchain expects the source file.
pub open spec fn source_name() -> Seq<char> {
    "main.nr"@
}

/// The name under which the toolchain expects the auxiliary parameter file.
pub open spec fn prover_name() -> Seq<char> {
    "Prover.toml"@
}

/// A submitted project: a map from file name to file, kept as a table whose
/// keys never repeat.
pub struct Project {
    pub files: Vec<Entry>,
}

impl Project {
    /// The file table models a map: no two entries share a name.
    pub open spec fn wf(self) -> bool {
        forall|i: int, j: int|
            0 <= i < j < self.files@.len() ==> self.files@[i].name@ != self.files@[j].name@
    }

    /// Whether some entry is named `name`.
    pub open spec fn spec_has_file(self, name: Seq<char>) -> bool {
        exists|i: int| 0 <= i < self.files@.len() && self.files@[i].name@ == name
    }

    /// The index of the entry named `name` (unique in a well-formed table).
    pub open spec fn spec_file_index(self, name: Seq<char>) -> int {
        choose|i: int| 0 <= i < self.files@.len() && self.files@[i].name@ == name
    }

    /// An empty project.
    pub fn new() -> (r: Project)
        ensures
            r.files@.len() == 0,
            r.wf(),
    {
        Project { files: Vec::new() }
    }

    /// The index of the entry named `name`, if the table has one.
    pub fn find(&self, name: &String) -> (r: Option<usize>)
        ensures
            match r {
                Some(i) => i < self.files@.len() && self.files@[i as int].name@ == name@,
                None => !self.spec_has_file(name@),
            },
    {
        let mut i: usize = 0;
        while i < self.files.len()
            invariant
                i <= self.files@.len(),
                forall|k: int| 0 <= k < i as int ==> self.files@[k].name@ != name@,
            decreases self.files@.len() - i as int,
        {
            if self.files[i].name == *name {
                return Some(i);
            }
            i += 1;
        }
        None
    }

    /// Takes the file named `name` out of the table, leaving an entry with
    /// empty content under the same name; a missing name yields the default
    /// file and leaves the table unchanged.
    pub fn take_file(&mut self, name: &String) -> (r: File)
        requires
            old(self).wf(),
        ensures
            final(self).wf(),
            final(self).files@.len() == old(self).files@.len(),
            !old(self).spec_has_file(name@) ==> r.content@ == Seq::<char>::empty()
                && *final(self) == *old(self),
            old(self).spec_has_file(name@) ==> {
                let i = old(self).spec_file_index(name@);
                &&& r == old(self).files@[i].file
                &&& final(self).files@[i].name == old(self).files@[i].name
                &&& final(self).files@[i].file.content@ == Seq::<char>::empty()
                &&& final(self).files@ == old(self).files@.update(i, final(self).files@[i])
            },
    {
        match self.find(name) {
            Some(i) => {
                let entry = self.files.remove(i);
                let blank = String::new();
                self.files.insert(i, Entry { name: entry.name, file: File { content: blank } });
                proof {
                    assert(old(self).spec_has_file(name@));
                    let gi = old(self).spec_file_index(name@);
                    assert(0 <= gi < old(self).files@.len() && old(self).files@[gi].name@
                        == name@);
                    assert(gi == i as int);
                    assert(self.files@ =~= old(self).files@.update(gi, self.files@[gi]));
                    assert forall|a: int, b: int|
                        0 <= a < b < self.files@.len() implies self.files@[a].name@
                        != self.files@[b].name@ by {
                        assert(old(self).files@[a].name@ != old(self).files@[b].name@);
                    }
                }
                entry.file
            },
            None => {
                File::default()
            },
        }
    }

    /// Takes the source file (`main.nr`) out of the table.
    pub fn take_source(&mut self) -> (r: File)
        requires
            old(self).wf(),
        ensures
            final(self).wf(),
            final(self).files@.len() == old(self).files@.len(),
            !old(self).spec_has_file(source_name()) ==> r.content@ == Seq::<char>::empty()
                && *final(self) == *old(self),
            old(self).spec_has_file(source_name()) ==> {
                let i = old(self).spec_file_index(source_name());
                &&& r == old(self).files@[i].file
                &&& final(self).files@[i].name == old(self).files@[i].name
                &&& final(self).files@[i].file.content@ == Seq::<char>::empty()
                &&& final(self).files@ == old(self).files@.update(i, final(self).files@[i])
            },
    {
        let name = String::from_str("main.nr");
        self.take_file(&name)
    }

    /// Takes the auxiliary parameter file (`Prover.toml`) out of the table.
    pub fn take_prover(&mut self) -> (r: File)
        requires
            old(self).wf(),
        ensures
            final(self).wf(),
            final(self).files@.len() == old(self).files@.len(),
            !old(self).spec_has_file(prover_name()) ==> r.content@ == Seq::<char>::empty()
                && *final(self) == *old(self),
            old(self).spec_has_file(prover_name()) ==> {
                let i = old(self).spec_file_index(prover_name());
                &&& r == old(self).files@[i].file
                &&& final(self).files@[i].name == old(self).files@[i].name
                &&& final(self).files@[i].file.content@ == Seq::<char>::empty()
                &&& final(self).files@ == old(self).files@.update(i, final(self).files@[i])
            },
    {
        let name = String::from_str("Prover.toml");
        self.take_file(&name)
    }

    /// Sets the file named `name` to `file`, replacing the entry of that name
    /// if one exists and appending a new entry otherwise. The table stays a
    /// map: keys never repeat.
    pub fn set_file(&mut self, name: String, file: File)
        requires
            old(self).wf(),
        ensures
            final(self).wf(),
            !old(self).spec_has_file(name@) ==> final(self).files@ == old(self).files@.push(
                Entry { name, file },
            ),
            old(self).spec_has_file(name@) ==> final(self).files@ == old(self).files@.update(
                old(self).spec_file_index(name@),
                Entry { name, file },
            ),
    {
        match self.find(&name) {
            Some(i) => {
                let _ = self.files.remove(i);
                self.files.insert(i, Entry { name, file });
                proof {
                    let gi = old(self).spec_file_index(name@);
                    assert(old(self).spec_has_file(name@));
                    assert(gi == i as int);
                    assert(self.files@ =~= old(self).files@.update(gi, self.files@[gi]));
                    assert forall|a: int, b: int|
                        0 <= a < b < self.files@.len() implies self.files@[a].name@
                        != self.files@[b].name@ by {
                        assert(old(self).files@[a].name@ != old(self).files@[b].name@);
                    }
                }
            },
            None => {
                self.files.push(Entry { name, file });
                proof {
                    assert forall|a: int, b: int|
                        0 <= a < b < self.files@.len() implies self.files@[a].name@
                        != self.files@[b].name@ by {
                        if b < self.files@.len() - 1 {
                            assert(old(self).files@[a].name@ != old(self).files@[b].name@);
                        }
                    }
                }
            },
        }
    }
}

} // verus!

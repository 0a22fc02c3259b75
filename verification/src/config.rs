//! The desired-state input: a mapping from environment name to a mapping
//! of variable key to value, together with the selector that says which
//! environments a run syncs.

use vstd::prelude::*;

use crate::err::SyncError;

verus! {

/// One desired variable: key and value, both strings. The value stays as
/// given; numeric- or boolean-looking text remains text.
pub struct VarEntry {
    pub key: String,
    pub value: String,
}

impl View for VarEntry {
    type V = (Seq<char>, Seq<char>);

    open spec fn view(&self) -> (Seq<char>, Seq<char>) {
        (self.key@, self.value@)
    }
}

impl DeepView for VarEntry {
    type V = (Seq<char>, Seq<char>);

    open spec fn deep_view(&self) -> (Seq<char>, Seq<char>) {
        self.view()
    }
}

/// One desired environment: its name and its variables.
pub struct EnvEntry {
    pub name: String,
    pub vars: Vec<VarEntry>,
}

impl View for EnvEntry {
    type V = (Seq<char>, Seq<(Seq<char>, Seq<char>)>);

    open spec fn view(&self) -> (Seq<char>, Seq<(Seq<char>, Seq<char>)>) {
        (self.name@, self.vars.deep_view())
    }
}

impl DeepView for EnvEntry {
    type V = (Seq<char>, Seq<(Seq<char>, Seq<char>)>);

    open spec fn deep_view(&self) -> (Seq<char>, Seq<(Seq<char>, Seq<char>)>) {
        self.view()
    }
}

/// The desired-state document. Read-only input, never mutated by a run.
pub struct ConfigDocument {
    pub environments: Vec<EnvEntry>,
}

impl View for ConfigDocument {
    type V = Seq<(Seq<char>, Seq<(Seq<char>, Seq<char>)>)>;

    open spec fn view(&self) -> Seq<(Seq<char>, Seq<(Seq<char>, Seq<char>)>)> {
        self.environments.deep_view()
    }
}

impl ConfigDocument {
    /// Whether some entry of the document carries this environment name.
    pub open spec fn contains_env(&self, name: Seq<char>) -> bool {
        exists|i: int|
            0 <= i < self.environments@.len() && self.environments@[i].name@ == name
    }

    /// The index of the first entry named `name`, if any.
    pub fn find_environment(&self, name: &String) -> (r: Option<usize>)
        ensures
            r matches Some(i) ==> i < self.environments@.len()
                && self.environments@[i as int].name@ == name@,
            r is None ==> !self.contains_env(name@),
    {
        let n = self.environments.len();
        let mut i: usize = 0;
        while i < n
            invariant
                i <= n,
                n == self.environments@.len(),
                forall|j: int| 0 <= j < i ==> self.environments@[j].name@ != name@,
            decreases n - i,
        {
            if self.environments[i].name == *name {
                return Some(i);
            }
            i += 1;
        }
        None
    }
}

/// The user's choice: one named environment, or every environment of the
/// document.
pub enum Selector {
    All,
    One(String),
}

/// The name a `One` selector carries.
pub open spec fn selector_name(sel: Selector) -> Option<Seq<char>> {
    match sel {
        Selector::All => None,
        Selector::One(name) => Some(name@),
    }
}

/// The document entries a run syncs, as indices in document order. `All`
/// selects every entry; `One` the first entry of that name, whose absence
/// is a configuration error, found before any request is built.
pub fn selected_environments(doc: &ConfigDocument, sel: &Selector) -> (r: Result<
    Vec<usize>,
    SyncError,
>)
    ensures
        sel is All ==> (r matches Ok(v) && v@.len() == doc.environments@.len() && (forall|i: int|
            0 <= i < v@.len() ==> v@[i] == i)),
        (sel is One && doc.contains_env(selector_name(*sel).unwrap())) ==> (r matches Ok(v)
            && v@.len() == 1 && (v@[0] as int) < doc.environments@.len()
            && doc.environments@[v@[0] as int].name@ == selector_name(*sel).unwrap()),
        (sel is One && !doc.contains_env(selector_name(*sel).unwrap())) ==> (r matches Err(
            SyncError::EnvironmentNotInConfig { name },
        ) && name@ == selector_name(*sel).unwrap()),
{
    match sel {
        Selector::All => {
            let n = doc.environments.len();
            let mut v: Vec<usize> = Vec::new();
            let mut i: usize = 0;
            while i < n
                invariant
                    i <= n,
                    v@.len() == i,
                    forall|j: int| 0 <= j < i ==> v@[j] == j,
                decreases n - i,
            {
                v.push(i);
                i += 1;
            }
            Ok(v)
        },
        Selector::One(name) => match doc.find_environment(name) {
            Some(i) => {
                let mut v: Vec<usize> = Vec::new();
                v.push(i);
                Ok(v)
            },
            None => Err(SyncError::EnvironmentNotInConfig { name: name.clone() }),
        },
    }
}

} // verus!

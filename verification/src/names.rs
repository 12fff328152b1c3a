//! Names are how generate tasks, projects and groups are referred to, so
//! within each of the three no name should be borne twice. The engine does
//! not depend on it: a lookup by name takes the first bearer, and a
//! dependency is met once any task of that name has completed. A caller
//! that would rather refuse such a configuration asks
//! [`Config::has_unique_names`] first.

use crate::model::{Config, ConfigView};
use vstd::prelude::*;

verus! {

impl ConfigView {
    /// No two generate tasks share a name, no two projects do, and no two
    /// groups do.
    pub open spec fn names_unique(self) -> bool {
        &&& self.task_names().no_duplicates()
        &&& self.project_names().no_duplicates()
        &&& self.group_names().no_duplicates()
    }
}

/// Whether no name occurs twice in the list.
fn all_distinct(names: &Vec<&String>) -> (distinct: bool)
    ensures
        distinct == names.deep_view().no_duplicates(),
{
    let ghost all = names.deep_view();
    let mut i: usize = 0;
    while i < names.len()
        invariant
            i <= names.len(),
            all == names.deep_view(),
            forall|a: int, b: int| 0 <= a < b < all.len() && b < i ==> all[a] != all[b],
        decreases names.len() - i,
    {
        let mut k: usize = 0;
        while k < i
            invariant
                k <= i < names.len(),
                all == names.deep_view(),
                forall|a: int| 0 <= a < k ==> all[a] != all[i as int],
            decreases i - k,
        {
            if *names[k] == *names[i] {
                assert(all[k as int] == all[i as int]);
                return false;
            }
            k = k + 1;
        }
        i = i + 1;
    }
    true
}

impl Config {
    /// The names of the generate tasks, in declaration order.
    fn task_names(&self) -> (names: Vec<&String>)
        ensures
            names.deep_view() == self@.task_names(),
    {
        let mut names: Vec<&String> = Vec::new();
        if let Some(list) = &self.generate {
            let mut i: usize = 0;
            while i < list.len()
                invariant
                    i <= list.len(),
                    self.generate == Some(*list),
                    names.deep_view() == self@.task_names().take(i as int),
                decreases list.len() - i,
            {
                let ghost before = names.deep_view();
                names.push(&list[i].name);
                assert(names.deep_view() =~= before.push(list[i as int].name@));
                i = i + 1;
            }
        }
        assert(names.deep_view() =~= self@.task_names());
        names
    }

    /// The names of the projects, in declaration order.
    fn project_names(&self) -> (names: Vec<&String>)
        ensures
            names.deep_view() == self@.project_names(),
    {
        let mut names: Vec<&String> = Vec::new();
        if let Some(list) = &self.projects {
            let mut i: usize = 0;
            while i < list.len()
                invariant
                    i <= list.len(),
                    self.projects == Some(*list),
                    names.deep_view() == self@.project_names().take(i as int),
                decreases list.len() - i,
            {
                let ghost before = names.deep_view();
                names.push(&list[i].name);
                assert(names.deep_view() =~= before.push(list[i as int].name@));
                i = i + 1;
            }
        }
        assert(names.deep_view() =~= self@.project_names());
        names
    }

    /// The names of the groups, in declaration order.
    fn group_names(&self) -> (names: Vec<&String>)
        ensures
            names.deep_view() == self@.group_names(),
    {
        let mut names: Vec<&String> = Vec::new();
        if let Some(list) = &self.groups {
            let mut i: usize = 0;
            while i < list.len()
                invariant
                    i <= list.len(),
                    self.groups == Some(*list),
                    names.deep_view() == self@.group_names().take(i as int),
                decreases list.len() - i,
            {
                let ghost before = names.deep_view();
                names.push(&list[i].name);
                assert(names.deep_view() =~= before.push(list[i as int].name@));
                i = i + 1;
            }
        }
        assert(names.deep_view() =~= self@.group_names());
        names
    }

    /// Whether the names of the generate tasks, of the projects and of the
    /// groups are each unique within their own kind.
    pub fn has_unique_names(&self) -> (unique: bool)
        ensures
            unique == self@.names_unique(),
    {
        all_distinct(&self.task_names()) && all_distinct(&self.project_names()) && all_distinct(
            &self.group_names(),
        )
    }
}

} // verus!

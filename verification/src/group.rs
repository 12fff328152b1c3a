//! The group index: from a group's name to the projects it selects.

use crate::model::{Config, ConfigView, Group, GroupView, Project, ProjectView};
use vstd::prelude::*;

verus! {

/// `at` is the first position in `names` that holds `wanted`.
pub open spec fn first_named_at(names: Seq<Seq<char>>, wanted: Seq<char>, at: int) -> bool {
    &&& 0 <= at < names.len()
    &&& names[at] == wanted
    &&& forall|i: int| 0 <= i < at ==> names[i] != wanted
}

/// The first position in `names` that holds `wanted`, if there is one.
pub open spec fn position_of(names: Seq<Seq<char>>, wanted: Seq<char>) -> Option<int> {
    if exists|at: int| first_named_at(names, wanted, at) {
        Some(choose|at: int| first_named_at(names, wanted, at))
    } else {
        None
    }
}

impl ConfigView {
    /// The first project that bears `name`, if any does.
    pub open spec fn project_named(self, name: Seq<char>) -> Option<ProjectView> {
        match position_of(self.project_names(), name) {
            Some(at) => Some(self.project_list()[at]),
            None => None,
        }
    }

    /// The first group that bears `name`, if any does.
    pub open spec fn group_named(self, name: Seq<char>) -> Option<GroupView> {
        match position_of(self.group_names(), name) {
            Some(at) => Some(self.group_list()[at]),
            None => None,
        }
    }

    /// The projects that a list of names selects, in the order of the names.
    /// A name that no project bears selects nothing.
    pub open spec fn select(self, names: Seq<Seq<char>>) -> Seq<ProjectView> {
        names.filter_map(|name: Seq<char>| self.project_named(name))
    }

    /// The projects of the group that bears `name`; nothing where there is no
    /// such group.
    pub open spec fn group_projects(self, name: Seq<char>) -> Option<Seq<ProjectView>> {
        match self.group_named(name) {
            Some(group) => Some(self.select(group.projects)),
            None => None,
        }
    }
}

impl Config {
    /// The first project that bears `name`.
    fn find_project(&self, name: &String) -> (found: Option<&Project>)
        ensures
            found.deep_view() == self@.project_named(name@),
    {
        let ghost names = self@.project_names();
        if let Some(projects) = &self.projects {
            let mut i: usize = 0;
            while i < projects.len()
                invariant
                    i <= projects.len(),
                    self.projects == Some(*projects),
                    names == self@.project_names(),
                    forall|j: int| 0 <= j < i ==> names[j] != name@,
                decreases projects.len() - i,
            {
                if projects[i].name == *name {
                    assert(first_named_at(names, name@, i as int));
                    return Some(&projects[i]);
                }
                i = i + 1;
            }
        }
        None
    }

    /// The first group that bears `name`.
    fn find_group(&self, name: &String) -> (found: Option<&Group>)
        ensures
            found.deep_view() == self@.group_named(name@),
    {
        let ghost names = self@.group_names();
        if let Some(groups) = &self.groups {
            let mut i: usize = 0;
            while i < groups.len()
                invariant
                    i <= groups.len(),
                    self.groups == Some(*groups),
                    names == self@.group_names(),
                    forall|j: int| 0 <= j < i ==> names[j] != name@,
                decreases groups.len() - i,
            {
                if groups[i].name == *name {
                    assert(first_named_at(names, name@, i as int));
                    return Some(&groups[i]);
                }
                i = i + 1;
            }
        }
        None
    }

    /// The projects that a list of names selects.
    fn select(&self, listed: &Vec<String>) -> (selected: Vec<&Project>)
        ensures
            selected.deep_view() == self@.select(listed.deep_view()),
    {
        let ghost names = listed.deep_view();
        let ghost pick = |name: Seq<char>| self@.project_named(name);
        let mut selected: Vec<&Project> = Vec::new();
        let mut k: usize = 0;
        while k < listed.len()
            invariant
                k <= listed.len(),
                names == listed.deep_view(),
                pick == |name: Seq<char>| self@.project_named(name),
                selected.deep_view() == names.take(k as int).filter_map(pick),
            decreases listed.len() - k,
        {
            proof {
                names.lemma_filter_map_take_succ(pick, k as int);
            }
            if let Some(project) = self.find_project(&listed[k]) {
                selected.push(project);
            }
            k = k + 1;
        }
        assert(names.take(k as int) =~= names);
        selected
    }

    /// The projects that the group `group_name` selects, in the order in
    /// which the group lists them. A listed name that no project bears is
    /// left out; `None` means that there is no such group.
    pub fn get_group_projects(&self, group_name: &str) -> (found: Option<Vec<&Project>>)
        ensures
            found.deep_view() == self@.group_projects(group_name@),
    {
        match self.find_group(&group_name.to_owned()) {
            Some(group) => Some(self.select(&group.projects)),
            None => None,
        }
    }
}

} // verus!

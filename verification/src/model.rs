//! The configuration: what to clean, what to generate, which projects exist
//! and how they are grouped. Declaration order is kept everywhere.

use vstd::prelude::*;

verus! {

/// Directories that the clean stage removes. Duplicates are tolerated.
#[derive(Debug, PartialEq, Eq)]
pub struct Clean {
    pub directories: Vec<String>,
}

/// A one-shot task that runs before any project. Its `command` is always a
/// literal shell command line; its `name` is what projects depend on.
#[derive(Debug, PartialEq, Eq)]
pub struct Generate {
    pub name: String,
    pub command: String,
}

/// A named unit of work. `command` is a literal command or a key of the alias
/// table; `args` are appended to it; `depends_on` names generate tasks that
/// must have completed before the project may run.
#[derive(Debug, PartialEq, Eq)]
pub struct Project {
    pub name: String,
    pub command: String,
    pub args: Option<Vec<String>>,
    pub depends_on: Option<Vec<String>>,
}

/// A named, ordered selection of projects, held by name.
#[derive(Debug, PartialEq, Eq)]
pub struct Group {
    pub name: String,
    pub projects: Vec<String>,
}

/// Everything one run is driven by. Every section is optional; a missing
/// section means that its stage has nothing to do.
#[derive(Debug, PartialEq, Eq)]
pub struct Config {
    pub clean: Option<Clean>,
    pub generate: Option<Vec<Generate>>,
    pub projects: Option<Vec<Project>>,
    pub groups: Option<Vec<Group>>,
}

pub struct CleanView {
    pub directories: Seq<Seq<char>>,
}

pub struct GenerateView {
    pub name: Seq<char>,
    pub command: Seq<char>,
}

pub struct ProjectView {
    pub name: Seq<char>,
    pub command: Seq<char>,
    pub args: Option<Seq<Seq<char>>>,
    pub depends_on: Option<Seq<Seq<char>>>,
}

pub struct GroupView {
    pub name: Seq<char>,
    pub projects: Seq<Seq<char>>,
}

pub struct ConfigView {
    pub clean: Option<CleanView>,
    pub generate: Option<Seq<GenerateView>>,
    pub projects: Option<Seq<ProjectView>>,
    pub groups: Option<Seq<GroupView>>,
}

impl View for Clean {
    type V = CleanView;

    open spec fn view(&self) -> CleanView {
        CleanView { directories: self.directories.deep_view() }
    }
}

impl DeepView for Clean {
    type V = CleanView;

    open spec fn deep_view(&self) -> CleanView {
        self@
    }
}

impl View for Generate {
    type V = GenerateView;

    open spec fn view(&self) -> GenerateView {
        GenerateView { name: self.name@, command: self.command@ }
    }
}

impl DeepView for Generate {
    type V = GenerateView;

    open spec fn deep_view(&self) -> GenerateView {
        self@
    }
}

impl View for Project {
    type V = ProjectView;

    open spec fn view(&self) -> ProjectView {
        ProjectView {
            name: self.name@,
            command: self.command@,
            args: self.args.deep_view(),
            depends_on: self.depends_on.deep_view(),
        }
    }
}

impl DeepView for Project {
    type V = ProjectView;

    open spec fn deep_view(&self) -> ProjectView {
        self@
    }
}

impl View for Group {
    type V = GroupView;

    open spec fn view(&self) -> GroupView {
        GroupView { name: self.name@, projects: self.projects.deep_view() }
    }
}

impl DeepView for Group {
    type V = GroupView;

    open spec fn deep_view(&self) -> GroupView {
        self@
    }
}

impl View for Config {
    type V = ConfigView;

    open spec fn view(&self) -> ConfigView {
        ConfigView {
            clean: self.clean.deep_view(),
            generate: self.generate.deep_view(),
            projects: self.projects.deep_view(),
            groups: self.groups.deep_view(),
        }
    }
}

impl Clone for Clean {
    fn clone(&self) -> (copy: Self)
        ensures
            copy@ == self@,
    {
        Clean { directories: self.directories.clone() }
    }
}

impl Clone for Generate {
    fn clone(&self) -> (copy: Self)
        ensures
            copy@ == self@,
    {
        Generate { name: self.name.clone(), command: self.command.clone() }
    }
}

impl Clone for Project {
    fn clone(&self) -> (copy: Self)
        ensures
            copy@ == self@,
    {
        Project {
            name: self.name.clone(),
            command: self.command.clone(),
            args: match &self.args {
                Some(tokens) => Some(tokens.clone()),
                None => None,
            },
            depends_on: match &self.depends_on {
                Some(names) => Some(names.clone()),
                None => None,
            },
        }
    }
}

impl Clone for Group {
    fn clone(&self) -> (copy: Self)
        ensures
            copy@ == self@,
    {
        Group { name: self.name.clone(), projects: self.projects.clone() }
    }
}

impl Clone for Config {
    fn clone(&self) -> (copy: Self)
        ensures
            copy@ == self@,
    {
        let clean = match &self.clean {
            Some(clean) => Some(clean.clone()),
            None => None,
        };
        let generate = match &self.generate {
            Some(tasks) => Some(tasks.clone()),
            None => None,
        };
        let projects = match &self.projects {
            Some(projects) => Some(projects.clone()),
            None => None,
        };
        let groups = match &self.groups {
            Some(groups) => Some(groups.clone()),
            None => None,
        };
        Config { clean, generate, projects, groups }
    }
}

impl ProjectView {
    /// The generate tasks this project waits for; none where the list is absent.
    pub open spec fn dependencies(self) -> Seq<Seq<char>> {
        match self.depends_on {
            Some(names) => names,
            None => Seq::empty(),
        }
    }
}

impl ConfigView {
    /// The directories of the clean stage; none where the section is absent.
    pub open spec fn directories(self) -> Seq<Seq<char>> {
        match self.clean {
            Some(clean) => clean.directories,
            None => Seq::empty(),
        }
    }

    /// The generate tasks in declaration order; none where the section is absent.
    pub open spec fn tasks(self) -> Seq<GenerateView> {
        match self.generate {
            Some(tasks) => tasks,
            None => Seq::empty(),
        }
    }

    /// The names of the generate tasks, in declaration order.
    pub open spec fn task_names(self) -> Seq<Seq<char>> {
        self.tasks().map_values(|task: GenerateView| task.name)
    }

    /// The projects in declaration order; none where the section is absent.
    pub open spec fn project_list(self) -> Seq<ProjectView> {
        match self.projects {
            Some(projects) => projects,
            None => Seq::empty(),
        }
    }

    /// The names of the projects, in declaration order.
    pub open spec fn project_names(self) -> Seq<Seq<char>> {
        self.project_list().map_values(|project: ProjectView| project.name)
    }

    /// The groups in declaration order; none where the section is absent.
    pub open spec fn group_list(self) -> Seq<GroupView> {
        match self.groups {
            Some(groups) => groups,
            None => Seq::empty(),
        }
    }

    /// The names of the groups, in declaration order.
    pub open spec fn group_names(self) -> Seq<Seq<char>> {
        self.group_list().map_values(|group: GroupView| group.name)
    }
}

} // verus!

//! The command resolver: from a project's command and arguments to the
//! literal command line handed to the shell.

use crate::alias::AliasTable;
use crate::model::{Project, ProjectView};
use vstd::prelude::*;

verus! {

/// `base` followed by each token in order, every token preceded by one
/// space. Nothing is quoted or escaped.
pub open spec fn join_tokens(base: Seq<char>, tokens: Seq<Seq<char>>) -> Seq<char>
    decreases tokens.len(),
{
    if tokens.len() == 0 {
        base
    } else {
        join_tokens(base, tokens.drop_last()) + seq![' '] + tokens.last()
    }
}

impl ProjectView {
    /// What the project's command stands for: the alias table's entry where
    /// the command is a key of it, the command itself otherwise.
    pub open spec fn base_command(self, aliases: Map<Seq<char>, Seq<char>>) -> Seq<char> {
        if aliases.contains_key(self.command) {
            aliases[self.command]
        } else {
            self.command
        }
    }

    /// The literal command line of the project.
    pub open spec fn command_line(self, aliases: Map<Seq<char>, Seq<char>>) -> Seq<char> {
        match self.args {
            Some(tokens) => join_tokens(self.base_command(aliases), tokens),
            None => self.base_command(aliases),
        }
    }
}

impl Project {
    /// Resolves the project's command through the alias table and appends
    /// its arguments.
    pub fn resolve_command(&self, commands: &AliasTable) -> (line: String)
        ensures
            line@ == self@.command_line(commands@),
    {
        let mut line = match commands.get(self.command.as_str()) {
            Some(literal) => literal.clone(),
            None => self.command.clone(),
        };
        if let Some(tokens) = &self.args {
            let ghost base = line@;
            let ghost all = tokens.deep_view();
            let mut i: usize = 0;
            while i < tokens.len()
                invariant
                    i <= tokens.len(),
                    all == tokens.deep_view(),
                    line@ == join_tokens(base, all.take(i as int)),
                decreases tokens.len() - i,
            {
                proof {
                    reveal_strlit(" ");
                    assert(all.take(i + 1).drop_last() =~= all.take(i as int));
                }
                line.append(" ");
                line.append(tokens[i].as_str());
                i = i + 1;
            }
            assert(all.take(i as int) =~= all);
        }
        line
    }
}

} // verus!

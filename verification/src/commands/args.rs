//! The verbs of the command line.

use vstd::prelude::*;
use crate::commands::arguments::{
    arguments_from, as_arguments, is_dashed, take_flag, take_free, take_subcommand,
};
use crate::text::same_text;

verus! {

/// A verb of the command line.
#[derive(Clone, Copy, Debug, PartialEq, Eq, Structural)]
pub enum Commands {
    List,
    Pull,
    Purge,
    Help,
}

/// What a command line asks the tool to do.
#[derive(Debug, PartialEq, Eq)]
pub enum Invocation {
    /// Print the version and do nothing else.
    Version,
    /// Print the usage.
    Help,
    /// Show the names of the available templates.
    List,
    /// Write one template to `output`, or to standard output without one.
    Pull { template: String, output: Option<String> },
    /// Remove the local cache.
    Purge,
}

/// An [`Invocation`] with its texts as sequences of characters.
pub enum InvocationView {
    Version,
    Help,
    List,
    Pull { template: Seq<char>, output: Option<Seq<char>> },
    Purge,
}

impl View for Invocation {
    type V = InvocationView;

    open spec fn view(&self) -> InvocationView {
        match *self {
            Invocation::Version => InvocationView::Version,
            Invocation::Help => InvocationView::Help,
            Invocation::List => InvocationView::List,
            Invocation::Pull { template, output } => InvocationView::Pull {
                template: template@,
                output: output.deep_view(),
            },
            Invocation::Purge => InvocationView::Purge,
        }
    }
}

impl Commands {
    /// The verb as it is typed.
    pub open spec fn verb(self) -> Seq<char> {
        match self {
            Commands::List => "list"@,
            Commands::Pull => "pull"@,
            Commands::Purge => "purge"@,
            Commands::Help => "help"@,
        }
    }

    /// The one-line description shown in the help.
    pub open spec fn help_line(self) -> Seq<char> {
        match self {
            Commands::List => "List all available templates"@,
            Commands::Pull => "Pull a template from the repository"@,
            Commands::Purge => "Purge gitignore cache"@,
            Commands::Help => "Shows the help message"@,
        }
    }

    /// The verb followed by its operands.
    pub open spec fn usage_line(self) -> Seq<char> {
        match self {
            Commands::Pull => "pull <template> [output]"@,
            _ => self.verb(),
        }
    }

    /// The command that a word names. A verb is matched as written; the
    /// one-letter aliases `l`, `p` and `h` are matched in either case. `purge`
    /// has no alias.
    pub open spec fn named_by(word: Seq<char>) -> Option<Commands> {
        if word == "list"@ || word == "l"@ || word == "L"@ {
            Some(Commands::List)
        } else if word == "pull"@ || word == "p"@ || word == "P"@ {
            Some(Commands::Pull)
        } else if word == "purge"@ {
            Some(Commands::Purge)
        } else if word == "help"@ || word == "h"@ || word == "H"@ {
            Some(Commands::Help)
        } else {
            None
        }
    }

    /// What the command amounts to with the operands that follow it. `pull`
    /// needs the template's name and shows the usage without it; the other
    /// commands take no operand.
    pub open spec fn resolves(
        self,
        template: Option<Seq<char>>,
        output: Option<Seq<char>>,
    ) -> InvocationView {
        match self {
            Commands::List => InvocationView::List,
            Commands::Purge => InvocationView::Purge,
            Commands::Help => InvocationView::Help,
            Commands::Pull => match template {
                Some(name) => InvocationView::Pull { template: name, output },
                None => InvocationView::Help,
            },
        }
    }

    /// The command that `command` names.
    pub fn from_str(command: &str) -> (found: Option<Commands>)
        ensures
            found == Commands::named_by(command@),
    {
        if same_text(command, "list") || same_text(command, "l") || same_text(command, "L") {
            Some(Commands::List)
        } else if same_text(command, "pull") || same_text(command, "p") || same_text(
            command,
            "P",
        ) {
            Some(Commands::Pull)
        } else if same_text(command, "purge") {
            Some(Commands::Purge)
        } else if same_text(command, "help") || same_text(command, "h") || same_text(
            command,
            "H",
        ) {
            Some(Commands::Help)
        } else {
            None
        }
    }

    /// The verb of the command.
    pub fn to_string(&self) -> (verb: String)
        ensures
            verb@ == self.verb(),
    {
        match self {
            Commands::List => "list".to_owned(),
            Commands::Pull => "pull".to_owned(),
            Commands::Purge => "purge".to_owned(),
            Commands::Help => "help".to_owned(),
        }
    }

    /// What the help says of the command.
    pub fn get_help(self) -> (line: String)
        ensures
            line@ == self.help_line(),
    {
        match self {
            Commands::List => "List all available templates".to_owned(),
            Commands::Pull => "Pull a template from the repository".to_owned(),
            Commands::Purge => "Purge gitignore cache".to_owned(),
            Commands::Help => "Shows the help message".to_owned(),
        }
    }

    /// How the command is written, with its operands.
    pub fn get_usage(self) -> (line: String)
        ensures
            line@ == self.usage_line(),
    {
        match self {
            Commands::Pull => "pull <template> [output]".to_owned(),
            _ => self.to_string(),
        }
    }

    /// Resolves the command with its operands into what is to be done.
    pub fn run(self, template: Option<String>, output: Option<String>) -> (invocation: Invocation)
        ensures
            invocation@ == self.resolves(template.deep_view(), output.deep_view()),
    {
        match self {
            Commands::List => Invocation::List,
            Commands::Purge => Invocation::Purge,
            Commands::Help => Invocation::Help,
            Commands::Pull => match template {
                Some(name) => Invocation::Pull { template: name, output },
                None => Invocation::Help,
            },
        }
    }
}

/// The argument at `index`, if there is one.
pub open spec fn operand(args: Seq<Seq<char>>, index: int) -> Option<Seq<char>> {
    if 0 <= index < args.len() {
        Some(args[index])
    } else {
        None
    }
}

/// What the arguments of a command line, without the program's name, ask for.
///
/// A version flag anywhere wins over everything else. Otherwise the first
/// argument is the subcommand, unless it begins with a dash. The usage is
/// asked for by a help flag after the subcommand, by a missing or unknown
/// subcommand, and by `pull` without a template. The arguments after the
/// subcommand are its operands, in order.
pub open spec fn requested(args: Seq<Seq<char>>) -> InvocationView {
    if args.contains("-V"@) || args.contains("-v"@) || args.contains("--version"@) {
        InvocationView::Version
    } else if args.len() == 0 || is_dashed(args[0]) {
        InvocationView::Help
    } else {
        let operands = args.drop_first();
        if operands.contains("--help"@) || operands.contains("-h"@) {
            InvocationView::Help
        } else {
            match Commands::named_by(args[0]) {
                Some(command) => command.resolves(operand(operands, 0), operand(operands, 1)),
                None => InvocationView::Help,
            }
        }
    }
}

/// A parser holds a text exactly when the texts it was made from do.
proof fn lemma_holds_text(texts: Seq<Seq<char>>, text: Seq<char>)
    ensures
        as_arguments(texts).contains(Some(text)) == texts.contains(text),
{
    let list = as_arguments(texts);
    if texts.contains(text) {
        let i = choose|i: int| 0 <= i < texts.len() && texts[i] == text;
        assert(list[i] == Some(text));
    }
    if list.contains(Some(text)) {
        let i = choose|i: int| 0 <= i < list.len() && list[i] == Some(text);
        assert(texts[i] == text);
    }
}

/// Taking a flag that is not there leaves the list as it is.
proof fn lemma_absent_flag_stays(list: Seq<Option<Seq<char>>>, flag: Option<Seq<char>>)
    ensures
        !list.contains(flag) ==> list.remove_value(flag) == list,
{
    list.index_of_first_ensures(flag);
}

/// What the arguments of a command line, without the program's name, ask for.
pub fn parse_args(args: Vec<String>) -> (invocation: Invocation)
    ensures
        invocation@ == requested(args.deep_view()),
{
    let ghost texts = args.deep_view();
    let mut arguments = arguments_from(args);
    proof {
        reveal_strlit("-V");
        reveal_strlit("-v");
        reveal_strlit("--version");
        reveal_strlit("--help");
        reveal_strlit("-h");
        lemma_holds_text(texts, "-V"@);
        lemma_holds_text(texts, "-v"@);
        lemma_holds_text(texts, "--version"@);
        lemma_absent_flag_stays(as_arguments(texts), Some("-V"@));
        lemma_absent_flag_stays(as_arguments(texts), Some("-v"@));
        lemma_absent_flag_stays(as_arguments(texts), Some("--version"@));
    }
    if take_flag(&mut arguments, "-V") || take_flag(&mut arguments, "-v") || take_flag(
        &mut arguments,
        "--version",
    ) {
        return Invocation::Version;
    }
    let ghost operands = if texts.len() > 0 {
        texts.drop_first()
    } else {
        texts
    };
    proof {
        if texts.len() > 0 {
            assert(as_arguments(texts).drop_first() =~= as_arguments(operands));
        }
        lemma_holds_text(operands, "--help"@);
        lemma_holds_text(operands, "-h"@);
        lemma_absent_flag_stays(as_arguments(operands), Some("--help"@));
        lemma_absent_flag_stays(as_arguments(operands), Some("-h"@));
    }
    let word = match take_subcommand(&mut arguments) {
        Ok(Some(word)) => word,
        _ => { return Invocation::Help; },
    };
    if take_flag(&mut arguments, "--help") || take_flag(&mut arguments, "-h") {
        return Invocation::Help;
    }
    let command = match Commands::from_str(word.as_str()) {
        Some(command) => command,
        None => { return Invocation::Help; },
    };
    let template = match take_free(&mut arguments) {
        Ok(found) => found,
        Err(_) => None,
    };
    let output = match take_free(&mut arguments) {
        Ok(found) => found,
        Err(_) => None,
    };
    command.run(template, output)
}

/// Every command is named by its own verb.
pub proof fn lemma_verb_names_its_command(command: Commands)
    ensures
        Commands::named_by(command.verb()) == Some(command),
{
    reveal_strlit("list");
    reveal_strlit("pull");
    reveal_strlit("purge");
    reveal_strlit("help");
    reveal_strlit("l");
    reveal_strlit("L");
    reveal_strlit("p");
    reveal_strlit("P");
    reveal_strlit("h");
    reveal_strlit("H");
    assert("purge"@.len() == 5);
    assert("list"@[0] == 'l' && "pull"@[0] == 'p' && "help"@[0] == 'h');
}

} // verus!

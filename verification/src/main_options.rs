//! The options that the program registers with the option parser.

use vstd::prelude::*;

verus! {

/// What follows an option on the command line.
#[derive(Clone, Copy, Debug, PartialEq, Eq, Structural, Hash)]
pub enum OptionArg {
    /// Nothing: the option is a flag.
    Flag,
    /// A string.
    Text,
    /// An integer.
    Int,
    /// The name of a file.
    Filename,
}

/// One option of the command line.
#[derive(Clone, Copy, Debug, PartialEq, Eq)]
pub struct MainOption {
    /// The name after `--`.
    pub long_name: &'static str,
    /// The letter after `-`, if the option has one.
    pub short_name: Option<char>,
    /// What follows the option.
    pub arg: OptionArg,
    /// The line of the help text.
    pub description: &'static str,
    /// The placeholder for the argument in the help text.
    pub arg_description: Option<&'static str>,
}

/// Mathematical model of a [`MainOption`].
pub ghost struct OptionModel {
    pub long_name: Seq<char>,
    pub short_name: Option<char>,
    pub arg: OptionArg,
    pub description: Seq<char>,
    pub arg_description: Option<Seq<char>>,
}

impl View for MainOption {
    type V = OptionModel;

    open spec fn view(&self) -> OptionModel {
        OptionModel {
            long_name: self.long_name@,
            short_name: self.short_name,
            arg: self.arg,
            description: self.description@,
            arg_description: match self.arg_description {
                Some(text) => Some(text@),
                None => None,
            },
        }
    }
}

/// A flag without a short name.
pub open spec fn flag_model(long_name: Seq<char>, description: Seq<char>) -> OptionModel {
    OptionModel {
        long_name,
        short_name: None,
        arg: OptionArg::Flag,
        description,
        arg_description: None,
    }
}

/// An option that takes an argument.
pub open spec fn valued_model(
    long_name: Seq<char>,
    short_name: Option<char>,
    arg: OptionArg,
    description: Seq<char>,
    arg_description: Seq<char>,
) -> OptionModel {
    OptionModel { long_name, short_name, arg, description, arg_description: Some(arg_description) }
}

/// The options of the program, in the order of the help text.
pub open spec fn option_table() -> Seq<OptionModel> {
    seq![
        OptionModel {
            long_name: "command"@,
            short_name: Some('e'),
            arg: OptionArg::Flag,
            description: "Execute arguments inside the terminal"@,
            arg_description: None,
        },
        valued_model(
            "working-directory"@,
            None,
            OptionArg::Text,
            "Set the wrking directory"@,
            "DIRNAME"@,
        ),
        valued_model("rows"@, Some('r'), OptionArg::Int, "Set rows"@, "ROWS"@),
        valued_model("columns"@, Some('c'), OptionArg::Int, "Set columns"@, "COLUMNS"@),
        valued_model("font"@, Some('f'), OptionArg::Text, "Set font"@, "FONT"@),
        flag_model("top"@, "Set position top (default)"@),
        flag_model("bottom"@, "Set position bottom"@),
        flag_model("left"@, "Set position left"@),
        flag_model("right"@, "Set position right"@),
        flag_model("exclusive"@, "Set keyboard mode exclusive"@),
        flag_model("on-demand"@, "Set keyboard mode on-demand (default)"@),
        valued_model("config"@, None, OptionArg::Filename, "config file path"@, "CONFIG"@),
    ]
}

/// The models of a list of options, in the same order.
pub open spec fn option_models(options: Seq<MainOption>) -> Seq<OptionModel> {
    options.map_values(|o: MainOption| o@)
}

/// A flag without a short name.
fn flag(long_name: &'static str, description: &'static str) -> (option: MainOption)
    ensures
        option@ == flag_model(long_name@, description@),
{
    MainOption {
        long_name,
        short_name: None,
        arg: OptionArg::Flag,
        description,
        arg_description: None,
    }
}

/// An option that takes an argument.
fn valued(
    long_name: &'static str,
    short_name: Option<char>,
    arg: OptionArg,
    description: &'static str,
    arg_description: &'static str,
) -> (option: MainOption)
    ensures
        option@ == valued_model(long_name@, short_name, arg, description@, arg_description@),
{
    MainOption { long_name, short_name, arg, description, arg_description: Some(arg_description) }
}

/// The options to register with the option parser.
pub fn main_options() -> (options: Vec<MainOption>)
    ensures
        option_models(options@) == option_table(),
{
    let mut options = Vec::new();
    options.push(
        MainOption {
            long_name: "command",
            short_name: Some('e'),
            arg: OptionArg::Flag,
            description: "Execute arguments inside the terminal",
            arg_description: None,
        },
    );
    options.push(
        valued("working-directory", None, OptionArg::Text, "Set the wrking directory", "DIRNAME"),
    );
    options.push(valued("rows", Some('r'), OptionArg::Int, "Set rows", "ROWS"));
    options.push(valued("columns", Some('c'), OptionArg::Int, "Set columns", "COLUMNS"));
    options.push(valued("font", Some('f'), OptionArg::Text, "Set font", "FONT"));
    options.push(flag("top", "Set position top (default)"));
    options.push(flag("bottom", "Set position bottom"));
    options.push(flag("left", "Set position left"));
    options.push(flag("right", "Set position right"));
    options.push(flag("exclusive", "Set keyboard mode exclusive"));
    options.push(flag("on-demand", "Set keyboard mode on-demand (default)"));
    options.push(valued("config", None, OptionArg::Filename, "config file path", "CONFIG"));
    proof {
        assert(option_models(options@) =~= option_table());
    }
    options
}

} // verus!

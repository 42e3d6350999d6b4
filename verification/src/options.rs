use vstd::prelude::*;
use vstd::string::*;

verus! {

/// What the command line asked for.
pub struct Config {
    /// Whether a file was named.
    pub has_infile: bool,
    /// The name of the file to show; empty where none was named.
    pub infile_name: String,
    /// Whether the file could only be opened for reading.
    pub ro: bool,
}

/// A configuration as mathematical values.
pub struct ConfigView {
    pub has_infile: bool,
    pub infile_name: Seq<char>,
    pub ro: bool,
}

impl View for Config {
    type V = ConfigView;

    open spec fn view(&self) -> ConfigView {
        ConfigView { has_infile: self.has_infile, infile_name: self.infile_name@, ro: self.ro }
    }
}

/// What the program was started for.
pub enum Invocation {
    /// To show how it is used.
    Help,
    /// To show a file, or to find that none was named.
    Run(Config),
}

/// What `getopts` makes of a list of arguments when it knows one flag, with
/// a short and a long name and a description: whether the flag was given and
/// the arguments that are no options, in their order; or the text of its
/// complaint.
pub uninterp spec fn getopts_matches(
    short_name: Seq<char>,
    long_name: Seq<char>,
    desc: Seq<char>,
    args: Seq<Seq<char>>,
) -> Result<(bool, Seq<Seq<char>>), Seq<char>>;

/// `getopts::Options::parse` for a set of options made by
/// `getopts::Options::optflag` of one flag, with `Matches::opt_present` for
/// that flag, the field `free` of the matches, and the text of a `Fail`.
/// What it returns depends on its arguments alone. The short name is to be
/// one ASCII character and the long name to have more than one: `getopts`
/// panics on other names.
#[verifier::external_body]
fn getopts_flag(short_name: &str, long_name: &str, desc: &str, args: &Vec<String>) -> (r: Result<
    (bool, Vec<String>),
    String,
>)
    requires
        short_name@.len() == 1,
        short_name@[0] as u32 <= 0x7f,
        long_name@.len() >= 2,
    ensures
        match r {
            Ok(found) => getopts_matches(short_name@, long_name@, desc@, args.deep_view()) == Ok::<
                (bool, Seq<Seq<char>>),
                Seq<char>,
            >((found.0, found.1.deep_view())),
            Err(message) => getopts_matches(short_name@, long_name@, desc@, args.deep_view())
                == Err::<(bool, Seq<Seq<char>>), Seq<char>>(message@),
        },
{
    let mut options = getopts::Options::new();
    options.optflag(short_name, long_name, desc);
    match options.parse(args) {
        Ok(present_options) => Ok((present_options.opt_present(short_name), present_options.free)),
        Err(e) => Err(e.to_string()),
    }
}

/// The configuration that a list of file names gives: the first of them is
/// the file to show, and the file is taken to be writable.
pub open spec fn spec_config(free: Seq<Seq<char>>) -> ConfigView {
    ConfigView {
        has_infile: free.len() > 0,
        infile_name: if free.len() > 0 {
            free[0]
        } else {
            Seq::<char>::empty()
        },
        ro: false,
    }
}

/// Whether `invocation` is what the flag and the file names ask for: help
/// where the flag was given, whatever else was, and else a run with the
/// configuration of the file names.
pub open spec fn spec_invoked(help: bool, free: Seq<Seq<char>>, invocation: Invocation) -> bool {
    match invocation {
        Invocation::Help => help,
        Invocation::Run(config) => !help && config@ == spec_config(free),
    }
}

/// Returns what the program was started for, from what was found on the
/// command line: whether help was asked for, and the arguments that are no
/// options.
pub fn invocation(help: bool, free: &Vec<String>) -> (r: Invocation)
    ensures
        spec_invoked(help, free.deep_view(), r),
{
    if help {
        return Invocation::Help;
    }
    // Initiate the return config with default values.
    let mut config = Config { has_infile: false, infile_name: String::new(), ro: false };

    // Get the non-option arg. (file name)
    if free.len() > 0 {
        config.infile_name = free[0].clone();
        config.has_infile = true;
    }
    Invocation::Run(config)
}

/// What `getopts` makes of the arguments of this program, which knows the
/// one flag `-h`, `--help`.
pub open spec fn spec_found(args: Seq<Seq<char>>) -> Result<(bool, Seq<Seq<char>>), Seq<char>> {
    getopts_matches("h"@, "help"@, "display help"@, args)
}

/// Parses the arguments that follow the program's name. Returns what the
/// program was started for, or the complaint about an argument that was not
/// understood.
pub fn parse_options(args: &Vec<String>) -> (r: Result<Invocation, String>)
    ensures
        match spec_found(args.deep_view()) {
            Ok(found) => r is Ok && spec_invoked(found.0, found.1, r->Ok_0),
            Err(message) => r is Err && r->Err_0@ == message,
        },
{
    proof {
        reveal_strlit("h");
        reveal_strlit("help");
    }
    match getopts_flag("h", "help", "display help", args) {
        Ok(found) => Ok(invocation(found.0, &found.1)),
        Err(e) => Err(e),
    }
}

} // verus!

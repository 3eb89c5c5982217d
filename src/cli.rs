//! The decisions of the node's command line: which chain configuration an
//! identifier names, and which custom subcommand was given.
use vstd::prelude::*;
use vstd::string::StrSliceExecFns;

verus! {

/// Whether `s` holds exactly the characters of `lit`.
fn str_is(s: &str, lit: &str) -> (r: bool)
    ensures
        r == (s@ == lit@),
{
    let n = s.unicode_len();
    if n != lit.unicode_len() {
        return false;
    }
    let mut i: usize = 0;
    while i < n
        invariant
            n as nat == s@.len(),
            n as nat == lit@.len(),
            i <= n,
            forall|j: int| 0 <= j < i ==> s@[j] == lit@[j],
        decreases n - i,
    {
        if s.get_char(i) != lit.get_char(i) {
            return false;
        }
        i += 1;
    }
    assert(s@ =~= lit@);
    true
}

/// The chain specification option.
#[derive(Clone, Copy, Debug, PartialEq, Eq)]
pub enum ChainSpec {
    /// Whatever the current runtime is, with just Alice as an auth.
    Development,
    /// Whatever the current runtime is, with simple Alice/Bob auths.
    LocalTestnet,
    /// The Emberic Elm testnet.
    EmbericElm,
    /// Whatever the current runtime is with the "global testnet" defaults.
    StagingTestnet,
}

/// The option that an identifier names, if any.
pub open spec fn spec_from(s: Seq<char>) -> Option<ChainSpec> {
    if s == "dev"@ {
        Some(ChainSpec::Development)
    } else if s == "local"@ {
        Some(ChainSpec::LocalTestnet)
    } else if s == ""@ || s == "elm"@ || s == "emberic-elm"@ {
        Some(ChainSpec::EmbericElm)
    } else if s == "staging"@ {
        Some(ChainSpec::StagingTestnet)
    } else {
        None
    }
}

/// The display name of the configuration that an option loads.
pub open spec fn config_name(spec: ChainSpec) -> Seq<char> {
    match spec {
        ChainSpec::Development => "Development"@,
        ChainSpec::LocalTestnet => "Local Testnet"@,
        ChainSpec::EmbericElm => "Emberic Elm"@,
        ChainSpec::StagingTestnet => "Staging Testnet"@,
    }
}

/// The identifier of the configuration that an option loads.
pub open spec fn config_id(spec: ChainSpec) -> Seq<char> {
    match spec {
        ChainSpec::Development => "dev"@,
        ChainSpec::LocalTestnet => "local_testnet"@,
        ChainSpec::EmbericElm => "emberic_elm"@,
        ChainSpec::StagingTestnet => "staging_testnet"@,
    }
}

/// A chain configuration, named by its display name and identifier.
#[derive(Clone, Debug, PartialEq, Eq)]
pub struct ChainConfig {
    pub name: String,
    pub id: String,
}

impl ChainSpec {
    /// Gets the chain configuration of this option.
    pub fn load(self) -> (r: Result<ChainConfig, String>)
        ensures
            r matches Ok(c) && c.name@ == config_name(self) && c.id@ == config_id(self),
    {
        let (name, id) = match self {
            ChainSpec::Development => ("Development", "dev"),
            ChainSpec::LocalTestnet => ("Local Testnet", "local_testnet"),
            ChainSpec::EmbericElm => ("Emberic Elm", "emberic_elm"),
            ChainSpec::StagingTestnet => ("Staging Testnet", "staging_testnet"),
        };
        Ok(ChainConfig { name: name.to_owned(), id: id.to_owned() })
    }

    /// The option that `s` names: `dev`, `local`, `staging`, and `elm`,
    /// `emberic-elm` or the empty string for the Emberic Elm testnet.
    pub fn from(s: &str) -> (r: Option<Self>)
        ensures
            r == spec_from(s@),
    {
        if str_is(s, "dev") {
            Some(ChainSpec::Development)
        } else if str_is(s, "local") {
            Some(ChainSpec::LocalTestnet)
        } else if str_is(s, "") || str_is(s, "elm") || str_is(s, "emberic-elm") {
            Some(ChainSpec::EmbericElm)
        } else if str_is(s, "staging") {
            Some(ChainSpec::StagingTestnet)
        } else {
            None
        }
    }
}

/// Gets the chain configuration that `id` names; `None` for an unknown one.
pub fn load_spec(id: &str) -> (r: Result<Option<ChainConfig>, String>)
    ensures
        r matches Ok(o) && (o is Some <==> spec_from(id@) is Some),
        r matches Ok(Some(c)) ==> c.name@ == config_name(spec_from(id@)->Some_0) && c.id@
            == config_id(spec_from(id@)->Some_0),
{
    match ChainSpec::from(id) {
        Some(spec) => match spec.load() {
            Ok(config) => Ok(Some(config)),
            Err(e) => Err(e),
        },
        None => Ok(None),
    }
}

/// The arguments of `my-command`.
#[derive(Clone, Debug, PartialEq, Eq)]
pub struct MyCommandCmd {
    /// The value of `--my-test`.
    pub my_test: Option<String>,
}

/// The arguments of `your-command`.
#[derive(Clone, Debug, PartialEq, Eq)]
pub struct YourCommandCmd {
    /// The value of `--your-test`.
    pub your_test: Option<String>,
}

/// The custom subcommands of the node.
#[derive(Clone, Debug, PartialEq, Eq)]
pub enum CustomCommand {
    MyCommand(MyCommandCmd),
    YourCommand(YourCommandCmd),
    NoCommand,
}

impl CustomCommand {
    /// The command for subcommand `name`, given whether its arguments were
    /// matched and the value of its one option; any other subcommand, or
    /// none, gives `CustomCommand::NoCommand`.
    pub fn from_subcommand(name: &str, matched: bool, value: Option<String>) -> (r: Self)
        ensures
            matched && name@ == "my-command"@ ==> r == CustomCommand::MyCommand(
                MyCommandCmd { my_test: value },
            ),
            matched && name@ == "your-command"@ ==> r == CustomCommand::YourCommand(
                YourCommandCmd { your_test: value },
            ),
            !(matched && (name@ == "my-command"@ || name@ == "your-command"@)) ==> r
                == CustomCommand::NoCommand,
    {
        proof {
            reveal_strlit("my-command");
            reveal_strlit("your-command");
            assert("my-command"@[0] != "your-command"@[0]);
        }
        if matched && str_is(name, "my-command") {
            CustomCommand::MyCommand(MyCommandCmd { my_test: value })
        } else if matched && str_is(name, "your-command") {
            CustomCommand::YourCommand(YourCommandCmd { your_test: value })
        } else {
            CustomCommand::NoCommand
        }
    }

    /// The log filter that the command asks for: none.
    pub fn get_log_filter(&self) -> (r: Option<String>)
        ensures
            r is None,
    {
        None
    }
}

} // verus!

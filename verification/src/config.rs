//! Configuration resolved once at startup from raw environment values, and
//! the mapping from the configured shell to its history file.

use vstd::prelude::*;

use crate::strutil::{opt_str_view, str_eq};

verus! {

/// The endpoint used when none is configured in the environment.
pub open spec fn default_url_spec() -> Seq<char> {
    "https://ollama.rukh.me"@
}

/// The default endpoint as a value, for callers that must warn about the
/// fallback before using it.
pub fn default_url() -> (r: &'static str)
    ensures
        r@ == default_url_spec(),
{
    "https://ollama.rukh.me"
}

/// The one configuration value with no fallback is the model identifier.
#[derive(Debug, PartialEq, Eq, Structural)]
pub enum ConfigError {
    MissingModel,
}

/// The immutable configuration snapshot the whole pipeline runs on.
pub struct Config {
    pub ollama_url: String,
    pub ollama_model: String,
    pub shell: String,
}

impl Config {
    /// Resolve the configuration from the raw environment values: the
    /// endpoint falls back to the default, the shell to the empty string,
    /// and a missing model identifier is the one fatal condition.
    pub fn new(url: Option<String>, model: Option<String>, shell: Option<String>) -> (r: Result<
        Config,
        ConfigError,
    >)
        ensures
            r is Ok <==> model is Some,
            r matches Ok(c) ==> {
                &&& c.ollama_model@ == model->0@
                &&& (url matches Some(u) ==> c.ollama_url@ == u@)
                &&& (url is None ==> c.ollama_url@ == default_url_spec())
                &&& (shell matches Some(s) ==> c.shell@ == s@)
                &&& (shell is None ==> c.shell@ == Seq::<char>::empty())
            },
            r is Err ==> r == Result::<Config, ConfigError>::Err(ConfigError::MissingModel),
    {
        let ollama_model = match model {
            Some(m) => m,
            None => {
                return Err(ConfigError::MissingModel);
            },
        };
        let ollama_url = match url {
            Some(u) => u,
            None => String::from_str(default_url()),
        };
        let shell = match shell {
            Some(s) => s,
            None => String::new(),
        };
        Ok(Config { ollama_url, ollama_model, shell })
    }

    /// The history file of the configured shell: known shells map to their
    /// history file under the home directory; an unknown shell, or an
    /// unresolved home directory, disables recording.
    pub fn history_path(&self, home: Option<&str>) -> (r: Option<String>)
        ensures
            home is Some && self.shell@ == "/bin/bash"@ ==> (r matches Some(p) && p@
                == opt_str_view(home)->0 + "/.bash_history"@),
            home is Some && self.shell@ == "/bin/zsh"@ ==> (r matches Some(p) && p@
                == opt_str_view(home)->0 + "/.zsh_history"@),
            home is None || (self.shell@ != "/bin/bash"@ && self.shell@ != "/bin/zsh"@) ==> r
                is None,
    {
        proof {
            reveal_strlit("/bin/bash");
            reveal_strlit("/bin/zsh");
            assert("/bin/bash"@.len() != "/bin/zsh"@.len());
        }
        let h = match home {
            Some(h) => h,
            None => {
                return None;
            },
        };
        if str_eq(self.shell.as_str(), "/bin/bash") {
            Some(String::from_str(h).concat("/.bash_history"))
        } else if str_eq(self.shell.as_str(), "/bin/zsh") {
            Some(String::from_str(h).concat("/.zsh_history"))
        } else {
            None
        }
    }
}

/// The exact line appended to a history file for an executed script: the
/// script text followed by one newline.
pub fn history_line(code: &str) -> (r: String)
    ensures
        r@ == code@ + "\n"@,
{
    String::from_str(code).concat("\n")
}

} // verus!

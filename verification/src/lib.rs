//! Turns a natural-language task description into a shell script through a
//! chat-style inference backend, then mediates safe execution of that script.
//!
//! The pipeline is: resolve the configuration, build a platform-aware prompt,
//! send one chat request, classify the backend's answer, ask the operator for
//! a run/no-run decision, record the script into shell history, and classify
//! the subprocess outcome. Every decision along that path lives here, stated
//! in contracts; the surrounding I/O (environment variables, the network
//! call, the terminal, the subprocess itself) stays outside the library.

pub mod config;
pub mod gate;
pub mod inference;
pub mod prompt;
pub mod request;
pub mod strutil;

pub use config::Config;
pub use config::ConfigError;
pub use gate::ExecOutcome;
pub use inference::InferenceOutcome;
pub use prompt::Platform;

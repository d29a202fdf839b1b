use shellm::config::{default_url, history_line};
use shellm::{Config, ConfigError};

fn config_with_shell(shell: &str) -> Config {
    Config::new(
        Some(String::from("http://localhost:11434")),
        Some(String::from("codellama")),
        Some(String::from(shell)),
    )
    .unwrap()
}

#[test]
fn missing_model_is_the_one_fatal_configuration() {
    let r = Config::new(Some(String::from("http://x")), None, Some(String::from("/bin/bash")));
    assert_eq!(r.err(), Some(ConfigError::MissingModel));
}

#[test]
fn missing_url_falls_back_to_the_default() {
    let c = Config::new(None, Some(String::from("codellama")), None).unwrap();
    assert_eq!(c.ollama_url, default_url());
    assert_eq!(c.ollama_url, "https://ollama.rukh.me");
    assert_eq!(c.ollama_model, "codellama");
    assert_eq!(c.shell, "");
}

#[test]
fn given_values_are_kept() {
    let c = config_with_shell("/bin/zsh");
    assert_eq!(c.ollama_url, "http://localhost:11434");
    assert_eq!(c.ollama_model, "codellama");
    assert_eq!(c.shell, "/bin/zsh");
}

#[test]
fn known_shells_map_to_their_history_files() {
    let bash = config_with_shell("/bin/bash");
    assert_eq!(
        bash.history_path(Some("/home/u")).as_deref(),
        Some("/home/u/.bash_history")
    );
    let zsh = config_with_shell("/bin/zsh");
    assert_eq!(
        zsh.history_path(Some("/home/u")).as_deref(),
        Some("/home/u/.zsh_history")
    );
}

#[test]
fn unknown_or_empty_shell_disables_recording() {
    assert!(config_with_shell("/usr/bin/fish").history_path(Some("/home/u")).is_none());
    assert!(config_with_shell("").history_path(Some("/home/u")).is_none());
}

#[test]
fn unresolved_home_disables_recording() {
    assert!(config_with_shell("/bin/bash").history_path(None).is_none());
}

#[test]
fn history_record_is_the_script_plus_one_newline() {
    assert_eq!(history_line("echo hi"), "echo hi\n");
    assert_eq!(history_line("a\nb"), "a\nb\n");
    assert_eq!(history_line(""), "\n");
}

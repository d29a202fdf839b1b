use shellm::prompt::{build_prompt, os_hint, parse_distro_id};
use shellm::Platform;

const SUFFIX: &str = ":\n\n#!/usr/bin/env zsh\n";

#[test]
fn prompt_ends_with_shebang_convention_on_every_platform() {
    let tasks = ["list files", "", "rm -rf /tmp/x && echo done"];
    for task in tasks {
        for platform in [Platform::MacOs, Platform::Linux, Platform::Other] {
            let p = build_prompt(task, platform, None);
            assert!(p.ends_with(SUFFIX));
            let q = build_prompt(task, platform, Some("arch"));
            assert!(q.ends_with(SUFFIX));
        }
    }
}

#[test]
fn prompt_on_other_platform_has_no_hint() {
    let p = build_prompt("list files", Platform::Other, None);
    assert_eq!(p, "list files:\n\n#!/usr/bin/env zsh\n");
}

#[test]
fn prompt_on_macos_names_the_platform() {
    let p = build_prompt("list files", Platform::MacOs, None);
    assert_eq!(p, "list files (on macOS):\n\n#!/usr/bin/env zsh\n");
}

#[test]
fn distro_id_is_extracted_unquoted_and_named_in_hint() {
    let lines = vec![
        String::from("NAME=\"Ubuntu\""),
        String::from("ID=\"ubuntu\""),
        String::from("ID=debian"),
    ];
    let id = parse_distro_id(&lines).unwrap();
    assert_eq!(id, "ubuntu");
    let hint = os_hint(Platform::Linux, Some(&id));
    assert_eq!(hint, " (on ubuntu Linux)");
    assert!(hint.contains("ubuntu"));
}

#[test]
fn unquoted_distro_id_is_taken_as_is() {
    let lines = vec![String::from("ID=arch")];
    assert_eq!(parse_distro_id(&lines).unwrap(), "arch");
}

#[test]
fn first_id_line_wins() {
    let lines = vec![
        String::from("VERSION_ID=\"24.04\""),
        String::from("ID=fedora"),
        String::from("ID=ubuntu"),
    ];
    assert_eq!(parse_distro_id(&lines).unwrap(), "fedora");
}

#[test]
fn missing_id_line_means_no_identifier() {
    let lines = vec![String::from("NAME=Gentoo"), String::from("PRETTY_NAME=x")];
    assert!(parse_distro_id(&lines).is_none());
    assert!(parse_distro_id(&Vec::new()).is_none());
}

#[test]
fn hint_falls_back_to_generic_linux_phrase() {
    assert_eq!(os_hint(Platform::Linux, None), " (on Linux)");
    let p = build_prompt("do it", Platform::Linux, None);
    assert_eq!(p, "do it (on Linux):\n\n#!/usr/bin/env zsh\n");
}

#[test]
fn hint_with_distro_is_embedded_in_prompt() {
    let p = build_prompt("update", Platform::Linux, Some("debian"));
    assert_eq!(p, "update (on debian Linux):\n\n#!/usr/bin/env zsh\n");
}

#[test]
fn empty_hint_on_other_platforms() {
    assert_eq!(os_hint(Platform::Other, None), "");
    assert_eq!(os_hint(Platform::Other, Some("ubuntu")), "");
}

use xtask::command::{build, checkout, copy, fetch, listing, Command};
use xtask::pin::{
    allow_listed, BUILD_CACHE_FLAG, BUILD_TOOL, CHECKOUT, LIBRARY_TARGET, RELEASE, REPOSITORY,
    TOOLCHAIN_TARGET, WORKSPACE_PREFIX,
};

fn strings(words: &[&str]) -> Vec<String> {
    words.iter().map(|word| word.to_string()).collect()
}

#[test]
fn pinned_values() {
    assert_eq!(REPOSITORY, "https://github.com/wpilibsuite/allwpilib");
    assert_eq!(RELEASE, "v2022.4.1");
    assert_eq!(CHECKOUT, "allwpilib");
    assert_eq!(WORKSPACE_PREFIX, "wpilib-rs");
    assert_eq!(BUILD_TOOL, "./gradlew");
    assert_eq!(TOOLCHAIN_TARGET, "installRoboRioToolchain");
    assert_eq!(LIBRARY_TARGET, "halLinuxathenaReleaseSharedLibrary");
    assert_eq!(BUILD_CACHE_FLAG, "--build-cache");
}

#[test]
fn checkout_is_named_after_the_repository() {
    assert!(REPOSITORY.ends_with(&format!("/{CHECKOUT}")));
}

#[test]
fn allow_list_in_order() {
    assert_eq!(
        allow_listed(),
        vec![
            "hal/src/main/native/include/hal",
            "hal/build/generated/headers/hal",
            "wpiutil/src/main/native/include/wpi",
        ]
    );
}

#[test]
fn checkout_lies_in_the_workspace() {
    assert_eq!(checkout("/tmp/wpilib-rs.x1"), "/tmp/wpilib-rs.x1/allwpilib");
}

#[test]
fn fetch_is_a_shallow_clone_of_the_release() {
    assert_eq!(
        fetch("/tmp/wpilib-rs.x1"),
        Command {
            dir: "/tmp/wpilib-rs.x1".to_string(),
            program: "git".to_string(),
            args: strings(&[
                "clone",
                "--quiet",
                "--depth",
                "1",
                "--branch",
                "v2022.4.1",
                "https://github.com/wpilibsuite/allwpilib",
            ]),
            quiet_stdout: true,
            quiet_stderr: true,
        }
    );
}

#[test]
fn build_runs_the_tool_with_its_cache() {
    assert_eq!(
        build("/tmp/w/allwpilib", "installRoboRioToolchain"),
        Command {
            dir: "/tmp/w/allwpilib".to_string(),
            program: "./gradlew".to_string(),
            args: strings(&["installRoboRioToolchain", "--build-cache"]),
            quiet_stdout: true,
            quiet_stderr: false,
        }
    );
}

#[test]
fn copy_is_recursive_and_relative_to_the_tree() {
    assert_eq!(
        copy("/tmp/w/allwpilib", "hal/build/generated/headers/hal", "/repo/lib/wpilib-sys/include"),
        Command {
            dir: "/tmp/w/allwpilib".to_string(),
            program: "cp".to_string(),
            args: strings(&[
                "-R",
                "./hal/build/generated/headers/hal",
                "/repo/lib/wpilib-sys/include",
            ]),
            quiet_stdout: true,
            quiet_stderr: false,
        }
    );
}

#[test]
fn listing_shows_the_index_with_hashes() {
    assert_eq!(
        listing("/tmp/w/allwpilib"),
        Command {
            dir: "/tmp/w/allwpilib".to_string(),
            program: "git".to_string(),
            args: strings(&["ls-files", "-s", "./"]),
            quiet_stdout: false,
            quiet_stderr: false,
        }
    );
}

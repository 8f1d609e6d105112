use libcnb::cross_compile::{cross_compile_env, cross_compile_env_with};
use libcnb::package::{cargo_build_args, profile_directory, tarball_file_name};
use libcnb::{CargoProfile, CrossCompileError};

const MUSL: &str = "x86_64-unknown-linux-musl";

#[test]
fn unsupported_triple_is_refused() {
    assert_eq!(
        cross_compile_env_with("aarch64-apple-darwin", true, None, None),
        Err(CrossCompileError::UnsupportedTargetTriple(String::from("aarch64-apple-darwin")))
    );
    assert_eq!(
        cross_compile_env("aarch64-apple-darwin", false),
        Err(CrossCompileError::UnsupportedTargetTriple(String::from("aarch64-apple-darwin")))
    );
}

#[test]
fn linux_host_needs_no_environment() {
    assert_eq!(cross_compile_env_with(MUSL, false, None, None), Ok(vec![]));
    assert_eq!(cross_compile_env(MUSL, false), Ok(vec![]));
}

#[test]
fn macos_host_needs_linker_and_cc() {
    assert_eq!(
        cross_compile_env_with(MUSL, true, None, Some(String::from("/bin/gcc"))),
        Err(CrossCompileError::CouldNotFindLinkerBinary(String::from("x86_64-linux-musl-ld")))
    );
    assert_eq!(
        cross_compile_env_with(MUSL, true, Some(String::from("/bin/ld")), None),
        Err(CrossCompileError::CouldNotFindCCBinary(String::from("x86_64-linux-musl-gcc")))
    );
    assert_eq!(
        cross_compile_env_with(MUSL, true, Some(String::from("/bin/ld")), Some(String::from("/bin/gcc"))),
        Ok(vec![
            (String::from("CARGO_TARGET_X86_64_UNKNOWN_LINUX_MUSL_LINKER"), String::from("/bin/ld")),
            (String::from("CC_x86_64_unknown_linux_musl"), String::from("/bin/gcc")),
        ])
    );
}

#[test]
fn cargo_arguments_follow_profile() {
    assert_eq!(cargo_build_args(MUSL, CargoProfile::Dev), vec!["build", "--target", MUSL]);
    assert_eq!(
        cargo_build_args(MUSL, CargoProfile::Release),
        vec!["build", "--target", MUSL, "--release"]
    );
}

#[test]
fn packaged_names_follow_profile() {
    assert_eq!(profile_directory(CargoProfile::Dev), "debug");
    assert_eq!(profile_directory(CargoProfile::Release), "release");
    assert_eq!(tarball_file_name("heroku/ruby", CargoProfile::Dev), "heroku/ruby_buildpack_dev.tar.gz");
    assert_eq!(tarball_file_name("example", CargoProfile::Release), "example_buildpack_release.tar.gz");
}

use libcnb::cross_compile::{cargo_build_env, cargo_env_from, CargoEnv};
use libcnb::package::buildpack_directory_name;

#[test]
fn directory_name_replaces_slashes() {
    assert_eq!(buildpack_directory_name("heroku/ruby"), "heroku_ruby");
    assert_eq!(buildpack_directory_name("a/b/c"), "a_b_c");
    assert_eq!(buildpack_directory_name("plain"), "plain");
    assert_eq!(buildpack_directory_name(""), "");
}

#[test]
fn cargo_env_follows_cross_compile_result() {
    assert_eq!(cargo_build_env(MUSL, true, false), CargoEnv::Configured(vec![]));
    assert_eq!(cargo_build_env(MUSL, false, true), CargoEnv::Configured(vec![]));
    assert_eq!(
        cargo_build_env("aarch64-apple-darwin", false, true),
        CargoEnv::Unassisted(String::from("aarch64-apple-darwin"))
    );
    let missing = CrossCompileError::CouldNotFindCCBinary(String::from("x86_64-linux-musl-gcc"));
    assert_eq!(cargo_env_from(Err(missing.clone())), CargoEnv::Missing(missing));
    let env = vec![(String::from("A"), String::from("b"))];
    assert_eq!(cargo_env_from(Ok(env.clone())), CargoEnv::Configured(env));
}

//! The environment that cross-compiling a buildpack binary for its target
//! needs on the host.
use vstd::prelude::*;

verus! {

/// Why no cross-compile environment could be given.
#[derive(Debug, Clone, PartialEq, Eq)]
pub enum CrossCompileError {
    CouldNotFindLinkerBinary(String),
    CouldNotFindCCBinary(String),
    UnsupportedTargetTriple(String),
}

/// The one target triple supported.
pub open spec fn musl_target() -> Seq<char> {
    "x86_64-unknown-linux-musl"@
}

/// The linker that a macOS host needs for the target.
pub open spec fn musl_linker() -> Seq<char> {
    "x86_64-linux-musl-ld"@
}

/// The C compiler that a macOS host needs for the target.
pub open spec fn musl_cc() -> Seq<char> {
    "x86_64-linux-musl-gcc"@
}

/// The variable that tells Cargo which linker to use for the target.
pub open spec fn linker_variable() -> Seq<char> {
    "CARGO_TARGET_X86_64_UNKNOWN_LINUX_MUSL_LINKER"@
}

/// The variable that tells build scripts which C compiler to use for the target.
pub open spec fn cc_variable() -> Seq<char> {
    "CC_x86_64_unknown_linux_musl"@
}

pub open spec fn pairs_view(v: Seq<(String, String)>) -> Seq<(Seq<char>, Seq<char>)> {
    v.map_values(|p: (String, String)| (p.0@, p.1@))
}

/// Relies on which::which: looks `name` up in the directories of `PATH`.
/// What it finds depends on the host, so nothing is stated of it.
#[verifier::external_body]
fn find_executable(name: &str) -> (r: Option<String>) {
    which::which(name).ok().map(|p| p.to_string_lossy().into_owned())
}

/// The environment for the target, given whether the host is macOS and
/// where, if anywhere, the linker and the C compiler were found. Only a
/// macOS host needs anything; on it, a tool that was not found is an error.
pub fn cross_compile_env_with(
    target_triple: &str,
    host_is_macos: bool,
    linker: Option<String>,
    cc: Option<String>,
) -> (r: Result<Vec<(String, String)>, CrossCompileError>)
    ensures
        match r {
            Ok(env) => target_triple@ == musl_target() && if host_is_macos {
                linker is Some && cc is Some && pairs_view(env@) == seq![
                    (linker_variable(), linker->0@),
                    (cc_variable(), cc->0@),
                ]
            } else {
                env@.len() == 0
            },
            Err(CrossCompileError::UnsupportedTargetTriple(t)) => t@ == target_triple@
                && target_triple@ != musl_target(),
            Err(CrossCompileError::CouldNotFindLinkerBinary(b)) => target_triple@ == musl_target()
                && host_is_macos && linker is None && b@ == musl_linker(),
            Err(CrossCompileError::CouldNotFindCCBinary(b)) => target_triple@ == musl_target()
                && host_is_macos && linker is Some && cc is None && b@ == musl_cc(),
        },
{
    let triple = target_triple.to_owned();
    let supported = "x86_64-unknown-linux-musl".to_owned();
    if triple != supported {
        return Err(CrossCompileError::UnsupportedTargetTriple(triple));
    }
    if !host_is_macos {
        return Ok(Vec::new());
    }
    let ld_path = match linker {
        Some(p) => p,
        None => return Err(CrossCompileError::CouldNotFindLinkerBinary("x86_64-linux-musl-ld".to_owned())),
    };
    let cc_path = match cc {
        Some(p) => p,
        None => return Err(CrossCompileError::CouldNotFindCCBinary("x86_64-linux-musl-gcc".to_owned())),
    };
    let mut env: Vec<(String, String)> = Vec::new();
    env.push(("CARGO_TARGET_X86_64_UNKNOWN_LINUX_MUSL_LINKER".to_owned(), ld_path));
    env.push(("CC_x86_64_unknown_linux_musl".to_owned(), cc_path));
    assert(pairs_view(env@) =~= seq![(linker_variable(), linker->0@), (cc_variable(), cc->0@)]);
    Ok(env)
}

/// The environment for the target on this host, looking the linker and the
/// C compiler up in `PATH` where the host is macOS. Which paths are found
/// is up to the host; the variables they are bound to are not.
pub fn cross_compile_env(target_triple: &str, host_is_macos: bool) -> (r: Result<Vec<(String, String)>, CrossCompileError>)
    ensures
        match r {
            Ok(env) => target_triple@ == musl_target() && if host_is_macos {
                &&& pairs_view(env@).len() == 2
                &&& pairs_view(env@)[0].0 == linker_variable()
                &&& pairs_view(env@)[1].0 == cc_variable()
            } else {
                env@.len() == 0
            },
            Err(CrossCompileError::UnsupportedTargetTriple(t)) => t@ == target_triple@
                && target_triple@ != musl_target(),
            Err(CrossCompileError::CouldNotFindLinkerBinary(b)) => target_triple@ == musl_target()
                && host_is_macos && b@ == musl_linker(),
            Err(CrossCompileError::CouldNotFindCCBinary(b)) => target_triple@ == musl_target()
                && host_is_macos && b@ == musl_cc(),
        },
{
    let needs_tools = host_is_macos && target_triple.to_owned() == "x86_64-unknown-linux-musl".to_owned();
    let linker = if needs_tools {
        find_executable("x86_64-linux-musl-ld")
    } else {
        None
    };
    let cc = if needs_tools && linker.is_some() {
        find_executable("x86_64-linux-musl-gcc")
    } else {
        None
    };
    cross_compile_env_with(target_triple, host_is_macos, linker, cc)
}

/// The environment that the Cargo build runs with.
#[derive(Debug, Clone, PartialEq, Eq)]
pub enum CargoEnv {
    /// Build with these variables set.
    Configured(Vec<(String, String)>),
    /// No assistance is known for this target triple: build without it,
    /// and warn that compilation may fail.
    Unassisted(String),
    /// A tool the target needs is missing: do not build.
    Missing(CrossCompileError),
}

/// What a cross-compile result means for the build: a configuration is
/// used, an unsupported triple builds without assistance, a missing tool
/// stops the build.
pub fn cargo_env_from(result: Result<Vec<(String, String)>, CrossCompileError>) -> (r: CargoEnv)
    ensures
        match result {
            Ok(env) => r == CargoEnv::Configured(env),
            Err(CrossCompileError::UnsupportedTargetTriple(t)) => r == CargoEnv::Unassisted(t),
            Err(e) => r == CargoEnv::Missing(e),
        },
{
    match result {
        Ok(env) => CargoEnv::Configured(env),
        Err(CrossCompileError::UnsupportedTargetTriple(t)) => CargoEnv::Unassisted(t),
        Err(e) => CargoEnv::Missing(e),
    }
}

/// The environment of the Cargo build: none where assistance is switched
/// off, otherwise what `cross_compile_env` gives, read by `cargo_env_from`.
pub fn cargo_build_env(target_triple: &str, host_is_macos: bool, assistance: bool) -> (r: CargoEnv)
    ensures
        !assistance ==> r is Configured,
        assistance && target_triple@ != musl_target() ==> r is Unassisted,
        assistance && target_triple@ == musl_target() && !host_is_macos ==> r is Configured,
        match r {
            CargoEnv::Configured(env) => if !assistance || !host_is_macos {
                env@.len() == 0
            } else {
                &&& target_triple@ == musl_target()
                &&& pairs_view(env@).len() == 2
                &&& pairs_view(env@)[0].0 == linker_variable()
                &&& pairs_view(env@)[1].0 == cc_variable()
            },
            CargoEnv::Unassisted(t) => assistance && t@ == target_triple@ && target_triple@
                != musl_target(),
            CargoEnv::Missing(e) => assistance && target_triple@ == musl_target() && host_is_macos
                && match e {
                CrossCompileError::CouldNotFindLinkerBinary(b) => b@ == musl_linker(),
                CrossCompileError::CouldNotFindCCBinary(b) => b@ == musl_cc(),
                CrossCompileError::UnsupportedTargetTriple(_) => false,
            },
        },
{
    if !assistance {
        return CargoEnv::Configured(Vec::new());
    }
    cargo_env_from(cross_compile_env(target_triple, host_is_macos))
}

} // verus!

//! The names and arguments used when packaging a buildpack: building its
//! binary with Cargo and bundling it with its descriptor into a tarball.
use vstd::prelude::*;

use vstd::string::{StrSliceExecFns, StringExecFns};

verus! {

/// The Cargo profile that the buildpack binary is built with.
#[derive(Clone, Copy, Debug, PartialEq, Eq, Structural)]
pub enum CargoProfile {
    Dev,
    Release,
}

/// The directory under the target triple where Cargo puts the binary.
pub open spec fn profile_directory_spec(profile: CargoProfile) -> Seq<char> {
    match profile {
        CargoProfile::Dev => "debug"@,
        CargoProfile::Release => "release"@,
    }
}

/// The suffix that names the profile in the tarball's file name.
pub open spec fn profile_suffix_spec(profile: CargoProfile) -> Seq<char> {
    match profile {
        CargoProfile::Dev => "dev"@,
        CargoProfile::Release => "release"@,
    }
}

pub fn profile_directory(profile: CargoProfile) -> (r: String)
    ensures
        r@ == profile_directory_spec(profile),
{
    match profile {
        CargoProfile::Dev => "debug".to_owned(),
        CargoProfile::Release => "release".to_owned(),
    }
}

pub fn profile_suffix(profile: CargoProfile) -> (r: String)
    ensures
        r@ == profile_suffix_spec(profile),
{
    match profile {
        CargoProfile::Dev => "dev".to_owned(),
        CargoProfile::Release => "release".to_owned(),
    }
}

pub open spec fn strings_view(v: Seq<String>) -> Seq<Seq<char>> {
    v.map_values(|s: String| s@)
}

/// The arguments of the `cargo` invocation that builds the binary.
pub fn cargo_build_args(target_triple: &str, profile: CargoProfile) -> (r: Vec<String>)
    ensures
        strings_view(r@) == (match profile {
            CargoProfile::Dev => seq!["build"@, "--target"@, target_triple@],
            CargoProfile::Release => seq!["build"@, "--target"@, target_triple@, "--release"@],
        }),
{
    let mut args: Vec<String> = Vec::new();
    args.push("build".to_owned());
    args.push("--target".to_owned());
    args.push(target_triple.to_owned());
    match profile {
        CargoProfile::Dev => {},
        CargoProfile::Release => args.push("--release".to_owned()),
    }
    let ghost expected = match profile {
        CargoProfile::Dev => seq!["build"@, "--target"@, target_triple@],
        CargoProfile::Release => seq!["build"@, "--target"@, target_triple@, "--release"@],
    };
    assert(strings_view(args@) =~= expected);
    args
}

/// The file name of the packaged buildpack: `<id>_buildpack_<profile>.tar.gz`.
pub fn tarball_file_name(buildpack_id: &str, profile: CargoProfile) -> (r: String)
    ensures
        r@ == buildpack_id@ + "_buildpack_"@ + profile_suffix_spec(profile) + ".tar.gz"@,
{
    let mut name = buildpack_id.to_owned();
    name.append("_buildpack_");
    let suffix = profile_suffix(profile);
    name.append(suffix.as_str());
    name.append(".tar.gz");
    name
}

/// `id` with each `/` replaced by `_`, so that it names one directory.
pub open spec fn directory_name_spec(id: Seq<char>) -> Seq<char> {
    Seq::new(id.len(), |i: int| if id[i] == '/' { '_' } else { id[i] })
}

/// The name of the directory that a buildpack with id `id` is written to.
pub fn buildpack_directory_name(id: &str) -> (r: String)
    ensures
        r@ == directory_name_spec(id@),
{
    let n = id.unicode_len();
    let mut r = String::new();
    let mut i: usize = 0;
    while i < n
        invariant
            0 <= i <= n,
            n == id@.len(),
            r@ == directory_name_spec(id@).subrange(0, i as int),
        decreases n - i,
    {
        proof {
            reveal_strlit("_");
        }
        if id.get_char(i) == '/' {
            r.append("_");
        } else {
            r.append(id.substring_char(i, i + 1));
        }
        assert(r@ =~= directory_name_spec(id@).subrange(0, i + 1));
        i = i + 1;
    }
    assert(directory_name_spec(id@).subrange(0, n as int) =~= directory_name_spec(id@));
    r
}

} // verus!

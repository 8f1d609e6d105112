use libcnb::env::{Operation, Scope};
use libcnb::env_files::{env_file_kind, layer_env_from_files, EnvFile, EnvFileError, EnvFileKind};

fn file(variable: &str, suffix: &str, content: &str) -> EnvFile {
    EnvFile {
        variable: String::from(variable),
        suffix: String::from(suffix),
        content: String::from(content),
    }
}

#[test]
fn suffixes_name_operations() {
    assert_eq!(env_file_kind(&String::from("override")), Some(EnvFileKind::Modification(Operation::Override)));
    assert_eq!(env_file_kind(&String::from("prepend")), Some(EnvFileKind::Modification(Operation::Prepend)));
    assert_eq!(env_file_kind(&String::from("append")), Some(EnvFileKind::Modification(Operation::Append)));
    assert_eq!(env_file_kind(&String::from("default")), Some(EnvFileKind::Modification(Operation::Default)));
    assert_eq!(env_file_kind(&String::from("delim")), Some(EnvFileKind::Delimiter));
    assert_eq!(env_file_kind(&String::from("replace")), None);
}

#[test]
fn files_become_modifications_with_delimiters() {
    let files = vec![
        file("PATH", "delim", ":"),
        file("PATH", "prepend", "/layers/ruby/bin"),
        file("GEM_HOME", "override", "/layers/ruby"),
    ];
    let layer = layer_env_from_files(&files, Scope::Launch).unwrap();
    let mods = &layer.modifications;
    assert_eq!(mods.len(), 2);
    assert_eq!(mods[0].variable, "PATH");
    assert_eq!(mods[0].operation, Operation::Prepend);
    assert_eq!(mods[0].delimiter.as_deref(), Some(":"));
    assert_eq!(mods[0].value, "/layers/ruby/bin");
    assert_eq!(mods[0].scope, Scope::Launch);
    assert_eq!(mods[1].variable, "GEM_HOME");
    assert_eq!(mods[1].delimiter, None);
}

#[test]
fn unknown_operation_is_an_error() {
    let files = vec![file("A", "override", "1"), file("B", "replace", "2")];
    assert_eq!(
        layer_env_from_files(&files, Scope::All).map(|l| l.modifications.len()),
        Err(EnvFileError::UnknownOperation { variable: String::from("B"), suffix: String::from("replace") })
    );
}

use libcnb::env_files::split_env_file_name;

#[test]
fn file_names_split_at_last_dot() {
    assert_eq!(split_env_file_name("PATH.prepend"), (String::from("PATH"), String::from("prepend")));
    assert_eq!(split_env_file_name("A.B.delim"), (String::from("A.B"), String::from("delim")));
    assert_eq!(split_env_file_name("PLAIN"), (String::from("PLAIN"), String::new()));
    assert_eq!(split_env_file_name("TRAIL."), (String::from("TRAIL"), String::new()));
    assert_eq!(split_env_file_name("ÄÖ.append"), (String::from("ÄÖ"), String::from("append")));
}

#[test]
fn first_unknown_file_is_named() {
    let files = vec![file("A", "bad", "1"), file("B", "worse", "2")];
    assert_eq!(
        layer_env_from_files(&files, Scope::All).map(|l| l.modifications.len()),
        Err(EnvFileError::UnknownOperation { variable: String::from("A"), suffix: String::from("bad") })
    );
}

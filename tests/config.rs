use workpool::config::{Config, ConfigError};

fn args(v: &[&str]) -> Vec<String> {
    v.iter().map(|s| s.to_string()).collect()
}

#[test]
fn build_reads_query_and_path() {
    let c = Config::build(&args(&["prog", "needle", "poem.txt"]), true).unwrap();
    assert_eq!(c.query, "needle");
    assert_eq!(c.file_path, "poem.txt");
    assert!(c.ignore_case);
}

#[test]
fn build_without_query_fails() {
    assert_eq!(Config::build(&args(&["prog"]), false).err(), Some(ConfigError::MissingQuery));
    assert_eq!(Config::build(&args(&[]), false).err(), Some(ConfigError::MissingQuery));
}

#[test]
fn build_without_path_fails() {
    let e = Config::build(&args(&["prog", "needle"]), false).err();
    assert_eq!(e, Some(ConfigError::MissingFilePath));
}

#[test]
fn error_messages() {
    assert_eq!(ConfigError::MissingQuery.message(), "Could not find query to search for.");
    assert_eq!(
        ConfigError::MissingFilePath.message(),
        "Could not find file path to search in."
    );
}

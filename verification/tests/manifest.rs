use noirlings::exercise::{BbVerifyOptions, ConfigReadError, Mode, TomlFile};
use noirlings::manifest::{deserialize_mode, Entry, ManifestValue, ModeDecodeError};

fn text(s: &str) -> ManifestValue {
    ManifestValue::Text(s.to_string())
}

fn table(entries: Vec<(&str, ManifestValue)>) -> ManifestValue {
    ManifestValue::Table(
        entries.into_iter().map(|(key, value)| Entry { key: key.to_string(), value }).collect(),
    )
}

fn inlined(s: &str) -> ManifestValue {
    table(vec![("inlined", text(s))])
}

fn path(s: &str) -> ManifestValue {
    table(vec![("path", text(s))])
}

#[test]
fn bare_strings_name_build_and_test() {
    assert_eq!(deserialize_mode(&text("test")), Ok(Mode::Test));
    assert_eq!(deserialize_mode(&text("build")), Ok(Mode::Build));
}

#[test]
fn other_bare_strings_are_unknown_tags() {
    for tag in ["", "Test", "BUILD", "execute", "proveOnly", "proveAndVerify", "tests", " build"] {
        assert_eq!(deserialize_mode(&text(tag)), Err(ModeDecodeError::UnknownModeTag));
    }
}

#[test]
fn execute_with_inlined_inputs() {
    let value = table(vec![("execute", inlined("a = '1'"))]);
    assert_eq!(
        deserialize_mode(&value),
        Ok(Mode::Execute(TomlFile::Inlined("a = '1'".to_string())))
    );
}

#[test]
fn execute_with_referenced_inputs() {
    let value = table(vec![("execute", path("path/to/toml.toml"))]);
    assert_eq!(
        deserialize_mode(&value),
        Ok(Mode::Execute(TomlFile::Referenced("path/to/toml.toml".to_string())))
    );
}

#[test]
fn prove_only_takes_the_same_payload() {
    assert_eq!(
        deserialize_mode(&table(vec![("proveOnly", inlined("a = '1' \nb = '2'"))])),
        Ok(Mode::ProveOnly(TomlFile::Inlined("a = '1' \nb = '2'".to_string())))
    );
    assert_eq!(
        deserialize_mode(&table(vec![("proveOnly", path("p.toml"))])),
        Ok(Mode::ProveOnly(TomlFile::Referenced("p.toml".to_string())))
    );
}

#[test]
fn prove_and_verify_takes_inputs_and_a_flag_in_either_order() {
    let expected = |save_files| {
        Ok(Mode::ProveAndVerify(BbVerifyOptions {
            toml_file: TomlFile::Referenced("path/to/toml.toml".to_string()),
            save_files,
        }))
    };
    let first = table(vec![(
        "proveAndVerify",
        table(vec![
            ("tomlFile", path("path/to/toml.toml")),
            ("saveFiles", ManifestValue::Flag(true)),
        ]),
    )]);
    assert_eq!(deserialize_mode(&first), expected(true));
    let second = table(vec![(
        "proveAndVerify",
        table(vec![
            ("saveFiles", ManifestValue::Flag(false)),
            ("tomlFile", path("path/to/toml.toml")),
        ]),
    )]);
    assert_eq!(deserialize_mode(&second), expected(false));
}

#[test]
fn unrecognized_mode_key_is_an_unknown_field() {
    for key in ["run", "bbprove", "bbverify", "Execute", "", "build", "test"] {
        assert_eq!(
            deserialize_mode(&table(vec![(key, inlined("a = '1'"))])),
            Err(ModeDecodeError::UnknownModeField)
        );
    }
    assert_eq!(
        deserialize_mode(&table(vec![("execute", inlined("a = '1'")), ("extra", text("x"))])),
        Err(ModeDecodeError::UnknownModeField)
    );
}

#[test]
fn unrecognized_payload_key_is_an_unknown_field() {
    assert_eq!(
        deserialize_mode(&table(vec![("execute", table(vec![("inline", text("a = '1'"))]))])),
        Err(ModeDecodeError::UnknownModeField)
    );
    assert_eq!(
        deserialize_mode(&table(vec![(
            "proveAndVerify",
            table(vec![
                ("tomlFile", inlined("a = '1'")),
                ("saveFiles", ManifestValue::Flag(true)),
                ("verbose", ManifestValue::Flag(true)),
            ]),
        )])),
        Err(ModeDecodeError::UnknownModeField)
    );
    assert_eq!(
        deserialize_mode(&table(vec![(
            "proveAndVerify",
            table(vec![
                ("tomlFile", table(vec![("file", text("p.toml"))])),
                ("saveFiles", ManifestValue::Flag(true)),
            ]),
        )])),
        Err(ModeDecodeError::UnknownModeField)
    );
    assert_eq!(
        TomlFile::deserialize(&table(vec![("toml", text("x"))])),
        Err(ModeDecodeError::UnknownModeField)
    );
    assert_eq!(
        BbVerifyOptions::deserialize(&table(vec![("toml_file", inlined("x"))])),
        Err(ModeDecodeError::UnknownModeField)
    );
}

#[test]
fn other_shapes_are_invalid() {
    assert_eq!(
        deserialize_mode(&ManifestValue::Flag(true)),
        Err(ModeDecodeError::InvalidModeShape)
    );
    assert_eq!(deserialize_mode(&ManifestValue::Other), Err(ModeDecodeError::InvalidModeShape));
    assert_eq!(deserialize_mode(&table(vec![])), Err(ModeDecodeError::InvalidModeShape));
    assert_eq!(
        deserialize_mode(&table(vec![("execute", inlined("a")), ("proveOnly", inlined("a"))])),
        Err(ModeDecodeError::InvalidModeShape)
    );
    assert_eq!(
        deserialize_mode(&table(vec![("execute", text("a = '1'"))])),
        Err(ModeDecodeError::InvalidModeShape)
    );
    assert_eq!(
        deserialize_mode(&table(vec![("execute", table(vec![]))])),
        Err(ModeDecodeError::InvalidModeShape)
    );
    assert_eq!(
        deserialize_mode(&table(vec![(
            "execute",
            table(vec![("inlined", text("a")), ("path", text("b"))]),
        )])),
        Err(ModeDecodeError::InvalidModeShape)
    );
    assert_eq!(
        deserialize_mode(&table(vec![("execute", table(vec![("path", ManifestValue::Flag(true))]))])),
        Err(ModeDecodeError::InvalidModeShape)
    );
    assert_eq!(
        deserialize_mode(&table(vec![("proveAndVerify", inlined("a"))])),
        Err(ModeDecodeError::UnknownModeField)
    );
}

#[test]
fn options_need_both_entries_once() {
    assert_eq!(
        BbVerifyOptions::deserialize(&table(vec![("tomlFile", inlined("a"))])),
        Err(ModeDecodeError::InvalidModeShape)
    );
    assert_eq!(
        BbVerifyOptions::deserialize(&table(vec![("saveFiles", ManifestValue::Flag(true))])),
        Err(ModeDecodeError::InvalidModeShape)
    );
    assert_eq!(
        BbVerifyOptions::deserialize(&table(vec![
            ("saveFiles", ManifestValue::Flag(true)),
            ("saveFiles", ManifestValue::Flag(false)),
        ])),
        Err(ModeDecodeError::InvalidModeShape)
    );
    assert_eq!(
        BbVerifyOptions::deserialize(&table(vec![
            ("tomlFile", inlined("a")),
            ("saveFiles", text("true")),
        ])),
        Err(ModeDecodeError::InvalidModeShape)
    );
    assert_eq!(
        BbVerifyOptions::deserialize(&table(vec![
            ("tomlFile", text("a")),
            ("saveFiles", ManifestValue::Flag(true)),
        ])),
        Err(ModeDecodeError::InvalidModeShape)
    );
    assert_eq!(
        BbVerifyOptions::deserialize(&ManifestValue::Flag(true)),
        Err(ModeDecodeError::InvalidModeShape)
    );
    assert_eq!(
        BbVerifyOptions::deserialize(&table(vec![
            ("tomlFile", inlined("a = '1'")),
            ("saveFiles", ManifestValue::Flag(true)),
        ])),
        Ok(BbVerifyOptions { toml_file: TomlFile::Inlined("a = '1'".to_string()), save_files: true })
    );
}

#[test]
fn decoding_stores_a_path_without_reading_it() {
    let value = path("/no/such/dir/inputs.toml");
    assert_eq!(
        TomlFile::deserialize(&value),
        Ok(TomlFile::Referenced("/no/such/dir/inputs.toml".to_string()))
    );
}

#[test]
fn inlined_payload_resolves_to_itself() {
    let payload = TomlFile::Inlined("a = '1'".to_string());
    assert_eq!(payload.to_string(None), Ok("a = '1'".to_string()));
    assert_eq!(payload.to_string(Some("other".to_string())), Ok("a = '1'".to_string()));
    assert_eq!(payload.to_string(None), payload.to_string(None));
    assert_eq!(payload.referenced_path(), None);
    assert_eq!(TomlFile::Inlined(String::new()).to_string(None), Ok(String::new()));
}

#[test]
fn referenced_payload_resolves_to_what_was_read() {
    let payload = TomlFile::Referenced("inputs/Prover.toml".to_string());
    assert_eq!(payload.referenced_path(), Some("inputs/Prover.toml".to_string()));
    assert_eq!(payload.to_string(Some("x = 3".to_string())), Ok("x = 3".to_string()));
}

#[test]
fn referenced_payload_that_was_not_read_is_a_config_read_error() {
    let payload = TomlFile::Referenced("/no/such/file.toml".to_string());
    assert_eq!(
        payload.to_string(None),
        Err(ConfigReadError { path: "/no/such/file.toml".to_string() })
    );
}

#[test]
fn mode_hands_out_its_input_payload() {
    let inputs = TomlFile::Inlined("a = '1'".to_string());
    assert_eq!(Mode::Build.input_payload(), None);
    assert_eq!(Mode::Test.input_payload(), None);
    assert_eq!(Mode::Execute(inputs.clone()).input_payload(), Some(inputs.clone()));
    assert_eq!(Mode::ProveOnly(inputs.clone()).input_payload(), Some(inputs.clone()));
    assert_eq!(
        Mode::ProveAndVerify(BbVerifyOptions { toml_file: inputs.clone(), save_files: false })
            .input_payload(),
        Some(inputs)
    );
}

//! Decoding the mode of an exercise from its manifest entry.
//!
//! A manifest names a mode either by a bare string or by a table with one
//! key. The value arrives here as a `ManifestValue`, already parsed; nothing
//! in this module touches a file, and a payload's path is stored as it is
//! written.

use crate::exercise::{BbVerifyOptions, BbVerifyOptionsView, Mode, ModeView, TomlFile, TomlFileView};
use vstd::prelude::*;
use vstd::string::StringExecFns;

verus! {

/// A value of a manifest, as far as decoding a mode looks into it.
#[derive(Debug, PartialEq, Eq)]
pub enum ManifestValue {
    /// A string.
    Text(String),
    /// A boolean.
    Flag(bool),
    /// A table: its entries in the order in which they were written.
    Table(Vec<Entry>),
    /// A value of any other shape.
    Other,
}

/// One entry of a table.
#[derive(Debug, PartialEq, Eq)]
pub struct Entry {
    pub key: String,
    pub value: ManifestValue,
}

/// Why a manifest value is not a mode.
#[derive(Clone, Copy, Debug, PartialEq, Eq)]
pub enum ModeDecodeError {
    /// A bare string that names no mode.
    UnknownModeTag,
    /// A table key that is not known where it stands.
    UnknownModeField,
    /// A value of a shape that no mode is written in.
    InvalidModeShape,
}

/// The tables that decoding a mode reads.
#[derive(Clone, Copy, Debug, PartialEq, Eq)]
pub enum Place {
    /// The table that names a mode by its one key.
    ModeTable,
    /// The table that gives input values, inline or by path.
    InputsTable,
    /// The table that gives the options of proving and verifying.
    OptionsTable,
}

/// Whether `key` is one that a table at `place` may hold.
pub open spec fn is_known_key(place: Place, key: Seq<char>) -> bool {
    match place {
        Place::ModeTable => key == "execute"@ || key == "proveOnly"@ || key == "proveAndVerify"@,
        Place::InputsTable => key == "inlined"@ || key == "path"@,
        Place::OptionsTable => key == "tomlFile"@ || key == "saveFiles"@,
    }
}

/// Whether some key of `entries` is not known at `place`.
pub open spec fn has_unknown_key(place: Place, entries: Seq<Entry>) -> bool {
    exists|i: int| 0 <= i < entries.len() && !is_known_key(place, (#[trigger] entries[i]).key@)
}

/// The input payload that `value` describes: a table whose one entry is
/// `inlined` or `path` with a string. A key other than these two is an
/// unknown field; anything else that differs is an invalid shape.
pub open spec fn decoded_toml_file(value: ManifestValue) -> Result<TomlFileView, ModeDecodeError> {
    match value {
        ManifestValue::Table(entries) => {
            if has_unknown_key(Place::InputsTable, entries@) {
                Err(ModeDecodeError::UnknownModeField)
            } else if entries@.len() != 1 {
                Err(ModeDecodeError::InvalidModeShape)
            } else {
                match entries@[0].value {
                    ManifestValue::Text(text) => if entries@[0].key@ == "inlined"@ {
                        Ok(TomlFileView::Inlined(text@))
                    } else {
                        Ok(TomlFileView::Referenced(text@))
                    },
                    _ => Err(ModeDecodeError::InvalidModeShape),
                }
            }
        },
        _ => Err(ModeDecodeError::InvalidModeShape),
    }
}

/// The options that `value` describes: a table with the two entries
/// `tomlFile`, an input payload, and `saveFiles`, a boolean, in either order.
/// A key other than these two is an unknown field; anything else that
/// differs is an invalid shape, unless the input payload itself names an
/// unknown field.
pub open spec fn decoded_options(value: ManifestValue) -> Result<
    BbVerifyOptionsView,
    ModeDecodeError,
> {
    match value {
        ManifestValue::Table(entries) => {
            if has_unknown_key(Place::OptionsTable, entries@) {
                Err(ModeDecodeError::UnknownModeField)
            } else if entries@.len() != 2 || entries@[0].key@ == entries@[1].key@ {
                Err(ModeDecodeError::InvalidModeShape)
            } else {
                let file_first = entries@[0].key@ == "tomlFile"@;
                let file = if file_first {
                    entries@[0].value
                } else {
                    entries@[1].value
                };
                let flag = if file_first {
                    entries@[1].value
                } else {
                    entries@[0].value
                };
                match decoded_toml_file(file) {
                    Err(e) => Err(e),
                    Ok(toml_file) => match flag {
                        ManifestValue::Flag(save_files) => Ok(
                            BbVerifyOptionsView { toml_file, save_files },
                        ),
                        _ => Err(ModeDecodeError::InvalidModeShape),
                    },
                }
            }
        },
        _ => Err(ModeDecodeError::InvalidModeShape),
    }
}

/// The mode that `value` describes.
///
/// A bare string is `build` or `test`; any other is an unknown tag. A table
/// holds one entry, `execute`, `proveOnly` or `proveAndVerify`, with the
/// payload of that mode; a key other than these three is an unknown field,
/// and a table of known keys that has not exactly one entry is an invalid
/// shape. A value that is neither a string nor a table is an invalid shape.
pub open spec fn decoded_mode(value: ManifestValue) -> Result<ModeView, ModeDecodeError> {
    match value {
        ManifestValue::Text(tag) => {
            if tag@ == "build"@ {
                Ok(ModeView::Build)
            } else if tag@ == "test"@ {
                Ok(ModeView::Test)
            } else {
                Err(ModeDecodeError::UnknownModeTag)
            }
        },
        ManifestValue::Table(entries) => {
            if has_unknown_key(Place::ModeTable, entries@) {
                Err(ModeDecodeError::UnknownModeField)
            } else if entries@.len() != 1 {
                Err(ModeDecodeError::InvalidModeShape)
            } else if entries@[0].key@ == "execute"@ {
                match decoded_toml_file(entries@[0].value) {
                    Ok(inputs) => Ok(ModeView::Execute(inputs)),
                    Err(e) => Err(e),
                }
            } else if entries@[0].key@ == "proveOnly"@ {
                match decoded_toml_file(entries@[0].value) {
                    Ok(inputs) => Ok(ModeView::ProveOnly(inputs)),
                    Err(e) => Err(e),
                }
            } else {
                match decoded_options(entries@[0].value) {
                    Ok(options) => Ok(ModeView::ProveAndVerify(options)),
                    Err(e) => Err(e),
                }
            }
        },
        _ => Err(ModeDecodeError::InvalidModeShape),
    }
}

/// No two of the words that decoding knows are the same.
pub proof fn lemma_words_differ()
    ensures
        "build"@ != "test"@,
        "execute"@ != "proveOnly"@,
        "execute"@ != "proveAndVerify"@,
        "proveOnly"@ != "proveAndVerify"@,
        "inlined"@ != "path"@,
        "tomlFile"@ != "saveFiles"@,
{
    reveal_strlit("build");
    reveal_strlit("test");
    reveal_strlit("execute");
    reveal_strlit("proveOnly");
    reveal_strlit("proveAndVerify");
    reveal_strlit("inlined");
    reveal_strlit("path");
    reveal_strlit("tomlFile");
    reveal_strlit("saveFiles");
    assert("build"@.len() == 5 && "test"@.len() == 4);
    assert("execute"@.len() == 7 && "proveOnly"@.len() == 9 && "proveAndVerify"@.len() == 14);
    assert("inlined"@.len() == 7 && "path"@.len() == 4);
    assert("tomlFile"@.len() == 8 && "saveFiles"@.len() == 9);
}

/// A bare string is a mode exactly where it is `test` or `build`: `test`
/// gives the test mode, `build` the build mode, and every other string is
/// an unknown tag.
pub proof fn lemma_bare_string(value: ManifestValue)
    requires
        value is Text,
    ensures
        value->Text_0@ == "test"@ ==> decoded_mode(value) == Ok::<ModeView, ModeDecodeError>(
            ModeView::Test,
        ),
        value->Text_0@ == "build"@ ==> decoded_mode(value) == Ok::<ModeView, ModeDecodeError>(
            ModeView::Build,
        ),
        value->Text_0@ != "test"@ && value->Text_0@ != "build"@ ==> decoded_mode(value) == Err::<
            ModeView,
            ModeDecodeError,
        >(ModeDecodeError::UnknownModeTag),
{
    lemma_words_differ();
}

/// A table with a key that names no mode is an unknown field, whatever
/// else it holds.
pub proof fn lemma_unknown_mode_key(value: ManifestValue, i: int)
    requires
        value is Table,
        0 <= i < value->Table_0@.len(),
        !is_known_key(Place::ModeTable, value->Table_0@[i].key@),
    ensures
        decoded_mode(value) == Err::<ModeView, ModeDecodeError>(ModeDecodeError::UnknownModeField),
{
}

/// A table with the one key `inlined` or `path` and a string is an input
/// payload: inline text under `inlined`, a reference under `path`.
pub proof fn lemma_inputs_table(value: ManifestValue)
    requires
        value is Table,
        value->Table_0@.len() == 1,
        value->Table_0@[0].value is Text,
    ensures
        value->Table_0@[0].key@ == "inlined"@ ==> decoded_toml_file(value) == Ok::<
            TomlFileView,
            ModeDecodeError,
        >(TomlFileView::Inlined(value->Table_0@[0].value->Text_0@)),
        value->Table_0@[0].key@ == "path"@ ==> decoded_toml_file(value) == Ok::<
            TomlFileView,
            ModeDecodeError,
        >(TomlFileView::Referenced(value->Table_0@[0].value->Text_0@)),
{
    lemma_words_differ();
    let entries = value->Table_0@;
    if is_known_key(Place::InputsTable, entries[0].key@) {
        assert(!has_unknown_key(Place::InputsTable, entries));
    }
}

/// A table with one key names the mode of that key, with the payload that
/// its value decodes to, or fails as the payload fails.
pub proof fn lemma_mode_table(value: ManifestValue)
    requires
        value is Table,
        value->Table_0@.len() == 1,
    ensures
        value->Table_0@[0].key@ == "execute"@ ==> decoded_mode(value) == match decoded_toml_file(
            value->Table_0@[0].value,
        ) {
            Ok(inputs) => Ok::<ModeView, ModeDecodeError>(ModeView::Execute(inputs)),
            Err(e) => Err(e),
        },
        value->Table_0@[0].key@ == "proveOnly"@ ==> decoded_mode(value) == match decoded_toml_file(
            value->Table_0@[0].value,
        ) {
            Ok(inputs) => Ok::<ModeView, ModeDecodeError>(ModeView::ProveOnly(inputs)),
            Err(e) => Err(e),
        },
        value->Table_0@[0].key@ == "proveAndVerify"@ ==> decoded_mode(value) == match decoded_options(
            value->Table_0@[0].value,
        ) {
            Ok(options) => Ok::<ModeView, ModeDecodeError>(ModeView::ProveAndVerify(options)),
            Err(e) => Err(e),
        },
{
    lemma_words_differ();
    let entries = value->Table_0@;
    if is_known_key(Place::ModeTable, entries[0].key@) {
        assert(!has_unknown_key(Place::ModeTable, entries));
    }
}

/// Whether `s` holds the same text as `literal`.
fn text_is(s: &String, literal: &str) -> (same: bool)
    ensures
        same == (s@ == literal@),
{
    let other = String::from_str(literal);
    *s == other
}

/// Whether `key` is one that a table at `place` may hold.
fn key_is_known(place: Place, key: &String) -> (known: bool)
    ensures
        known == is_known_key(place, key@),
{
    match place {
        Place::ModeTable => text_is(key, "execute") || text_is(key, "proveOnly") || text_is(
            key,
            "proveAndVerify",
        ),
        Place::InputsTable => text_is(key, "inlined") || text_is(key, "path"),
        Place::OptionsTable => text_is(key, "tomlFile") || text_is(key, "saveFiles"),
    }
}

/// Whether some key of `entries` is not known at `place`.
fn holds_unknown_key(place: Place, entries: &Vec<Entry>) -> (unknown: bool)
    ensures
        unknown == has_unknown_key(place, entries@),
{
    let mut i: usize = 0;
    while i < entries.len()
        invariant
            i <= entries.len(),
            forall|j: int| 0 <= j < i ==> is_known_key(place, (#[trigger] entries@[j]).key@),
        decreases entries.len() - i,
    {
        if !key_is_known(place, &entries[i].key) {
            return true;
        }
        i += 1;
    }
    false
}

impl TomlFile {
    /// Decodes an input payload from its manifest value.
    pub fn deserialize(value: &ManifestValue) -> (decoded: Result<TomlFile, ModeDecodeError>)
        ensures
            match decoded_toml_file(*value) {
                Ok(file) => decoded matches Ok(d) && d@ == file,
                Err(e) => decoded == Err::<TomlFile, ModeDecodeError>(e),
            },
    {
        match value {
            ManifestValue::Table(entries) => {
                if holds_unknown_key(Place::InputsTable, entries) {
                    Err(ModeDecodeError::UnknownModeField)
                } else if entries.len() != 1 {
                    Err(ModeDecodeError::InvalidModeShape)
                } else {
                    match &entries[0].value {
                        ManifestValue::Text(text) => if text_is(&entries[0].key, "inlined") {
                            Ok(TomlFile::Inlined(text.clone()))
                        } else {
                            Ok(TomlFile::Referenced(text.clone()))
                        },
                        _ => Err(ModeDecodeError::InvalidModeShape),
                    }
                }
            },
            _ => Err(ModeDecodeError::InvalidModeShape),
        }
    }
}

impl BbVerifyOptions {
    /// Decodes the options of proving and verifying from their manifest
    /// value.
    pub fn deserialize(value: &ManifestValue) -> (decoded: Result<BbVerifyOptions, ModeDecodeError>)
        ensures
            match decoded_options(*value) {
                Ok(options) => decoded matches Ok(d) && d@ == options,
                Err(e) => decoded == Err::<BbVerifyOptions, ModeDecodeError>(e),
            },
    {
        match value {
            ManifestValue::Table(entries) => {
                if holds_unknown_key(Place::OptionsTable, entries) {
                    Err(ModeDecodeError::UnknownModeField)
                } else if entries.len() != 2 || entries[0].key == entries[1].key {
                    Err(ModeDecodeError::InvalidModeShape)
                } else {
                    let file_first = text_is(&entries[0].key, "tomlFile");
                    let (file, flag) = if file_first {
                        (&entries[0].value, &entries[1].value)
                    } else {
                        (&entries[1].value, &entries[0].value)
                    };
                    match TomlFile::deserialize(file) {
                        Err(e) => Err(e),
                        Ok(toml_file) => match flag {
                            ManifestValue::Flag(save_files) => Ok(
                                BbVerifyOptions { toml_file, save_files: *save_files },
                            ),
                            _ => Err(ModeDecodeError::InvalidModeShape),
                        },
                    }
                }
            },
            _ => Err(ModeDecodeError::InvalidModeShape),
        }
    }
}

/// Decodes the mode of an exercise from its manifest value.
pub fn deserialize_mode(value: &ManifestValue) -> (decoded: Result<Mode, ModeDecodeError>)
    ensures
        match decoded_mode(*value) {
            Ok(mode) => decoded matches Ok(d) && d@ == mode,
            Err(e) => decoded == Err::<Mode, ModeDecodeError>(e),
        },
{
    match value {
        ManifestValue::Text(tag) => {
            if text_is(tag, "build") {
                Ok(Mode::Build)
            } else if text_is(tag, "test") {
                Ok(Mode::Test)
            } else {
                Err(ModeDecodeError::UnknownModeTag)
            }
        },
        ManifestValue::Table(entries) => {
            if holds_unknown_key(Place::ModeTable, entries) {
                Err(ModeDecodeError::UnknownModeField)
            } else if entries.len() != 1 {
                Err(ModeDecodeError::InvalidModeShape)
            } else if text_is(&entries[0].key, "execute") {
                match TomlFile::deserialize(&entries[0].value) {
                    Ok(inputs) => Ok(Mode::Execute(inputs)),
                    Err(e) => Err(e),
                }
            } else if text_is(&entries[0].key, "proveOnly") {
                match TomlFile::deserialize(&entries[0].value) {
                    Ok(inputs) => Ok(Mode::ProveOnly(inputs)),
                    Err(e) => Err(e),
                }
            } else {
                match BbVerifyOptions::deserialize(&entries[0].value) {
                    Ok(options) => Ok(Mode::ProveAndVerify(options)),
                    Err(e) => Err(e),
                }
            }
        },
        _ => Err(ModeDecodeError::InvalidModeShape),
    }
}

} // verus!

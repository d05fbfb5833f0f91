//! The project manifest: where it lies and which edition it names.

use crate::document::entries_view;
use crate::document::find_value;
use crate::document::lookup;
use crate::document::parse;
use crate::document::table_entries;
use crate::document::toml_document;
use crate::document::TomlValue;
use crate::document::TomlValueView;
use crate::error::IoOperation;
use crate::error::XfmtError;
use crate::path_ext::find_nearest;
use crate::path_ext::located;
use crate::path_ext::located_text;
use crate::snapshot::Snapshot;
use crate::text::option_text;
use vstd::prelude::*;

verus! {

/// What the formatter needs from the nearest manifest.
#[derive(Debug, Clone, PartialEq, Eq)]
pub struct CargoToml {
    /// The edition of the package, where the manifest names one.
    pub edition: Option<String>,
}

/// The edition that a manifest with these entries names. The manifest must
/// hold a table `package`; its `edition` may be absent, and must be a string
/// where it is there.
pub open spec fn edition_of(entries: Seq<(Seq<char>, TomlValueView)>) -> Result<
    Option<Seq<char>>,
    XfmtError,
> {
    match lookup(entries, "package"@) {
        Some(TomlValueView::Table(package)) => match lookup(table_entries(package), "edition"@) {
            None => Ok(None),
            Some(TomlValueView::String(edition)) => Ok(Some(edition)),
            Some(_) => Err(XfmtError::MalformedManifest),
        },
        _ => Err(XfmtError::MalformedManifest),
    }
}

/// The outcome of reading a manifest, with its edition as text.
pub open spec fn edition_text(r: Result<CargoToml, XfmtError>) -> Result<
    Option<Seq<char>>,
    XfmtError,
> {
    match r {
        Ok(manifest) => Ok(option_text(manifest.edition)),
        Err(e) => Err(e),
    }
}

/// The edition that the manifest text names.
pub open spec fn parsed_edition(text: Seq<char>) -> Result<Option<Seq<char>>, XfmtError> {
    match toml_document(text) {
        Some(entries) => edition_of(entries),
        None => Err(XfmtError::Parse),
    }
}

/// The edition that the manifest at `path` names.
pub open spec fn read_edition(fs: Snapshot, path: Seq<char>) -> Result<
    Option<Seq<char>>,
    XfmtError,
> {
    match fs.text_at(path) {
        Some(text) => parsed_edition(text),
        None => Err(XfmtError::Io(IoOperation::Read)),
    }
}

/// The edition that the nearest manifest above `start` names.
pub open spec fn edition_for(fs: Snapshot, start: Seq<char>) -> Result<
    Option<Seq<char>>,
    XfmtError,
> {
    match located(fs, start, "Cargo.toml"@) {
        Ok(Some(path)) => read_edition(fs, path),
        Ok(None) => Err(XfmtError::ManifestNotFound),
        Err(e) => Err(e),
    }
}

impl CargoToml {
    /// The name of a manifest file.
    pub fn file_name() -> (r: &'static str)
        ensures
            r@ == "Cargo.toml"@,
    {
        "Cargo.toml"
    }

    /// Reads the edition from the entries of a manifest.
    pub fn from_items(items: &Vec<(String, TomlValue)>) -> (r: Result<CargoToml, XfmtError>)
        ensures
            edition_text(r) == edition_of(entries_view(items@)),
    {
        let package = match find_value(items, "package") {
            Some(value) => match value.entries() {
                Some(package) => package,
                None => {
                    return Err(XfmtError::MalformedManifest);
                },
            },
            None => {
                return Err(XfmtError::MalformedManifest);
            },
        };
        match find_value(&package, "edition") {
            None => Ok(CargoToml { edition: None }),
            Some(TomlValue::String(edition)) => Ok(CargoToml { edition: Some(edition.clone()) }),
            Some(_) => Err(XfmtError::MalformedManifest),
        }
    }

    /// Parses the text of a manifest.
    pub fn parse(text: &str) -> (r: Result<CargoToml, XfmtError>)
        ensures
            edition_text(r) == parsed_edition(text@),
    {
        match parse(text) {
            Ok(items) => CargoToml::from_items(&items),
            Err(e) => Err(e),
        }
    }

    /// Reads the manifest at `cargo_toml_path`.
    pub fn read(cargo_toml_path: &str, fs: &Snapshot) -> (r: Result<CargoToml, XfmtError>)
        ensures
            edition_text(r) == read_edition(*fs, cargo_toml_path@),
    {
        match fs.read_to_string(cargo_toml_path) {
            Ok(text) => CargoToml::parse(text.as_str()),
            Err(e) => Err(e),
        }
    }

    /// The absolute path of the nearest manifest in the directory of
    /// `start_from` or above it.
    pub fn find(start_from: &str, fs: &Snapshot) -> (r: Result<Option<String>, XfmtError>)
        ensures
            located_text(r) == located(*fs, start_from@, "Cargo.toml"@),
    {
        find_nearest(start_from, CargoToml::file_name(), fs)
    }

    /// Finds the nearest manifest and reads it: `ManifestNotFound` where
    /// there is none.
    pub fn read_from(start_from: &str, fs: &Snapshot) -> (r: Result<CargoToml, XfmtError>)
        ensures
            edition_text(r) == edition_for(*fs, start_from@),
    {
        match CargoToml::find(start_from, fs) {
            Ok(Some(path)) => CargoToml::read(path.as_str(), fs),
            Ok(None) => Err(XfmtError::ManifestNotFound),
            Err(e) => Err(e),
        }
    }
}

} // verus!

//! The formatter's configuration file: where it lies, what it says, and the
//! renames that hide it while a command runs.

use crate::document::entries_view;
use crate::document::parse;
use crate::document::toml_document;
use crate::document::TomlValue;
use crate::document::TomlValueView;
use crate::error::IoOperation;
use crate::error::ValueKind;
use crate::error::XfmtError;
use crate::path_ext::absolute_path;
use crate::path_ext::ancestors;
use crate::path_ext::file_name_of;
use crate::path_ext::find_nearest;
use crate::path_ext::join;
use crate::path_ext::lemma_nearest_file;
use crate::path_ext::located;
use crate::path_ext::located_text;
use crate::path_ext::parent_of;
use crate::path_ext::path_file_name;
use crate::path_ext::path_joined;
use crate::path_ext::path_parent;
use crate::path_ext::search_root;
use crate::snapshot::Snapshot;
use crate::text::option_text;
use crate::text::pair_texts;
use vstd::prelude::*;
use vstd::string::*;

verus! {

/// A configuration file that was read: its place, its entries as text, and
/// whether it is hidden at the moment.
#[derive(Debug, Clone, PartialEq, Eq)]
pub struct RustfmtToml {
    hidden: bool,
    config_dir: String,
    config_path: String,
    shadow_path: String,
    config: Vec<(String, String)>,
}

/// A configuration with its strings as text.
pub struct RustfmtTomlView {
    /// Whether the file lies at `shadow_path` at the moment.
    pub hidden: bool,
    /// The directory of the file.
    pub config_dir: Seq<char>,
    /// The path of the file.
    pub config_path: Seq<char>,
    /// Where the file lies while it is hidden.
    pub shadow_path: Seq<char>,
    /// The entries of the file, each value as text, in the order of the file.
    pub config: Seq<(Seq<char>, Seq<char>)>,
}

impl RustfmtTomlView {
    /// The file lies in `config_dir`, and its shadow beside it under the
    /// shadow name. Every configuration that was read is so, hidden or not.
    pub open spec fn well_formed(self) -> bool {
        &&& path_parent(self.config_path) == Some(self.config_dir)
        &&& self.shadow_path == shadow_of(self.config_dir, self.config_path)
    }
}

/// Moving a file from one path to another.
#[derive(Debug, Clone, PartialEq, Eq)]
pub struct Rename {
    pub from: String,
    pub to: String,
}

/// The name under which a configuration file is hidden: its own name behind
/// an underscore.
pub open spec fn shadow_name(config_path: Seq<char>) -> Seq<char> {
    match path_file_name(config_path) {
        Some(name) => seq!['_'] + name,
        None => "_rustfmt.toml"@,
    }
}

/// Where a configuration file lies while it is hidden: in its own directory,
/// under its shadow name.
pub open spec fn shadow_of(config_dir: Seq<char>, config_path: Seq<char>) -> Seq<char> {
    path_joined(config_dir, shadow_name(config_path))
}

/// The kind of the first entry that is an array or a table.
pub open spec fn first_unsupported(entries: Seq<(Seq<char>, TomlValueView)>) -> Option<ValueKind>
    decreases entries.len(),
{
    if entries.len() == 0 {
        None
    } else if entries[0].1.scalar_text() is None {
        Some(entries[0].1.kind())
    } else {
        first_unsupported(entries.drop_first())
    }
}

/// The entries with each value as text.
pub open spec fn options_of(entries: Seq<(Seq<char>, TomlValueView)>) -> Seq<
    (Seq<char>, Seq<char>),
> {
    entries.map_values(
        |entry: (Seq<char>, TomlValueView)| (entry.0, entry.1.scalar_text().unwrap()),
    )
}

/// The configuration that a file at `config_path` with these entries gives.
/// An array or a table is refused, the first one by its kind; then a path
/// without a parent.
pub open spec fn config_of(
    config_path: Seq<char>,
    entries: Seq<(Seq<char>, TomlValueView)>,
) -> Result<RustfmtTomlView, XfmtError> {
    match first_unsupported(entries) {
        Some(kind) => Err(XfmtError::UnsupportedConfigValue(kind)),
        None => match path_parent(config_path) {
            None => Err(XfmtError::NoParentDirectory),
            Some(config_dir) => Ok(
                RustfmtTomlView {
                    hidden: false,
                    config_dir,
                    config_path,
                    shadow_path: shadow_of(config_dir, config_path),
                    config: options_of(entries),
                },
            ),
        },
    }
}

/// The outcome of reading a configuration, by its view.
pub open spec fn config_view(r: Result<RustfmtToml, XfmtError>) -> Result<
    RustfmtTomlView,
    XfmtError,
> {
    match r {
        Ok(config) => Ok(config@),
        Err(e) => Err(e),
    }
}

/// The configuration that the text `text` of the file at `config_path` gives.
pub open spec fn parsed_config(config_path: Seq<char>, text: Seq<char>) -> Result<
    RustfmtTomlView,
    XfmtError,
> {
    match toml_document(text) {
        Some(entries) => config_of(config_path, entries),
        None => Err(XfmtError::Parse),
    }
}

/// The configuration that the file at `config_path` gives.
pub open spec fn read_config(fs: Snapshot, config_path: Seq<char>) -> Result<
    RustfmtTomlView,
    XfmtError,
> {
    match fs.text_at(config_path) {
        Some(text) => parsed_config(config_path, text),
        None => Err(XfmtError::Io(IoOperation::Read)),
    }
}

/// The configuration file in effect for `start`: the nearest file with the
/// dotted name, in whichever directory of the chain it lies; the nearest
/// with the plain name only where there is no dotted one at all.
pub open spec fn config_located(fs: Snapshot, start: Seq<char>) -> Result<
    Option<Seq<char>>,
    XfmtError,
> {
    match located(fs, start, ".rustfmt.toml"@) {
        Ok(None) => located(fs, start, "rustfmt.toml"@),
        dotted => dotted,
    }
}

/// The configuration in effect for `start`.
pub open spec fn config_for(fs: Snapshot, start: Seq<char>) -> Result<RustfmtTomlView, XfmtError> {
    match config_located(fs, start) {
        Ok(Some(path)) => read_config(fs, path),
        Ok(None) => Err(XfmtError::ConfigNotFound),
        Err(e) => Err(e),
    }
}

/// What a rename does to the files of a disk, each path with its content.
/// Nothing moves where `from` does not exist.
pub open spec fn renamed(files: Map<Seq<char>, Seq<u8>>, from: Seq<char>, to: Seq<char>) -> Map<
    Seq<char>,
    Seq<u8>,
> {
    if files.dom().contains(from) {
        files.remove(from).insert(to, files[from])
    } else {
        files
    }
}

impl View for RustfmtToml {
    type V = RustfmtTomlView;

    closed spec fn view(&self) -> RustfmtTomlView {
        RustfmtTomlView {
            hidden: self.hidden,
            config_dir: self.config_dir@,
            config_path: self.config_path@,
            shadow_path: self.shadow_path@,
            config: pair_texts(self.config@),
        }
    }
}

impl RustfmtToml {
    /// The name of a configuration file that is preferred.
    pub fn dotted_file_name() -> (r: &'static str)
        ensures
            r@ == ".rustfmt.toml"@,
    {
        ".rustfmt.toml"
    }

    /// The name of a configuration file.
    pub fn file_name() -> (r: &'static str)
        ensures
            r@ == "rustfmt.toml"@,
    {
        "rustfmt.toml"
    }

    /// Builds the configuration of the file at `config_path` from the entries
    /// of its document.
    pub fn from_items(config_path: &str, items: &Vec<(String, TomlValue)>) -> (r: Result<
        RustfmtToml,
        XfmtError,
    >)
        ensures
            config_view(r) == config_of(config_path@, entries_view(items@)),
            r matches Ok(config) ==> config@.well_formed() && !config@.hidden,
    {
        let ghost entries = entries_view(items@);
        let mut config: Vec<(String, String)> = Vec::new();
        let mut index: usize = 0;
        assert(entries.skip(0) =~= entries);
        assert(pair_texts(config@) =~= options_of(entries.take(0)));
        while index < items.len()
            invariant
                index <= items.len(),
                entries == entries_view(items@),
                first_unsupported(entries) == first_unsupported(entries.skip(index as int)),
                pair_texts(config@) == options_of(entries.take(index as int)),
            decreases items.len() - index,
        {
            let ghost rest = entries.skip(index as int);
            let ghost before = pair_texts(config@);
            assert(rest[0] == (items@[index as int].0@, items@[index as int].1@));
            assert(rest.drop_first() =~= entries.skip(index + 1));
            match items[index].1.scalar_text() {
                Some(text) => {
                    config.push((items[index].0.clone(), text));
                    assert(pair_texts(config@) =~= before.push((rest[0].0, text@)));
                    assert(options_of(entries.take(index + 1)) =~= options_of(
                        entries.take(index as int),
                    ).push((rest[0].0, rest[0].1.scalar_text().unwrap())));
                },
                None => {
                    return Err(XfmtError::UnsupportedConfigValue(items[index].1.kind()));
                },
            }
            index += 1;
        }
        assert(entries.take(index as int) =~= entries);
        let config_dir = match parent_of(config_path) {
            Some(dir) => dir,
            None => {
                return Err(XfmtError::NoParentDirectory);
            },
        };
        let shadow_name = match file_name_of(config_path) {
            Some(name) => {
                proof {
                    reveal_strlit("_");
                    assert("_"@ =~= seq!['_']);
                }
                "_".to_owned().concat(name.as_str())
            },
            None => "_rustfmt.toml".to_owned(),
        };
        let shadow_path = join(config_dir.as_str(), shadow_name.as_str());
        Ok(
            RustfmtToml {
                hidden: false,
                config_dir,
                config_path: config_path.to_owned(),
                shadow_path,
                config,
            },
        )
    }

    /// Parses the text of the configuration file at `config_path`.
    pub fn parse(config_path: &str, text: &str) -> (r: Result<RustfmtToml, XfmtError>)
        ensures
            config_view(r) == parsed_config(config_path@, text@),
    {
        match parse(text) {
            Ok(items) => RustfmtToml::from_items(config_path, &items),
            Err(e) => Err(e),
        }
    }

    /// Reads the configuration file at `config_path`.
    pub fn read(config_path: &str, fs: &Snapshot) -> (r: Result<RustfmtToml, XfmtError>)
        ensures
            config_view(r) == read_config(*fs, config_path@),
    {
        match fs.read_to_string(config_path) {
            Ok(text) => RustfmtToml::parse(config_path, text.as_str()),
            Err(e) => Err(e),
        }
    }

    /// The absolute path of the configuration file in effect for
    /// `start_from`: a file with the dotted name anywhere in the chain of
    /// directories before any with the plain name.
    pub fn find(start_from: &str, fs: &Snapshot) -> (r: Result<Option<String>, XfmtError>)
        ensures
            located_text(r) == config_located(*fs, start_from@),
    {
        match find_nearest(start_from, RustfmtToml::dotted_file_name(), fs) {
            Ok(None) => find_nearest(start_from, RustfmtToml::file_name(), fs),
            dotted => dotted,
        }
    }

    /// Finds the configuration file in effect and reads it: `ConfigNotFound`
    /// where there is none.
    pub fn read_from(start_from: &str, fs: &Snapshot) -> (r: Result<RustfmtToml, XfmtError>)
        ensures
            config_view(r) == config_for(*fs, start_from@),
    {
        match RustfmtToml::find(start_from, fs) {
            Ok(Some(path)) => RustfmtToml::read(path.as_str(), fs),
            Ok(None) => Err(XfmtError::ConfigNotFound),
            Err(e) => Err(e),
        }
    }

    /// The entries of the file, each value as text, in the order of the file.
    pub fn config(&self) -> (r: &Vec<(String, String)>)
        ensures
            pair_texts(r@) == self@.config,
    {
        &self.config
    }

    /// The path of the file.
    pub fn config_path(&self) -> (r: &str)
        ensures
            r@ == self@.config_path,
    {
        self.config_path.as_str()
    }

    /// The directory of the file.
    pub fn config_dir(&self) -> (r: &str)
        ensures
            r@ == self@.config_dir,
    {
        self.config_dir.as_str()
    }

    /// Whether the file is hidden at the moment.
    pub fn is_hidden(&self) -> (r: bool)
        ensures
            r == self@.hidden,
    {
        self.hidden
    }

    /// The rename that hides the file: from its path to its shadow.
    pub fn hiding(&self) -> (r: Rename)
        ensures
            r.from@ == self@.config_path,
            r.to@ == self@.shadow_path,
    {
        Rename { from: self.config_path.clone(), to: self.shadow_path.clone() }
    }

    /// The rename that brings the file back: from its shadow to its path.
    pub fn unhiding(&self) -> (r: Rename)
        ensures
            r.from@ == self@.shadow_path,
            r.to@ == self@.config_path,
    {
        Rename { from: self.shadow_path.clone(), to: self.config_path.clone() }
    }

    /// Takes note of how the hiding rename went. The file counts as hidden
    /// only after the rename succeeded; a failed one is an error and changes
    /// nothing.
    pub fn hide_file(&mut self, renamed: bool) -> (r: Result<(), XfmtError>)
        ensures
            final(self)@ == (RustfmtTomlView {
                hidden: renamed || old(self)@.hidden,
                ..old(self)@
            }),
            r == if renamed {
                Ok::<(), XfmtError>(())
            } else {
                Err::<(), XfmtError>(XfmtError::Io(IoOperation::Rename))
            },
    {
        if renamed {
            self.hidden = true;
            Ok(())
        } else {
            Err(XfmtError::Io(IoOperation::Rename))
        }
    }

    /// Takes note of how the rename back went. The file counts as visible
    /// only after the rename succeeded; a failed one is an error and changes
    /// nothing.
    pub fn unhide(&mut self, renamed: bool) -> (r: Result<(), XfmtError>)
        ensures
            final(self)@ == (RustfmtTomlView {
                hidden: !renamed && old(self)@.hidden,
                ..old(self)@
            }),
            r == if renamed {
                Ok::<(), XfmtError>(())
            } else {
                Err::<(), XfmtError>(XfmtError::Io(IoOperation::Rename))
            },
    {
        if renamed {
            self.hidden = false;
            Ok(())
        } else {
            Err(XfmtError::Io(IoOperation::Rename))
        }
    }

    /// What is left to do when the configuration is let go of: the rename
    /// back if the file is still hidden, nothing otherwise.
    pub fn teardown(&self) -> (r: Option<Rename>)
        ensures
            r is Some == self@.hidden,
            r matches Some(rename) ==> rename.from@ == self@.shadow_path && rename.to@
                == self@.config_path,
    {
        if self.hidden {
            Some(self.unhiding())
        } else {
            None
        }
    }
}

/// A file with the dotted name wins wherever it lies: the file in effect is
/// the nearest dotted one, whatever files with the plain name exist, nearer
/// or farther.
pub proof fn lemma_dotted_file_wins(fs: Snapshot, start: Seq<char>, dir: Seq<char>, k: int)
    requires
        fs.present(start),
        search_root(fs, start) == Some(dir),
        0 <= k < ancestors(dir).len(),
        fs.present(path_joined(ancestors(dir)[k], ".rustfmt.toml"@)),
        forall|i: int| 0 <= i < k ==> !fs.present(path_joined(ancestors(dir)[i], ".rustfmt.toml"@)),
    ensures
        config_located(fs, start) == match absolute_path(
            path_joined(ancestors(dir)[k], ".rustfmt.toml"@),
            option_text(fs.cwd),
        ) {
            Some(path) => Ok::<Option<Seq<char>>, XfmtError>(Some(path)),
            None => Err::<Option<Seq<char>>, XfmtError>(XfmtError::Io(IoOperation::CurrentDir)),
        },
{
    lemma_nearest_file(fs, dir, ".rustfmt.toml"@, k);
}

/// A value that is no scalar makes the configuration unusable: where an entry
/// is an array or a table, the file is refused as unsupported, by the kind of
/// the first such entry.
pub proof fn lemma_container_is_refused(
    config_path: Seq<char>,
    entries: Seq<(Seq<char>, TomlValueView)>,
    i: int,
)
    requires
        0 <= i < entries.len(),
        entries[i].1.scalar_text() is None,
    ensures
        config_of(config_path, entries) matches Err(XfmtError::UnsupportedConfigValue(kind))
            && (kind == ValueKind::Array || kind == ValueKind::Table),
        (forall|j: int| 0 <= j < i ==> entries[j].1.scalar_text() is Some) ==> config_of(
            config_path,
            entries,
        ) == Err::<RustfmtTomlView, XfmtError>(
            XfmtError::UnsupportedConfigValue(entries[i].1.kind()),
        ),
    decreases i,
{
    if entries[0].1.scalar_text() is Some {
        let rest = entries.drop_first();
        assert(rest[i - 1] == entries[i]);
        lemma_container_is_refused(config_path, rest, i - 1);
        if forall|j: int| 0 <= j < i ==> entries[j].1.scalar_text() is Some {
            assert forall|j: int| 0 <= j < i - 1 implies rest[j].1.scalar_text() is Some by {
                assert(rest[j] == entries[j + 1]);
            }
        }
    }
}

/// Hiding and then bringing back leaves the disk as it was: the file under
/// its name with its content, and no shadow. This is so where nothing lay at
/// the shadow path before; what lay there would be overwritten.
pub proof fn lemma_hide_unhide_restores(config: RustfmtTomlView, files: Map<Seq<char>, Seq<u8>>)
    requires
        !files.dom().contains(config.shadow_path),
    ensures
        renamed(
            renamed(files, config.config_path, config.shadow_path),
            config.shadow_path,
            config.config_path,
        ) == files,
{
    let hidden = renamed(files, config.config_path, config.shadow_path);
    let restored = renamed(hidden, config.shadow_path, config.config_path);
    assert(restored =~= files);
}

} // verus!

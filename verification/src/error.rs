//! What can go wrong before a command is run, and around it.

use vstd::prelude::*;
use vstd::string::*;

verus! {

/// The kinds of value a configuration document can hold.
#[derive(Debug, Clone, Copy, PartialEq, Eq, Structural)]
pub enum ValueKind {
    String,
    Integer,
    Float,
    Boolean,
    Datetime,
    Array,
    Table,
}

/// The operation during which the file system or a child process failed.
#[derive(Debug, Clone, Copy, PartialEq, Eq, Structural)]
pub enum IoOperation {
    /// The working directory could not be determined.
    CurrentDir,
    /// A path whose kind was asked for does not exist.
    Metadata,
    /// A file that was found could not be read as text.
    Read,
    /// A file could not be renamed.
    Rename,
    /// A formatted file could not be written back.
    Write,
    /// Feeding the child, or waiting for it, failed.
    Child,
}

/// Every failure is final: nothing is retried.
#[derive(Debug, Clone, Copy, PartialEq, Eq, Structural)]
pub enum XfmtError {
    /// The file system or a child process failed.
    Io(IoOperation),
    /// A path lacks the part that was asked for: so the start of a search
    /// that is no directory and has no parent.
    NotFound,
    /// No configuration file in any ancestor directory.
    ConfigNotFound,
    /// No manifest in any ancestor directory.
    ManifestNotFound,
    /// A file is not a TOML document.
    Parse,
    /// The configuration holds an array or a table at its top level.
    UnsupportedConfigValue(ValueKind),
    /// The manifest has no `package` table, or an `edition` that is no string.
    MalformedManifest,
    /// The configuration file's path has no parent.
    NoParentDirectory,
    /// The command could not be started.
    SpawnFailure,
}

impl ValueKind {
    /// The name of the kind, as messages give it.
    pub open spec fn name_text(self) -> Seq<char> {
        match self {
            ValueKind::String => "String"@,
            ValueKind::Integer => "Integer"@,
            ValueKind::Float => "Float"@,
            ValueKind::Boolean => "Boolean"@,
            ValueKind::Datetime => "Datetime"@,
            ValueKind::Array => "Array"@,
            ValueKind::Table => "Table"@,
        }
    }

    /// The name of the kind, as messages give it.
    pub fn name(&self) -> (r: &'static str)
        ensures
            r@ == self.name_text(),
    {
        match self {
            ValueKind::String => "String",
            ValueKind::Integer => "Integer",
            ValueKind::Float => "Float",
            ValueKind::Boolean => "Boolean",
            ValueKind::Datetime => "Datetime",
            ValueKind::Array => "Array",
            ValueKind::Table => "Table",
        }
    }
}

impl IoOperation {
    /// What failed, in words.
    pub open spec fn message_text(self) -> Seq<char> {
        match self {
            IoOperation::CurrentDir => "Unable to determine the working directory"@,
            IoOperation::Metadata => "Unable to find the path to start from"@,
            IoOperation::Read => "Unable to read a file as text"@,
            IoOperation::Rename => "Unable to rename the config file"@,
            IoOperation::Write => "Unable to write the formatted file"@,
            IoOperation::Child => "Unable to talk to the formatter"@,
        }
    }

    /// What failed, in words.
    pub fn message(&self) -> (r: &'static str)
        ensures
            r@ == self.message_text(),
    {
        match self {
            IoOperation::CurrentDir => "Unable to determine the working directory",
            IoOperation::Metadata => "Unable to find the path to start from",
            IoOperation::Read => "Unable to read a file as text",
            IoOperation::Rename => "Unable to rename the config file",
            IoOperation::Write => "Unable to write the formatted file",
            IoOperation::Child => "Unable to talk to the formatter",
        }
    }
}

impl XfmtError {
    /// The error in words, for the user.
    pub open spec fn message_text(self) -> Seq<char> {
        match self {
            XfmtError::Io(operation) => operation.message_text(),
            XfmtError::NotFound => "Unable to find parent"@,
            XfmtError::ConfigNotFound => "Unable to find rustfmt.toml"@,
            XfmtError::ManifestNotFound => "Unable to find Cargo.toml"@,
            XfmtError::Parse => "Unable to parse a file as TOML"@,
            XfmtError::UnsupportedConfigValue(kind) => "Unsupported config type: "@
                + kind.name_text(),
            XfmtError::MalformedManifest => "Cargo.toml missing 'package', or 'package.edition' is no string"@,
            XfmtError::NoParentDirectory => "Unable to find parent of config file"@,
            XfmtError::SpawnFailure => "Unable to start the formatter"@,
        }
    }

    /// The error in words, for the user.
    pub fn message(&self) -> (r: String)
        ensures
            r@ == self.message_text(),
    {
        match self {
            XfmtError::Io(operation) => operation.message().to_owned(),
            XfmtError::NotFound => "Unable to find parent".to_owned(),
            XfmtError::ConfigNotFound => "Unable to find rustfmt.toml".to_owned(),
            XfmtError::ManifestNotFound => "Unable to find Cargo.toml".to_owned(),
            XfmtError::Parse => "Unable to parse a file as TOML".to_owned(),
            XfmtError::UnsupportedConfigValue(kind) => {
                "Unsupported config type: ".to_owned().concat(kind.name())
            },
            XfmtError::MalformedManifest => "Cargo.toml missing 'package', or 'package.edition' is no string".to_owned(),
            XfmtError::NoParentDirectory => "Unable to find parent of config file".to_owned(),
            XfmtError::SpawnFailure => "Unable to start the formatter".to_owned(),
        }
    }
}

} // verus!

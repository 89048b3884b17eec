//! What the toolchain's metadata query reports, as plain data, and the
//! reading of its output.

use vstd::prelude::*;

verus! {

/// The mathematical value of a reported target.
pub struct TargetRecordModel {
    pub name: Seq<char>,
    pub src_path: Option<Seq<char>>,
    pub kinds: Seq<Seq<char>>,
}

/// The mathematical value of a reported package.
pub struct PackageRecordModel {
    pub id: Seq<char>,
    pub name: Seq<char>,
    pub version: Seq<char>,
    pub manifest_path: Seq<char>,
    pub targets: Seq<TargetRecordModel>,
}

/// The mathematical value of a report.
pub struct MetadataModel {
    pub packages: Seq<PackageRecordModel>,
    pub workspace_members: Seq<Seq<char>>,
}

/// A target as the toolchain reports it: its kind words as they came, and
/// its source path where one was resolved.
#[derive(Debug, Clone, PartialEq, Eq)]
pub struct TargetRecord {
    pub name: String,
    pub src_path: Option<String>,
    pub kinds: Vec<String>,
}

/// A package as the toolchain reports it.
#[derive(Debug, Clone, PartialEq, Eq)]
pub struct PackageRecord {
    pub id: String,
    pub name: String,
    pub version: String,
    pub manifest_path: String,
    pub targets: Vec<TargetRecord>,
}

/// A whole report: every package that the toolchain saw, the workspace's
/// own and those it depends on, and the identifiers of the workspace's own.
#[derive(Debug, Clone, PartialEq, Eq)]
pub struct MetadataRecord {
    pub packages: Vec<PackageRecord>,
    pub workspace_members: Vec<String>,
}

/// The values of a list of strings, in order.
pub open spec fn texts(words: Seq<String>) -> Seq<Seq<char>> {
    words.map_values(|w: String| w@)
}

/// The value of a string that may be absent.
pub open spec fn optional_text(text: Option<String>) -> Option<Seq<char>> {
    match text {
        Some(t) => Some(t@),
        None => None,
    }
}

impl View for TargetRecord {
    type V = TargetRecordModel;

    open spec fn view(&self) -> TargetRecordModel {
        TargetRecordModel {
            name: self.name@,
            src_path: optional_text(self.src_path),
            kinds: texts(self.kinds@),
        }
    }
}

/// The values of a list of reported targets, in order.
pub open spec fn target_record_models(targets: Seq<TargetRecord>) -> Seq<TargetRecordModel> {
    targets.map_values(|t: TargetRecord| t@)
}

impl View for PackageRecord {
    type V = PackageRecordModel;

    open spec fn view(&self) -> PackageRecordModel {
        PackageRecordModel {
            id: self.id@,
            name: self.name@,
            version: self.version@,
            manifest_path: self.manifest_path@,
            targets: target_record_models(self.targets@),
        }
    }
}

/// The values of a list of reported packages, in order.
pub open spec fn package_record_models(packages: Seq<PackageRecord>) -> Seq<PackageRecordModel> {
    packages.map_values(|p: PackageRecord| p@)
}

impl View for MetadataRecord {
    type V = MetadataModel;

    open spec fn view(&self) -> MetadataModel {
        MetadataModel {
            packages: package_record_models(self.packages@),
            workspace_members: texts(self.workspace_members@),
        }
    }
}

/// The value of a reading: the report, or the reason why there is none.
pub open spec fn reading_model(reading: Result<MetadataRecord, String>) -> Result<
    MetadataModel,
    Seq<char>,
> {
    match reading {
        Ok(report) => Ok(report@),
        Err(reason) => Err(reason@),
    }
}

/// What `cargo_metadata::MetadataCommand::parse` makes of a text: the
/// report it deserializes, or the message of its error.
pub uninterp spec fn parsed_metadata(text: Seq<char>) -> Result<MetadataModel, Seq<char>>;

/// Reads the output of the toolchain's metadata query with
/// `cargo_metadata::MetadataCommand::parse`, and hands the parsed report on
/// field by field, or the error as its message. Believed, not proved: that
/// the outcome depends on the text alone, which is what gives it the name
/// `parsed_metadata`.
#[verifier::external_body]
pub(crate) fn parse_metadata(text: &str) -> (reading: Result<MetadataRecord, String>)
    ensures
        reading_model(reading) == parsed_metadata(text@),
{
    match cargo_metadata::MetadataCommand::parse(text) {
        Ok(m) => Ok(MetadataRecord {
            workspace_members: m.workspace_members.into_iter().map(|id| id.repr).collect(),
            packages: m.packages.into_iter().map(|p| PackageRecord {
                id: p.id.repr, name: p.name, version: p.version.to_string(),
                manifest_path: p.manifest_path.into_string(),
                targets: p.targets.into_iter().map(|t| TargetRecord {
                    name: t.name, src_path: Some(t.src_path.into_string()), kinds: t.kind,
                }).collect(),
            }).collect(),
        }),
        Err(e) => Err(e.to_string()),
    }
}

} // verus!

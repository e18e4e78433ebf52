//! The application metadata record: name, author, optional description and
//! semantic version, with read accessors, fluent updates that each replace
//! exactly one field, and an exact multi-line rendering.

use crate::version::{version_text, with_build, with_major, with_minor, with_patch, with_pre};
use crate::version::{BuildMetadata, Prerelease, Version, VersionView};
use vstd::prelude::*;
use vstd::string::StringExecFns;

verus! {

/// The mathematical model of a metadata record.
pub ghost struct AppMetadataView {
    pub name: Seq<char>,
    pub author: Seq<char>,
    pub description: Option<Seq<char>>,
    pub version: VersionView,
}

/// The read-only metadata associated with an instance of the app.
///
/// Every update consumes the record and returns a new one, so a value handed
/// to a reader is never mutated behind its back. The description is optional;
/// the `description` accessor and `format` demand that one was set.
pub struct AppMetadata {
    name: String,
    author: String,
    description: Option<String>,
    version: Version,
}

impl View for AppMetadata {
    type V = AppMetadataView;

    closed spec fn view(&self) -> AppMetadataView {
        AppMetadataView {
            name: self.name@,
            author: self.author@,
            description: match self.description {
                Some(d) => Some(d@),
                None => None,
            },
            version: self.version@,
        }
    }
}

/// The version every record starts from: `0.1.0`.
pub open spec fn initial_version() -> VersionView {
    VersionView {
        major: 0,
        minor: 1,
        patch: 0,
        pre: Seq::<char>::empty(),
        build: Seq::<char>::empty(),
    }
}

/// The exact rendering of a record: the fixed template with the four fields
/// substituted verbatim, the version in its standard textual form and the
/// description wrapped in double quotes.
pub open spec fn metadata_text(m: AppMetadataView) -> Seq<char>
    recommends
        m.description is Some,
{
    "App Metadata: {\n    Name: "@ + m.name + ",\n    Author: "@ + m.author + ",\n    Version: "@
        + version_text(m.version) + ",\n    Description: \""@ + m.description->0 + "\"\n}"@
}

impl Default for AppMetadata {
    /// The placeholder record: an unnamed app by a placeholder author, no
    /// description, version `0.1.0`.
    fn default() -> (r: Self)
        ensures
            r@.name == "Un-Named App"@,
            r@.author == "Jane Doe"@,
            r@.description is None,
            r@.version == initial_version(),
    {
        AppMetadata {
            name: String::from_str("Un-Named App"),
            author: String::from_str("Jane Doe"),
            description: None,
            version: Version::new(0, 1, 0),
        }
    }
}

impl AppMetadata {
    /// A record with the given name and author, no description, and version
    /// `0.1.0`.
    pub fn new(name: &str, author: &str) -> (r: Self)
        ensures
            r@.name == name@,
            r@.author == author@,
            r@.description is None,
            r@.version == initial_version(),
    {
        AppMetadata {
            name: String::from_str(name),
            author: String::from_str(author),
            description: None,
            version: Version::new(0, 1, 0),
        }
    }

    /// A fully specified record; every field, the description included, is
    /// supplied at once.
    pub fn from_parts(name: &str, author: &str, version: Version, description: &str) -> (r: Self)
        ensures
            r@.name == name@,
            r@.author == author@,
            r@.description == Some(description@),
            r@.version == version@,
    {
        AppMetadata {
            name: String::from_str(name),
            author: String::from_str(author),
            description: Some(String::from_str(description)),
            version,
        }
    }

    /// The name of the app instance.
    pub fn name(&self) -> (r: &str)
        ensures
            r@ == self@.name,
    {
        self.name.as_str()
    }

    /// The app's author.
    pub fn author(&self) -> (r: &str)
        ensures
            r@ == self@.author,
    {
        self.author.as_str()
    }

    /// The description. Callers must know that one was set: reading an
    /// absent description is a contract violation, not an empty string.
    pub fn description(&self) -> (r: &str)
        requires
            self@.description is Some,
        ensures
            r@ == self@.description->0,
    {
        self.description.as_ref().unwrap().as_str()
    }

    /// The description, or `None` when none was set.
    pub fn try_description(&self) -> (r: Option<&str>)
        ensures
            r is Some <==> self@.description is Some,
            r is Some ==> (r->0)@ == self@.description->0,
    {
        match &self.description {
            Some(d) => Some(d.as_str()),
            None => None,
        }
    }

    /// The version.
    pub fn version(&self) -> (r: &Version)
        ensures
            r@ == self@.version,
    {
        &self.version
    }

    /// The record with its description set; all other fields are carried
    /// over unchanged.
    pub fn set_description(self, description: &str) -> (r: Self)
        ensures
            r@ == (AppMetadataView { description: Some(description@), ..self@ }),
    {
        AppMetadata { description: Some(String::from_str(description)), ..self }
    }

    /// The record with its version replaced; all other fields are carried
    /// over unchanged.
    pub fn set_version(self, version: Version) -> (r: Self)
        ensures
            r@ == (AppMetadataView { version: version@, ..self@ }),
    {
        AppMetadata { version, ..self }
    }

    /// The record with its version's major number replaced; all other fields
    /// are carried over unchanged.
    pub fn set_version_major(self, major: u64) -> (r: Self)
        ensures
            r@ == (AppMetadataView { version: with_major(self@.version, major as nat), ..self@ }),
    {
        let mut version = self.version;
        version.major = major;
        AppMetadata { version, ..self }
    }

    /// The record with its version's minor number replaced; all other fields
    /// are carried over unchanged.
    pub fn set_version_minor(self, minor: u64) -> (r: Self)
        ensures
            r@ == (AppMetadataView { version: with_minor(self@.version, minor as nat), ..self@ }),
    {
        let mut version = self.version;
        version.minor = minor;
        AppMetadata { version, ..self }
    }

    /// The record with its version's patch number replaced; all other fields
    /// are carried over unchanged.
    pub fn set_version_patch(self, patch: u64) -> (r: Self)
        ensures
            r@ == (AppMetadataView { version: with_patch(self@.version, patch as nat), ..self@ }),
    {
        let mut version = self.version;
        version.patch = patch;
        AppMetadata { version, ..self }
    }

    /// The record with its version's pre-release label replaced; all other
    /// fields are carried over unchanged.
    pub fn set_version_pre(self, pre: Prerelease) -> (r: Self)
        ensures
            r@ == (AppMetadataView { version: with_pre(self@.version, pre@), ..self@ }),
    {
        let mut version = self.version;
        version.pre = pre;
        AppMetadata { version, ..self }
    }

    /// The record with its version's build-metadata label replaced; all
    /// other fields are carried over unchanged.
    pub fn set_version_build(self, build: BuildMetadata) -> (r: Self)
        ensures
            r@ == (AppMetadataView { version: with_build(self@.version, build@), ..self@ }),
    {
        let mut version = self.version;
        version.build = build;
        AppMetadata { version, ..self }
    }

    /// Renders the record as the fixed multi-line block, exactly as
    /// `metadata_text` states it. Like the `description` accessor, this
    /// demands that a description was set.
    pub fn format(&self) -> (r: String)
        requires
            self@.description is Some,
        ensures
            r@ == metadata_text(self@),
    {
        let mut s = String::new();
        s.append("App Metadata: {\n    Name: ");
        s.append(self.name.as_str());
        s.append(",\n    Author: ");
        s.append(self.author.as_str());
        s.append(",\n    Version: ");
        let version = self.version.to_text();
        s.append(version.as_str());
        s.append(",\n    Description: \"");
        s.append(self.description.as_ref().unwrap().as_str());
        s.append("\"\n}");
        proof {
            assert(s@ =~= metadata_text(self@));
        }
        s
    }
}

} // verus!

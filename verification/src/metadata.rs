//! The description of the latest release, and the check that turns a response
//! of the versions endpoint into one.

use crate::platform::Platform;
use vstd::prelude::*;

verus! {

/// One download URL per platform.
#[derive(Clone, Debug, PartialEq, Eq)]
pub struct Downloads {
    pub windows: String,
    pub linux: String,
    pub macos: String,
}

/// One artifact size in bytes per platform.
#[derive(Clone, Copy, Debug, PartialEq, Eq, Structural)]
pub struct Sizes {
    pub windows: u64,
    pub linux: u64,
    pub macos: u64,
}

/// What the versions endpoint says of the latest release. A value lives for
/// one run and is never stored.
#[derive(Clone, Debug, PartialEq, Eq)]
pub struct VersionMetadata {
    pub version: String,
    pub name: String,
    pub changelog: String,
    pub download: Downloads,
    pub sizes: Sizes,
}

/// The download URLs as contracts see them: sequences of characters.
pub struct DownloadsView {
    pub windows: Seq<char>,
    pub linux: Seq<char>,
    pub macos: Seq<char>,
}

/// A release description as contracts see it.
pub struct VersionMetadataView {
    pub version: Seq<char>,
    pub name: Seq<char>,
    pub changelog: Seq<char>,
    pub download: DownloadsView,
    pub sizes: Sizes,
}

impl DownloadsView {
    /// The URL published for `platform`.
    pub open spec fn for_platform(self, platform: Platform) -> Seq<char> {
        match platform {
            Platform::Windows => self.windows,
            Platform::Linux => self.linux,
            Platform::Macos => self.macos,
        }
    }
}

impl Sizes {
    /// The size announced for `platform`.
    pub open spec fn for_platform(self, platform: Platform) -> u64 {
        match platform {
            Platform::Windows => self.windows,
            Platform::Linux => self.linux,
            Platform::Macos => self.macos,
        }
    }
}

impl View for Downloads {
    type V = DownloadsView;

    open spec fn view(&self) -> DownloadsView {
        DownloadsView { windows: self.windows@, linux: self.linux@, macos: self.macos@ }
    }
}

impl View for VersionMetadata {
    type V = VersionMetadataView;

    open spec fn view(&self) -> VersionMetadataView {
        VersionMetadataView {
            version: self.version@,
            name: self.name@,
            changelog: self.changelog@,
            download: self.download@,
            sizes: self.sizes,
        }
    }
}

impl VersionMetadata {
    /// The download URL published for `platform`.
    pub fn download_url(&self, platform: Platform) -> (url: &String)
        ensures
            url@ == self@.download.for_platform(platform),
    {
        match platform {
            Platform::Windows => &self.download.windows,
            Platform::Linux => &self.download.linux,
            Platform::Macos => &self.download.macos,
        }
    }

    /// The size in bytes announced for the artifact of `platform`.
    pub fn expected_size(&self, platform: Platform) -> (size: u64)
        ensures
            size == self@.sizes.for_platform(platform),
    {
        match platform {
            Platform::Windows => self.sizes.windows,
            Platform::Linux => self.sizes.linux,
            Platform::Macos => self.sizes.macos,
        }
    }
}

/// The fields a response of the versions endpoint must hold, in the order in
/// which they are looked for.
#[derive(Clone, Copy, Debug, PartialEq, Eq, Structural)]
pub enum SchemaField {
    Version,
    Name,
    Changelog,
    Download,
    DownloadWindows,
    DownloadLinux,
    DownloadMacos,
    Sizes,
    SizesWindows,
    SizesLinux,
    SizesMacos,
}

/// Why no release description could be had.
#[derive(Clone, Copy, Debug, PartialEq, Eq, Structural)]
pub enum FetchError {
    /// The request did not complete: connection refused, timeout, name
    /// resolution.
    Network,
    /// The body is not a document of the expected shape: not JSON, or a field
    /// of the wrong type.
    Malformed,
    /// The body lacks a required field.
    MissingField(SchemaField),
}

/// The `download` object of a response as it was received: a field is `None`
/// where the document does not hold it.
#[derive(Clone, Debug, PartialEq, Eq)]
pub struct RawDownloads {
    pub windows: Option<String>,
    pub linux: Option<String>,
    pub macos: Option<String>,
}

/// The `sizes` object of a response as it was received.
#[derive(Clone, Copy, Debug, PartialEq, Eq)]
pub struct RawSizes {
    pub windows: Option<u64>,
    pub linux: Option<u64>,
    pub macos: Option<u64>,
}

/// A response of the versions endpoint as it was received, before the check
/// that every required field is there.
#[derive(Clone, Debug, PartialEq, Eq)]
pub struct RawVersionResponse {
    pub version: Option<String>,
    pub name: Option<String>,
    pub changelog: Option<String>,
    pub download: Option<RawDownloads>,
    pub sizes: Option<RawSizes>,
}

impl RawDownloads {
    /// The first platform, in the order windows, linux, macos, whose URL
    /// is missing.
    pub open spec fn first_missing(self) -> Option<SchemaField> {
        if self.windows is None {
            Some(SchemaField::DownloadWindows)
        } else if self.linux is None {
            Some(SchemaField::DownloadLinux)
        } else if self.macos is None {
            Some(SchemaField::DownloadMacos)
        } else {
            None
        }
    }

    /// The URLs of an object that holds all three.
    pub open spec fn complete_view(self) -> DownloadsView {
        DownloadsView {
            windows: self.windows->0@,
            linux: self.linux->0@,
            macos: self.macos->0@,
        }
    }
}

impl RawSizes {
    /// The first platform, in the order windows, linux, macos, whose size
    /// is missing.
    pub open spec fn first_missing(self) -> Option<SchemaField> {
        if self.windows is None {
            Some(SchemaField::SizesWindows)
        } else if self.linux is None {
            Some(SchemaField::SizesLinux)
        } else if self.macos is None {
            Some(SchemaField::SizesMacos)
        } else {
            None
        }
    }

    /// The sizes of an object that holds all three.
    pub open spec fn complete(self) -> Sizes {
        Sizes { windows: self.windows->0, linux: self.linux->0, macos: self.macos->0 }
    }
}

impl RawVersionResponse {
    /// The first required field that the response lacks, `None` when it
    /// holds all eleven: the three texts, the two objects and their six
    /// leaves.
    pub open spec fn first_missing(self) -> Option<SchemaField> {
        if self.version is None {
            Some(SchemaField::Version)
        } else if self.name is None {
            Some(SchemaField::Name)
        } else if self.changelog is None {
            Some(SchemaField::Changelog)
        } else if self.download is None {
            Some(SchemaField::Download)
        } else if self.download->0.first_missing() is Some {
            self.download->0.first_missing()
        } else if self.sizes is None {
            Some(SchemaField::Sizes)
        } else {
            self.sizes->0.first_missing()
        }
    }

    /// The release that a response with no field missing describes.
    pub open spec fn complete_view(self) -> VersionMetadataView {
        VersionMetadataView {
            version: self.version->0@,
            name: self.name->0@,
            changelog: self.changelog->0@,
            download: self.download->0.complete_view(),
            sizes: self.sizes->0.complete(),
        }
    }

    /// What the check of a response answers: the release it describes, or
    /// the first field it lacks.
    pub open spec fn checked(self) -> Result<VersionMetadataView, FetchError> {
        match self.first_missing() {
            None => Ok(self.complete_view()),
            Some(field) => Err(FetchError::MissingField(field)),
        }
    }
}

impl RawDownloads {
    fn into_downloads(self) -> (checked: Result<Downloads, SchemaField>)
        ensures
            match checked {
                Ok(downloads) => self.first_missing() is None && downloads@
                    == self.complete_view(),
                Err(field) => self.first_missing() == Some(field),
            },
    {
        let windows = match self.windows {
            Some(url) => url,
            None => { return Err(SchemaField::DownloadWindows); },
        };
        let linux = match self.linux {
            Some(url) => url,
            None => { return Err(SchemaField::DownloadLinux); },
        };
        let macos = match self.macos {
            Some(url) => url,
            None => { return Err(SchemaField::DownloadMacos); },
        };
        Ok(Downloads { windows, linux, macos })
    }
}

impl RawSizes {
    fn into_sizes(self) -> (checked: Result<Sizes, SchemaField>)
        ensures
            match checked {
                Ok(sizes) => self.first_missing() is None && sizes == self.complete(),
                Err(field) => self.first_missing() == Some(field),
            },
    {
        let windows = match self.windows {
            Some(size) => size,
            None => { return Err(SchemaField::SizesWindows); },
        };
        let linux = match self.linux {
            Some(size) => size,
            None => { return Err(SchemaField::SizesLinux); },
        };
        let macos = match self.macos {
            Some(size) => size,
            None => { return Err(SchemaField::SizesMacos); },
        };
        Ok(Sizes { windows, linux, macos })
    }
}

impl VersionMetadata {
    /// Checks a received response against the schema. A response that holds
    /// every required field becomes the release it describes, field for
    /// field; one that lacks any is rejected with the first field missing,
    /// and nothing of it is kept.
    pub fn from_raw(raw: RawVersionResponse) -> (checked: Result<VersionMetadata, FetchError>)
        ensures
            match checked {
                Ok(metadata) => raw.checked() == Ok::<VersionMetadataView, FetchError>(metadata@),
                Err(error) => raw.checked() == Err::<VersionMetadataView, FetchError>(error),
            },
    {
        let version = match raw.version {
            Some(text) => text,
            None => { return Err(FetchError::MissingField(SchemaField::Version)); },
        };
        let name = match raw.name {
            Some(text) => text,
            None => { return Err(FetchError::MissingField(SchemaField::Name)); },
        };
        let changelog = match raw.changelog {
            Some(text) => text,
            None => { return Err(FetchError::MissingField(SchemaField::Changelog)); },
        };
        let download = match raw.download {
            Some(object) => match object.into_downloads() {
                Ok(downloads) => downloads,
                Err(field) => { return Err(FetchError::MissingField(field)); },
            },
            None => { return Err(FetchError::MissingField(SchemaField::Download)); },
        };
        let sizes = match raw.sizes {
            Some(object) => match object.into_sizes() {
                Ok(sizes) => sizes,
                Err(field) => { return Err(FetchError::MissingField(field)); },
            },
            None => { return Err(FetchError::MissingField(SchemaField::Sizes)); },
        };
        Ok(VersionMetadata { version, name, changelog, download, sizes })
    }
}

} // verus!

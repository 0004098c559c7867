//! What the build step embeds in the binary.

use vstd::prelude::*;

verus! {

/// The strings that a build may embed. Each one is present or absent, and
/// none changes while the process runs. The last two hold JSON text: a map
/// from release channels to lists of installer identifiers, and a map from
/// release channels to download addresses.
#[derive(Clone, Copy, Debug, PartialEq, Eq)]
pub struct BuildMetadata {
    pub version: Option<&'static str>,
    pub commit: Option<&'static str>,
    pub ai_key: Option<&'static str>,
    pub ai_endpoint: Option<&'static str>,
    pub quality: Option<&'static str>,
    pub update_endpoint: Option<&'static str>,
    pub application_name: Option<&'static str>,
    pub product_name_long: Option<&'static str>,
    pub win32_app_ids: Option<&'static str>,
    pub quality_download_uris: Option<&'static str>,
}

/// The text, or the default that stands in for an absent one.
pub open spec fn text_or(text: Option<Seq<char>>, default: Seq<char>) -> Seq<char> {
    match text {
        Some(t) => t,
        None => default,
    }
}

/// The version of a build: the embedded one, or `dev`.
pub open spec fn version_of(embedded: Option<Seq<char>>) -> Seq<char> {
    text_or(embedded, "dev"@)
}

/// The long product name of a build: the embedded one, or `Code - OSS`.
pub open spec fn product_name_long_of(embedded: Option<Seq<char>>) -> Seq<char> {
    text_or(embedded, "Code - OSS"@)
}

/// The application name of a build: the embedded one, or `code`.
pub open spec fn application_name_of(embedded: Option<Seq<char>>) -> Seq<char> {
    text_or(embedded, "code"@)
}

impl BuildMetadata {
    /// The metadata of a build that embeds nothing.
    pub fn absent() -> (build: Self)
        ensures
            build == (BuildMetadata {
                version: None,
                commit: None,
                ai_key: None,
                ai_endpoint: None,
                quality: None,
                update_endpoint: None,
                application_name: None,
                product_name_long: None,
                win32_app_ids: None,
                quality_download_uris: None,
            }),
    {
        BuildMetadata {
            version: None,
            commit: None,
            ai_key: None,
            ai_endpoint: None,
            quality: None,
            update_endpoint: None,
            application_name: None,
            product_name_long: None,
            win32_app_ids: None,
            quality_download_uris: None,
        }
    }

    /// The version, with its default.
    pub fn version(&self) -> (version: &'static str)
        ensures
            version@ == version_of(self.version.deep_view()),
    {
        match self.version {
            Some(version) => version,
            None => "dev",
        }
    }

    /// The long product name, with its default.
    pub fn product_name_long(&self) -> (name: &'static str)
        ensures
            name@ == product_name_long_of(self.product_name_long.deep_view()),
    {
        match self.product_name_long {
            Some(name) => name,
            None => "Code - OSS",
        }
    }

    /// The application name, with its default.
    pub fn application_name(&self) -> (name: &'static str)
        ensures
            name@ == application_name_of(self.application_name.deep_view()),
    {
        match self.application_name {
            Some(name) => name,
            None => "code",
        }
    }
}

} // verus!

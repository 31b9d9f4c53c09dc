//! Per-package metadata documents: descriptive fields and build recipes.

use vstd::prelude::*;

verus! {

/// The metadata document of one package. Every field may be absent.
#[allow(non_snake_case)]
#[derive(Clone, Debug, PartialEq, Eq)]
pub struct AppMetadata {
    pub Categories: Option<Vec<Categories>>,
    pub AuthorName: Option<String>,
    pub AuthorEmail: Option<String>,
    pub AuthorWebSite: Option<String>,
    pub License: Option<String>,
    pub AutoName: Option<String>,
    pub Name: Option<String>,
    pub WebSite: Option<String>,
    pub SourceCode: Option<String>,
    pub IssueTracker: Option<String>,
    pub Translation: Option<String>,
    pub Changelog: Option<String>,
    pub Donate: Option<String>,
    pub FlattrID: Option<String>,
    pub Liberapay: Option<String>,
    pub OpenCollective: Option<String>,
    pub Bitcoin: Option<String>,
    pub Litecoin: Option<String>,
    pub Summary: Option<String>,
    pub Description: Option<String>,
    pub MaintainerNotes: Option<String>,
    pub RepoType: Option<RepoType>,
    pub Repo: Option<String>,
    pub Binaries: Option<String>,
    pub Builds: Option<Builds>,
    pub AllowedAPKSigningKeys: Option<String>,
    pub AntiFeatures: Option<AntiFeatures>,
    pub Disabled: Option<String>,
    pub RequiresRoot: Option<bool>,
    pub ArchivePolicy: Option<u32>,
    pub UpdateCheckMode: Option<UpdateCheckMode>,
    pub UpdateCheckIgnore: Option<String>,
    pub VercodeOperation: Option<String>,
    pub UpdateCheckName: Option<String>,
    pub UpdateCheckData: Option<String>,
    pub AutoUpdateMode: Option<AutoUpdateMode>,
    pub CurrentVersion: Option<String>,
    pub CurrentVersionCode: Option<String>,
    pub NoSourceSince: Option<String>,
}

/// One build recipe of a package.
#[allow(non_snake_case)]
#[derive(Clone, Debug, PartialEq, Eq)]
pub struct Builds {
    pub versionName: Option<String>,
    pub versionCode: Option<String>,
    pub commit: Option<String>,
    pub disable: Option<String>,
    pub subdir: Option<String>,
    pub submodules: Option<bool>,
    pub sudo: Option<String>,
    pub timeout: Option<u64>,
    pub init: Option<String>,
    pub oldsdkloc: Option<bool>,
    pub target: Option<String>,
    pub androidupdate: Option<AndroidUpdate>,
    pub encoding: Option<String>,
    pub forceversion: Option<bool>,
    pub forcevercode: Option<bool>,
    pub rm: Option<Vec<String>>,
    pub extlibs: Option<Vec<String>>,
    pub srclibs: Option<Vec<String>>,
    pub patch: Option<String>,
    pub prebuild: Option<String>,
    pub scanignore: Option<Vec<String>>,
    pub scandelete: Option<Vec<String>>,
    pub build: Option<String>,
    pub buildjni: Option<String>,
    pub ndk: Option<String>,
    pub gradle: Option<Vec<String>>,
    pub maven: Option<String>,
    pub preassemble: Option<Vec<String>>,
    pub gradleprops: Option<Vec<String>>,
    pub antcommands: Option<Vec<String>>,
    pub output: Option<String>,
    pub postbuild: Option<String>,
    pub novcheck: Option<bool>,
    pub antifeatures: Option<Vec<AntiFeatures>>,
}

/// A category of an app; `Custom` holds any other name.
#[derive(Clone, Debug, PartialEq, Eq)]
pub enum Categories {
    Connectivity,
    Development,
    Games,
    Graphics,
    Internet,
    Money,
    Multimedia,
    Navigation,
    PhoneSms,
    Reading,
    ScienceEducation,
    Security,
    SportsHealth,
    System,
    Theming,
    Time,
    Writing,
    Custom(String),
}

/// The version control system of an app's source.
#[derive(Clone, Debug, PartialEq, Eq)]
pub enum RepoType {
    Git,
    Svn,
    GitSvn,
    Hg,
    Bzr,
    Srclib,
}

/// A property of an app that users may want to avoid.
#[derive(Clone, Debug, PartialEq, Eq)]
pub enum AntiFeatures {
    Ads,
    Tracking,
    NonFreeNet,
    NonFreeAdd,
    NonFreeDep,
    Nsfw,
    UpstreamNonFree,
    NonFreeAssets,
    KnownVuln,
    ApplicationDebuggable,
    NoSourceSince,
}

/// How new versions of an app are detected.
#[derive(Clone, Debug, PartialEq, Eq)]
pub enum UpdateCheckMode {
    Off,
    Static,
    RepoManifest,
    RepoTrunk,
    Tags,
    Http,
}

/// Whether detected versions are added automatically.
#[derive(Clone, Debug, PartialEq, Eq)]
pub enum AutoUpdateMode {
    Off,
    Version,
}

/// Which project directories the build updates.
#[derive(Clone, Debug, PartialEq, Eq)]
pub enum AndroidUpdate {
    Auto,
    Dirs(Vec<String>),
}

} // verus!

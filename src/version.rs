use vstd::prelude::*;

use crate::bindings::{captures, lower_of, lowercase, regex_captures};
use crate::config::FileDownloadResult;

verus! {

/// A snapshot name such as `24w08a`.
pub const SNAPSHOT_PATTERN: &'static str = r"^\d{2}w\d{2}[a-z]$";

/// A Java release such as `1.21` or `1.21.1`.
pub const RELEASE_PATTERN: &'static str = r"^\d+\.\d+(\.\d+)?$";

/// An early alpha or beta such as `b1.7.3`.
pub const ALPHA_BETA_PATTERN: &'static str = r"^[ab]\d+\.\d+(\.\d+)?$";

/// A Bedrock version: three or four numbers, such as `1.20.70.21`.
pub const BDS_PATTERN: &'static str = r"^\d+\.\d+\.\d+(\.\d+)?$";

/// The version manifest's type of early beta versions.
pub const OLD_BETA_KIND: &'static str = "old_beta";

/// The version manifest's type of early alpha versions.
pub const OLD_ALPHA_KIND: &'static str = "old_alpha";

pub const PAPER_PROJECT_API: &'static str = "https://api.papermc.io/v2/projects/paper";

pub const FOLIA_PROJECT_API: &'static str = "https://api.papermc.io/v2/projects/folia";

pub const LEAVES_PROJECT_API: &'static str = "https://api.leavesmc.org/v2/projects/leaves";

pub const PURPUR_PROJECT_API: &'static str = "https://api.purpurmc.org/v2/purpur/";

/// The kinds of server that can be installed.
#[derive(Clone, Copy, PartialEq, Eq, Structural, Debug)]
pub enum ServerType {
    /// The official Java Edition server.
    Vanilla,
    /// The official Bedrock Edition server.
    BDS,
    Paper,
    Folia,
    Leaves,
    Purpur,
    /// A server of any other kind: no updates, no plugin management.
    Other,
}

/// The kinds of version.
#[derive(Clone, Copy, PartialEq, Eq, Structural, Debug)]
pub enum VersionType {
    Release,
    Snapshot,
    OldBeta,
    OldAlpha,
    Unknown,
}

/// Why a version could not be resolved.
#[derive(Clone, Copy, PartialEq, Eq, Structural, Debug)]
pub enum VersionError {
    /// Not a Bedrock version (expected X.Y.Z or X.Y.Z.B).
    InvalidBdsFormat,
    /// Not a Java version (expected X.Y.Z or YYwWWa).
    InvalidJavaFormat,
    /// The latest version of an unknown kind was asked for.
    UnknownType,
    /// The manifest lists no version of the kind asked for.
    NoVersionOfType,
    /// The manifest lists no version of the name asked for.
    VersionNotFound,
}

/// A version: its name, its kind, and the kind of server it is for.
pub struct VersionInfo {
    pub name: String,
    pub version_type: VersionType,
    pub server_type: ServerType,
}

/// The newest release and snapshot that a version manifest names.
pub struct LatestVersions {
    pub release: String,
    pub snapshot: String,
}

/// One entry of a version manifest.
pub struct ManifestVersion {
    pub id: String,
    /// The entry's type, as the manifest spells it (`release`, `old_beta`, ...).
    pub version_type_str: String,
    pub url: String,
}

/// A version manifest: the latest versions and every version, newest first.
pub struct VersionManifest {
    pub latest: LatestVersions,
    pub versions: Vec<ManifestVersion>,
}

/// Whether `pattern` matches `text`.
pub open spec fn matches_pattern(pattern: Seq<char>, text: Seq<char>) -> bool {
    regex_captures(pattern, text).is_some()
}

/// The kind of a Java version name, or `None` when it has no Java form.
pub open spec fn java_format(name: Seq<char>) -> Option<VersionType> {
    if matches_pattern(SNAPSHOT_PATTERN@, name) {
        Some(VersionType::Snapshot)
    } else if matches_pattern(RELEASE_PATTERN@, name) {
        Some(VersionType::Release)
    } else if matches_pattern(ALPHA_BETA_PATTERN@, name) {
        Some(VersionType::OldBeta)
    } else if lower_of(name).len() > 0 && lower_of(name)[0] == 'a' {
        Some(VersionType::OldAlpha)
    } else {
        None
    }
}

/// The kind of a Bedrock version name, or `None` when it has no Bedrock form.
pub open spec fn bds_format(name: Seq<char>) -> Option<VersionType> {
    if matches_pattern(BDS_PATTERN@, name) {
        Some(VersionType::Release)
    } else {
        None
    }
}

/// The best guess at a version's kind: its Java kind, else its Bedrock
/// kind, else unknown.
pub open spec fn guessed_type(name: Seq<char>) -> VersionType {
    match java_format(name) {
        Some(t) => t,
        None => match bds_format(name) {
            Some(t) => t,
            None => VersionType::Unknown,
        },
    }
}

/// The index of the first entry whose `id` is `name`, if any.
pub open spec fn is_first_with_id(versions: Seq<ManifestVersion>, name: Seq<char>, i: int) -> bool {
    &&& 0 <= i < versions.len()
    &&& versions[i].id@ == name
    &&& forall|j: int| 0 <= j < i ==> versions[j].id@ != name
}

/// The index of the first entry of type `kind`, if any.
pub open spec fn is_first_of_kind(versions: Seq<ManifestVersion>, kind: Seq<char>, i: int) -> bool {
    &&& 0 <= i < versions.len()
    &&& versions[i].version_type_str@ == kind
    &&& forall|j: int| 0 <= j < i ==> versions[j].version_type_str@ != kind
}

fn matches(pattern: &str, text: &str) -> (r: bool)
    ensures
        r == matches_pattern(pattern@, text@),
{
    captures(pattern, text).is_some()
}

fn copy_string(s: &String) -> (r: String)
    ensures
        r@ == s@,
{
    s.clone()
}

impl VersionInfo {
    pub fn new(name: String, version_type: VersionType, server_type: ServerType) -> (r: Self)
        ensures
            r.name@ == name@,
            r.version_type == version_type,
            r.server_type == server_type,
    {
        VersionInfo { name, version_type, server_type }
    }

    /// Checks a Java version name and gives its kind.
    pub fn validate_java_format(version_name: &str) -> (r: Result<VersionType, VersionError>)
        ensures
            match java_format(version_name@) {
                Some(t) => r == Ok::<VersionType, VersionError>(t),
                None => r == Err::<VersionType, VersionError>(VersionError::InvalidJavaFormat),
            },
    {
        if matches(SNAPSHOT_PATTERN, version_name) {
            Ok(VersionType::Snapshot)
        } else if matches(RELEASE_PATTERN, version_name) {
            Ok(VersionType::Release)
        } else if matches(ALPHA_BETA_PATTERN, version_name) {
            Ok(VersionType::OldBeta)
        } else {
            let lower = lowercase(version_name);
            if lower.as_str().unicode_len() > 0 && lower.as_str().get_char(0) == 'a' {
                Ok(VersionType::OldAlpha)
            } else {
                Err(VersionError::InvalidJavaFormat)
            }
        }
    }

    /// Checks a Bedrock version name (X.Y.Z or X.Y.Z.B); a valid one is a
    /// release.
    pub fn validate_bds_format(version_name: &str) -> (r: Result<VersionType, VersionError>)
        ensures
            match bds_format(version_name@) {
                Some(t) => r == Ok::<VersionType, VersionError>(t),
                None => r == Err::<VersionType, VersionError>(VersionError::InvalidBdsFormat),
            },
    {
        if matches(BDS_PATTERN, version_name) {
            Ok(VersionType::Release)
        } else {
            Err(VersionError::InvalidBdsFormat)
        }
    }

    /// Guesses the kind of a version name without failing.
    pub fn guess_version_type(version_name: &str) -> (r: VersionType)
        ensures
            r == guessed_type(version_name@),
    {
        match VersionInfo::validate_java_format(version_name) {
            Ok(t) => t,
            Err(_) => match VersionInfo::validate_bds_format(version_name) {
                Ok(t) => t,
                Err(_) => VersionType::Unknown,
            },
        }
    }

    /// Resolves a version name for a server type; the name and the server
    /// type are kept as given. A Java-based server needs a Java form; its
    /// kind counts only when the version manifest could be fetched
    /// (`manifest_fetched`), else it is unknown.
    pub fn get_version_info(
        version_name: &str,
        initial_server_type: ServerType,
        manifest_fetched: bool,
    ) -> (r: Result<Self, VersionError>)
        ensures
            r matches Ok(info) ==> (info.name@ == version_name@ && info.server_type
                == initial_server_type),
            initial_server_type == ServerType::Other ==> (r matches Ok(info) && info.version_type
                == guessed_type(version_name@)),
            initial_server_type == ServerType::BDS ==> match bds_format(version_name@) {
                Some(t) => (r matches Ok(info) && info.version_type == t),
                None => (r matches Err(e) && e == VersionError::InvalidBdsFormat),
            },
            initial_server_type != ServerType::Other && initial_server_type != ServerType::BDS
                ==> match java_format(version_name@) {
                Some(t) => (r matches Ok(info) && info.version_type == (if manifest_fetched {
                    t
                } else {
                    VersionType::Unknown
                })),
                None => (r matches Err(e) && e == VersionError::InvalidJavaFormat),
            },
    {
        let name = version_name.to_owned();
        if initial_server_type == ServerType::Other {
            let t = VersionInfo::guess_version_type(version_name);
            return Ok(VersionInfo::new(name, t, initial_server_type));
        }
        if initial_server_type == ServerType::BDS {
            let t = VersionInfo::validate_bds_format(version_name)?;
            return Ok(VersionInfo::new(name, t, initial_server_type));
        }
        let t = VersionInfo::validate_java_format(version_name)?;
        if manifest_fetched {
            Ok(VersionInfo::new(name, t, initial_server_type))
        } else {
            Ok(VersionInfo::new(name, VersionType::Unknown, initial_server_type))
        }
    }

    /// The newest version of a kind, as the manifest names it: the latest
    /// release or snapshot, or the first entry of an early kind.
    pub fn get_latest_version(version_type: VersionType, manifest: &VersionManifest) -> (r: Result<
        String,
        VersionError,
    >)
        ensures
            version_type == VersionType::Unknown ==> r == Err::<String, VersionError>(
                VersionError::UnknownType,
            ),
            version_type == VersionType::Release ==> (r matches Ok(id) && id@
                == manifest.latest.release@),
            version_type == VersionType::Snapshot ==> (r matches Ok(id) && id@
                == manifest.latest.snapshot@),
            version_type == VersionType::OldBeta ==> manifest.first_of_kind(OLD_BETA_KIND@, r),
            version_type == VersionType::OldAlpha ==> manifest.first_of_kind(OLD_ALPHA_KIND@, r),
    {
        match version_type {
            VersionType::Unknown => Err(VersionError::UnknownType),
            VersionType::Release => Ok(copy_string(&manifest.latest.release)),
            VersionType::Snapshot => Ok(copy_string(&manifest.latest.snapshot)),
            VersionType::OldBeta => manifest.find_kind(OLD_BETA_KIND),
            VersionType::OldAlpha => manifest.find_kind(OLD_ALPHA_KIND),
        }
    }
}

impl ManifestVersion {
    pub fn copy(&self) -> (r: Self)
        ensures
            r.id@ == self.id@,
            r.version_type_str@ == self.version_type_str@,
            r.url@ == self.url@,
    {
        ManifestVersion {
            id: copy_string(&self.id),
            version_type_str: copy_string(&self.version_type_str),
            url: copy_string(&self.url),
        }
    }
}

impl VersionManifest {
    /// `r` is the id of the first entry of type `kind`, or the error that
    /// there is none.
    pub open spec fn first_of_kind(&self, kind: Seq<char>, r: Result<String, VersionError>) -> bool {
        match r {
            Ok(id) => exists|i: int|
                is_first_of_kind(self.versions@, kind, i) && id@ == self.versions@[i].id@,
            Err(e) => e == VersionError::NoVersionOfType && forall|i: int|
                0 <= i < self.versions@.len() ==> self.versions@[i].version_type_str@ != kind,
        }
    }

    fn find_kind(&self, kind: &str) -> (r: Result<String, VersionError>)
        ensures
            self.first_of_kind(kind@, r),
    {
        let wanted = kind.to_owned();
        let mut i: usize = 0;
        while i < self.versions.len()
            invariant
                0 <= i <= self.versions@.len(),
                wanted@ == kind@,
                forall|j: int| 0 <= j < i ==> self.versions@[j].version_type_str@ != kind@,
            decreases self.versions@.len() - i,
        {
            if self.versions[i].version_type_str == wanted {
                let id = copy_string(&self.versions[i].id);
                assert(is_first_of_kind(self.versions@, kind@, i as int));
                return Ok(id);
            }
            i = i + 1;
        }
        Err(VersionError::NoVersionOfType)
    }

    /// The first entry named `name`.
    pub fn search(&self, name: String) -> (r: Result<ManifestVersion, VersionError>)
        ensures
            match r {
                Ok(v) => exists|i: int|
                    is_first_with_id(self.versions@, name@, i) && v.id@ == self.versions@[i].id@
                        && v.version_type_str@ == self.versions@[i].version_type_str@ && v.url@
                        == self.versions@[i].url@,
                Err(e) => e == VersionError::VersionNotFound && forall|i: int|
                    0 <= i < self.versions@.len() ==> self.versions@[i].id@ != name@,
            },
    {
        let mut i: usize = 0;
        while i < self.versions.len()
            invariant
                0 <= i <= self.versions@.len(),
                forall|j: int| 0 <= j < i ==> self.versions@[j].id@ != name@,
            decreases self.versions@.len() - i,
        {
            if self.versions[i].id == name {
                assert(is_first_with_id(self.versions@, name@, i as int));
                return Ok(self.versions[i].copy());
            }
            i = i + 1;
        }
        Err(VersionError::VersionNotFound)
    }
}

/// What installing a Java server amounts to.
pub enum InstallPlan {
    /// Download the official server of this version.
    Vanilla { version: String },
    /// Download the latest build of this version from a Paper-style API.
    PaperLike { project_api: String, version: String },
    /// Nothing is installed for a server of another kind.
    Nothing,
}

/// Decides how to install a Java server: the official one from the version
/// manifest, a Paper-style one from its project's API, nothing for other
/// servers. A Bedrock server is not installed this way.
pub fn install_je(version_info: VersionInfo) -> (r: InstallPlan)
    requires
        version_info.server_type != ServerType::BDS,
    ensures
        version_info.server_type == ServerType::Vanilla ==> (r matches InstallPlan::Vanilla {
            version,
        } && version@ == version_info.name@),
        version_info.server_type == ServerType::Paper ==> (r matches InstallPlan::PaperLike {
            project_api,
            version,
        } && project_api@ == PAPER_PROJECT_API@ && version@ == version_info.name@),
        version_info.server_type == ServerType::Folia ==> (r matches InstallPlan::PaperLike {
            project_api,
            version,
        } && project_api@ == FOLIA_PROJECT_API@ && version@ == version_info.name@),
        version_info.server_type == ServerType::Purpur ==> (r matches InstallPlan::PaperLike {
            project_api,
            version,
        } && project_api@ == PURPUR_PROJECT_API@ && version@ == version_info.name@),
        version_info.server_type == ServerType::Leaves ==> (r matches InstallPlan::PaperLike {
            project_api,
            version,
        } && project_api@ == LEAVES_PROJECT_API@ && version@ == version_info.name@),
        version_info.server_type == ServerType::Other ==> (r matches InstallPlan::Nothing),
{
    let version = version_info.name;
    match version_info.server_type {
        ServerType::Vanilla => InstallPlan::Vanilla { version },
        ServerType::Paper => InstallPlan::PaperLike {
            project_api: PAPER_PROJECT_API.to_owned(),
            version,
        },
        ServerType::Folia => InstallPlan::PaperLike {
            project_api: FOLIA_PROJECT_API.to_owned(),
            version,
        },
        ServerType::Purpur => InstallPlan::PaperLike {
            project_api: PURPUR_PROJECT_API.to_owned(),
            version,
        },
        ServerType::Leaves => InstallPlan::PaperLike {
            project_api: LEAVES_PROJECT_API.to_owned(),
            version,
        },
        _ => InstallPlan::Nothing,
    }
}

/// Where an installed server jar lives.
pub const SERVER_JAR: &'static str = "server.jar";

/// Where the previous server jar is kept.
pub const SERVER_JAR_BACKUP: &'static str = "server.jar.bak";

/// One file move of an installation.
pub struct Rename {
    pub from: String,
    pub to: String,
}

/// Why a downloaded server was not installed.
#[derive(Clone, Copy, PartialEq, Eq, Structural, Debug)]
pub enum InstallError {
    /// The download produced no file.
    NoFileDownloaded,
    /// The file's SHA-1 is not the one the version manifest gives.
    Sha1Mismatch,
    /// The file's SHA-256 is not the one the project's API gives.
    Sha256Mismatch,
}

impl InstallError {
    pub fn message(&self) -> (r: String)
        ensures
            *self == InstallError::NoFileDownloaded ==> r@ == "No files downloaded"@,
            *self == InstallError::Sha1Mismatch ==> r@ == "SHA1 verification failed"@,
            *self == InstallError::Sha256Mismatch ==> r@ == "SHA256 verification failed"@,
    {
        match self {
            InstallError::NoFileDownloaded => String::from_str("No files downloaded"),
            InstallError::Sha1Mismatch => String::from_str("SHA1 verification failed"),
            InstallError::Sha256Mismatch => String::from_str("SHA256 verification failed"),
        }
    }
}

/// The renames that install `path`: the current jar, if there is one, is
/// kept as the backup, then the download becomes the jar.
pub open spec fn install_renames(path: Seq<char>, server_jar_exists: bool) -> Seq<(Seq<char>, Seq<char>)> {
    if server_jar_exists {
        seq![(SERVER_JAR@, SERVER_JAR_BACKUP@), (path, SERVER_JAR@)]
    } else {
        seq![(path, SERVER_JAR@)]
    }
}

pub open spec fn renames_view(r: Seq<Rename>) -> Seq<(Seq<char>, Seq<char>)> {
    r.map_values(|m: Rename| (m.from@, m.to@))
}

/// Decides how a downloaded server is installed. The official server is
/// checked by its SHA-1, a Paper-style one by its SHA-256, against
/// `expected`; on a mismatch nothing is moved. A plan that installs
/// nothing moves nothing.
pub fn install_downloaded(
    plan: &InstallPlan,
    download: Option<&FileDownloadResult>,
    expected: &String,
    server_jar_exists: bool,
) -> (r: Result<Vec<Rename>, InstallError>)
    ensures
        plan matches InstallPlan::Nothing ==> (r matches Ok(v) && v@.len() == 0),
        !(plan matches InstallPlan::Nothing) && download.is_none() ==> r == Err::<Vec<Rename>, InstallError>(
            InstallError::NoFileDownloaded,
        ),
        !(plan matches InstallPlan::Nothing) && download.is_some() ==> {
            let d = download.unwrap();
            let (digest, mismatch) = if plan matches InstallPlan::Vanilla { .. } {
                (d.sha1@, InstallError::Sha1Mismatch)
            } else {
                (d.sha256@, InstallError::Sha256Mismatch)
            };
            &&& digest != expected@ ==> r == Err::<Vec<Rename>, InstallError>(mismatch)
            &&& digest == expected@ ==> (r matches Ok(v) && renames_view(v@) == install_renames(
                d.path@,
                server_jar_exists,
            ))
        },
{
    let d = match plan {
        InstallPlan::Nothing => return Ok(Vec::new()),
        _ => match download {
            None => return Err(InstallError::NoFileDownloaded),
            Some(d) => d,
        },
    };
    match plan {
        InstallPlan::Vanilla { .. } => {
            if d.sha1 != *expected {
                return Err(InstallError::Sha1Mismatch);
            }
        },
        _ => {
            if d.sha256 != *expected {
                return Err(InstallError::Sha256Mismatch);
            }
        },
    }
    let mut moves: Vec<Rename> = Vec::new();
    if server_jar_exists {
        moves.push(Rename { from: SERVER_JAR.to_owned(), to: SERVER_JAR_BACKUP.to_owned() });
    }
    moves.push(Rename { from: copy_string(&d.path), to: SERVER_JAR.to_owned() });
    assert(renames_view(moves@) =~= install_renames(d.path@, server_jar_exists));
    Ok(moves)
}

} // verus!

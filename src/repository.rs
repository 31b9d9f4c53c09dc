//! The repository: its layout on disk, the runs of the external tool that
//! keep its index current, and the decisions that each operation takes on
//! what it finds there. The caller performs the file operations and the
//! runs in the order that the plans give.

use vstd::prelude::*;

use crate::aapt::{
    get_name, get_version_code, regex_first_group, version_code_from, NAME_PATTERN,
    VERSION_CODE_PATTERN,
};
use crate::app::{apps_from_json, view_apps, view_strings, App};
use crate::config::{
    get_public_config, merged, public_part, same_secrets, set_config, ConfigFile, ConfigFileView,
    PublicConfig,
};
use crate::decimal::{decimal_of, decimal_string};
use crate::error::Error;
use crate::general::{file_extension_of, get_file_extension, join_path, path_join};
use crate::json::{parse_json, parsed_json};

verus! {

/// The external repository tool.
pub const TOOL: &'static str = "fdroid";

/// What a path was found to be.
#[derive(Clone, Copy, Debug, PartialEq, Eq, Structural)]
pub enum PathKind {
    Missing,
    File,
    Directory,
    /// It exists and is neither a regular file nor a directory.
    Other,
}

/// One run of the external tool: `fdroid <subcommand> <args...>` in `dir`.
#[derive(Clone, Debug)]
pub struct ToolCommand {
    pub dir: String,
    pub subcommand: String,
    pub args: Vec<String>,
}

pub open spec fn is_tool_command(
    c: ToolCommand,
    dir: Seq<char>,
    subcommand: Seq<char>,
    args: Seq<Seq<char>>,
) -> bool {
    &&& c.dir@ == dir
    &&& c.subcommand@ == subcommand
    &&& view_strings(c.args@) == args
}

/// The arguments, each after a space.
pub open spec fn args_text(args: Seq<Seq<char>>) -> Seq<char>
    decreases args.len(),
{
    if args.len() == 0 {
        Seq::empty()
    } else {
        args_text(args.drop_last()) + " "@ + args.last()
    }
}

/// The command line of a run of the tool.
pub open spec fn command_line_of(subcommand: Seq<char>, args: Seq<Seq<char>>) -> Seq<char> {
    TOOL@ + " "@ + subcommand + args_text(args)
}

impl ToolCommand {
    fn new(dir: &String, subcommand: &str, args: Vec<String>) -> (r: ToolCommand)
        ensures
            is_tool_command(r, dir@, subcommand@, view_strings(args@)),
    {
        ToolCommand { dir: dir.clone(), subcommand: subcommand.to_owned(), args }
    }

    /// The command line that this run executes.
    pub fn command_line(&self) -> (r: String)
        ensures
            r@ == command_line_of(self.subcommand@, view_strings(self.args@)),
    {
        let mut out = String::from_str(TOOL);
        out.append(" ");
        out.append(self.subcommand.as_str());
        let mut i: usize = 0;
        while i < self.args.len()
            invariant
                i <= self.args@.len(),
                out@ == TOOL@ + " "@ + self.subcommand@ + args_text(
                    view_strings(self.args@).subrange(0, i as int),
                ),
            decreases self.args.len() - i,
        {
            proof {
                let a = view_strings(self.args@);
                assert(a.subrange(0, i + 1).drop_last() =~= a.subrange(0, i as int));
            }
            out.append(" ");
            out.append(self.args[i].as_str());
            i = i + 1;
        }
        assert(view_strings(self.args@).subrange(0, i as int) =~= view_strings(self.args@));
        out
    }

    /// The error that a failed run reports: the tool could not be started
    /// or did not end successfully.
    pub fn failure(&self) -> (r: Error)
        ensures
            r matches Error::Custom(m) && m@ == "Failed to run command: "@ + command_line_of(
                self.subcommand@,
                view_strings(self.args@),
            ),
    {
        let mut m = String::from_str("Failed to run command: ");
        let line = self.command_line();
        m.append(line.as_str());
        Error::Custom(m)
    }
}

pub open spec fn config_path_of(root: Seq<char>) -> Seq<char> {
    path_join(root, "config.yml"@)
}

pub open spec fn metadata_dir_of(root: Seq<char>) -> Seq<char> {
    path_join(root, "metadata"@)
}

pub open spec fn repo_dir_of(root: Seq<char>) -> Seq<char> {
    path_join(root, "repo"@)
}

pub open spec fn unsigned_dir_of(root: Seq<char>) -> Seq<char> {
    path_join(root, "unsigned"@)
}

pub open spec fn keystore_path_of(root: Seq<char>) -> Seq<char> {
    path_join(root, "keystore.p12"@)
}

pub open spec fn index_path_of(root: Seq<char>) -> Seq<char> {
    path_join(repo_dir_of(root), "index-v1.json"@)
}

pub open spec fn icons_dir_of(root: Seq<char>) -> Seq<char> {
    path_join(repo_dir_of(root), "icons"@)
}

pub open spec fn meta_file_of(root: Seq<char>, package_name: Seq<char>) -> Seq<char> {
    path_join(metadata_dir_of(root), package_name + ".yml"@)
}

/// The icon's file name: the configured one, or `icon.png`.
pub open spec fn icon_name_of(c: ConfigFileView) -> Seq<char> {
    match c.repo_icon {
        Some(i) => i,
        None => "icon.png"@,
    }
}

pub open spec fn image_path_of(root: Seq<char>, c: ConfigFileView) -> Seq<char> {
    path_join(icons_dir_of(root), icon_name_of(c))
}

/// The name under which a package waits to be signed.
pub open spec fn staged_name_of(package_name: Seq<char>, version_code: u32) -> Seq<char> {
    package_name + "_"@ + decimal_of(version_code as nat) + ".apk"@
}

/// Where a package waits to be signed, and whether the staging directory
/// must be made first.
#[derive(Clone, Debug)]
pub struct SignPlan {
    pub package_name: String,
    pub staged_path: String,
    pub create_staging_dir: bool,
}

/// How a new repository icon is put in place.
#[derive(Clone, Debug)]
pub enum ImagePlan {
    /// The icon keeps its file type: the new content replaces the file.
    Overwrite { target: String },
    /// The icon changes file type: the new content goes to `target`, then
    /// `config` is written, and only then is `old` removed.
    Replace { target: String, config: ConfigFile, old: String },
}

/// A repository, known by its root directory.
#[derive(Clone, Debug)]
pub struct Repository {
    path: String,
}

impl View for Repository {
    type V = Seq<char>;

    closed spec fn view(&self) -> Seq<char> {
        self.path@
    }
}

impl Repository {
    /// The repository whose root is `path`.
    pub fn new(path: String) -> (r: Repository)
        ensures
            r@ == path@,
    {
        Repository { path }
    }

    pub fn get_config_path(&self) -> (r: String)
        ensures
            r@ == config_path_of(self@),
    {
        join_path(self.path.as_str(), "config.yml")
    }

    pub fn get_metadata_path(&self) -> (r: String)
        ensures
            r@ == metadata_dir_of(self@),
    {
        join_path(self.path.as_str(), "metadata")
    }

    /// The directory of the published packages.
    pub fn get_repo_path(&self) -> (r: String)
        ensures
            r@ == repo_dir_of(self@),
    {
        join_path(self.path.as_str(), "repo")
    }

    /// The directory where packages wait to be signed.
    pub fn get_unsigned_path(&self) -> (r: String)
        ensures
            r@ == unsigned_dir_of(self@),
    {
        join_path(self.path.as_str(), "unsigned")
    }

    pub fn get_keystore_path(&self) -> (r: String)
        ensures
            r@ == keystore_path_of(self@),
    {
        join_path(self.path.as_str(), "keystore.p12")
    }

    /// The index that the tool generates.
    pub fn get_index_path(&self) -> (r: String)
        ensures
            r@ == index_path_of(self@),
    {
        let repo = self.get_repo_path();
        join_path(repo.as_str(), "index-v1.json")
    }

    /// The metadata document of a package.
    pub fn get_meta_file_path(&self, package_name: &str) -> (r: String)
        ensures
            r@ == meta_file_of(self@, package_name@),
    {
        let dir = self.get_metadata_path();
        let mut name = package_name.to_owned();
        name.append(".yml");
        join_path(dir.as_str(), name.as_str())
    }

    fn get_icons_path(&self) -> (r: String)
        ensures
            r@ == icons_dir_of(self@),
    {
        let repo = self.get_repo_path();
        join_path(repo.as_str(), "icons")
    }

    /// The repository icon that `config` names.
    pub fn get_image_path(&self, config: &ConfigFile) -> (r: String)
        ensures
            r@ == image_path_of(self@, config@),
    {
        let icons = self.get_icons_path();
        match &config.repo_icon {
            Some(icon) => join_path(icons.as_str(), icon.as_str()),
            None => join_path(icons.as_str(), "icon.png"),
        }
    }

    /// The public part of the repository's configuration.
    pub fn get_public_config(&self, config: &ConfigFile) -> (r: PublicConfig)
        ensures
            r@ == public_part(config@),
    {
        get_public_config(config)
    }

    /// The configuration to write when `public` is set; after writing it the
    /// index is regenerated.
    pub fn set_config(&self, config: &ConfigFile, public: &PublicConfig) -> (r: ConfigFile)
        ensures
            r@ == merged(config@, public@),
            same_secrets(r@, config@),
    {
        set_config(config, public)
    }

    /// The keystore password of the configuration.
    pub fn get_keystore_password(&self, config: &ConfigFile) -> (r: String)
        ensures
            r@ == config.keystorepass@,
    {
        config.keystorepass.clone()
    }

    /// Creates the repository with the tool, where its configuration is
    /// missing.
    pub fn initialize(&self) -> (r: ToolCommand)
        ensures
            is_tool_command(r, self@, "init"@, seq![]),
    {
        let args: Vec<String> = Vec::new();
        assert(view_strings(args@) =~= seq![]);
        ToolCommand::new(&self.path, "init", args)
    }

    /// Regenerates the index: a clean rebuild, then a normal update.
    pub fn update(&self) -> (r: Vec<ToolCommand>)
        ensures
            r@.len() == 2,
            is_tool_command(r@[0], self@, "update"@, seq!["-c"@]),
            is_tool_command(r@[1], self@, "update"@, seq![]),
    {
        let mut clean: Vec<String> = Vec::new();
        clean.push("-c".to_owned());
        assert(view_strings(clean@) =~= seq!["-c"@]);
        let plain: Vec<String> = Vec::new();
        assert(view_strings(plain@) =~= seq![]);
        let mut out: Vec<ToolCommand> = Vec::new();
        out.push(ToolCommand::new(&self.path, "update", clean));
        out.push(ToolCommand::new(&self.path, "update", plain));
        out
    }

    /// Signs the waiting packages and moves them to the published ones.
    pub fn publish(&self) -> (r: ToolCommand)
        ensures
            is_tool_command(r, self@, "publish"@, seq![]),
    {
        let args: Vec<String> = Vec::new();
        assert(view_strings(args@) =~= seq![]);
        ToolCommand::new(&self.path, "publish", args)
    }

    /// Brings the metadata documents to the tool's standard form.
    pub fn cleanup(&self) -> (r: ToolCommand)
        ensures
            is_tool_command(r, self@, "rewritemeta"@, seq![]),
    {
        let args: Vec<String> = Vec::new();
        assert(view_strings(args@) =~= seq![]);
        ToolCommand::new(&self.path, "rewritemeta", args)
    }

    /// The apps that the index lists. `index` is the index's text, or
    /// nothing where no index exists yet, which means no apps.
    pub fn get_apps(&self, index: Option<&str>) -> (r: Result<Vec<App>, Error>)
        ensures
            match index {
                None => r matches Ok(apps) && apps@.len() == 0,
                Some(text) => match parsed_json(text@) {
                    None => r matches Err(Error::JsonConvert(_)),
                    Some(doc) => match apps_from_json(doc) {
                        Some(a) => r matches Ok(apps) && view_apps(apps@) == a,
                        None => r matches Err(Error::JsonConvert(_)),
                    },
                },
            },
    {
        match index {
            None => Ok(Vec::new()),
            Some(text) => match parse_json(text) {
                None => Err(Error::JsonConvert("Could not read repository index file!".to_owned())),
                Some(doc) => match App::from_json(&doc) {
                    Some(apps) => Ok(apps),
                    None => Err(
                        Error::JsonConvert("Could not map repository index file!".to_owned()),
                    ),
                },
            },
        }
    }

    /// Where an uploaded package goes: under its declared name in the
    /// package directory, replacing a package of that name.
    pub fn upload_target(&self, file_name: Option<&str>) -> (r: Result<String, Error>)
        ensures
            match file_name {
                Some(n) => r matches Ok(p) && p@ == path_join(repo_dir_of(self@), n@),
                None => r matches Err(Error::User(_)),
            },
    {
        match file_name {
            Some(n) => {
                let repo = self.get_repo_path();
                Ok(join_path(repo.as_str(), n))
            },
            None => Err(Error::User("File has no name!".to_owned())),
        }
    }

    /// Whether a just-uploaded package must be removed again: exactly when
    /// the index could not be regenerated and the package is still there.
    /// After a failed regeneration the uploaded file is therefore never left
    /// in the package directory.
    pub fn upload_rollback(update_succeeded: bool, placed: PathKind) -> (r: bool)
        ensures
            r == (!update_succeeded && placed == PathKind::File),
            !update_succeeded ==> (r || placed != PathKind::File),
    {
        !update_succeeded && placed == PathKind::File
    }

    /// The package file to remove, given what its path was found to be.
    /// Deleting a package that does not exist succeeds and removes nothing.
    pub fn delete_target(&self, apk_name: &str, found: PathKind) -> (r: Result<Option<String>, Error>)
        ensures
            found == PathKind::Missing ==> r matches Ok(None),
            found == PathKind::File ==> (r matches Ok(Some(p)) && p@ == path_join(
                repo_dir_of(self@),
                apk_name@,
            )),
            (found == PathKind::Directory || found == PathKind::Other) ==> r matches Err(
                Error::User(_),
            ),
    {
        match found {
            PathKind::Missing => Ok(None),
            PathKind::File => {
                let repo = self.get_repo_path();
                Ok(Some(join_path(repo.as_str(), apk_name)))
            },
            _ => Err(Error::User("Provided file is not a file!".to_owned())),
        }
    }

    /// The directories that a full wipe removes and makes anew: the package
    /// directory and the metadata directory.
    pub fn clear_targets(&self) -> (r: Vec<String>)
        ensures
            r@.len() == 2,
            r@[0]@ == repo_dir_of(self@),
            r@[1]@ == metadata_dir_of(self@),
    {
        let mut out: Vec<String> = Vec::new();
        out.push(self.get_repo_path());
        out.push(self.get_metadata_path());
        out
    }

    /// The metadata document to read for a package; a package without one
    /// is the caller's error, not a fault.
    pub fn metadata_source(&self, package_name: &str, found: PathKind) -> (r: Result<String, Error>)
        ensures
            found == PathKind::File ==> (r matches Ok(p) && p@ == meta_file_of(
                self@,
                package_name@,
            )),
            found != PathKind::File ==> r matches Err(Error::User(_)),
    {
        if found == PathKind::File {
            Ok(self.get_meta_file_path(package_name))
        } else {
            Err(Error::User("Metadata file does not exist!".to_owned()))
        }
    }

    /// The empty metadata document to create for a package, where none
    /// exists; whatever stands at the path is left alone.
    pub fn metadata_placeholder(&self, package_name: &str, found: PathKind) -> (r: Option<String>)
        ensures
            found == PathKind::Missing ==> (r matches Some(p) && p@ == meta_file_of(
                self@,
                package_name@,
            )),
            found != PathKind::Missing ==> r is None,
    {
        if found == PathKind::Missing {
            Some(self.get_meta_file_path(package_name))
        } else {
            None
        }
    }

    /// Where a package to be signed waits: named after the package name and
    /// version code that the inspection output `apk_info` gives, in the
    /// staging directory, which is made where it is missing.
    pub fn sign_plan(&self, apk_info: &str, staging: PathKind) -> (r: Result<SignPlan, Error>)
        ensures
            ({
                let v = version_code_from(regex_first_group(VERSION_CODE_PATTERN@, apk_info@));
                let n = regex_first_group(NAME_PATTERN@, apk_info@);
                let staging_ok = staging == PathKind::Missing || staging == PathKind::Directory;
                match r {
                    Ok(plan) => {
                        &&& v is Some
                        &&& n is Some
                        &&& staging_ok
                        &&& plan.package_name@ == n.unwrap()
                        &&& plan.staged_path@ == path_join(
                            unsigned_dir_of(self@),
                            staged_name_of(n.unwrap(), v.unwrap()),
                        )
                        &&& plan.create_staging_dir == (staging == PathKind::Missing)
                    },
                    Err(e) => (v is None || n is None || !staging_ok) && e is Custom,
                }
            }),
    {
        let version = get_version_code(apk_info)?;
        let name = get_name(apk_info)?;
        let create = match staging {
            PathKind::Missing => true,
            PathKind::Directory => false,
            _ => return Err(Error::Custom("unsigned directory is a file!".to_owned())),
        };
        let file_name = staged_file_name(name.as_str(), version);
        let dir = self.get_unsigned_path();
        Ok(
            SignPlan {
                package_name: name,
                staged_path: join_path(dir.as_str(), file_name.as_str()),
                create_staging_dir: create,
            },
        )
    }

    /// How a new icon named `image_name` is put in place. Where its
    /// extension differs from the current icon's, the icon becomes
    /// `icon.<extension>`, the configuration is updated to name it, and the
    /// old icon is removed last.
    pub fn image_plan(&self, config: &ConfigFile, image_name: Option<&str>) -> (r: Result<
        ImagePlan,
        Error,
    >)
        ensures
            ({
                let current = image_path_of(self@, config@);
                match image_name {
                    None => r matches Err(Error::User(_)),
                    Some(n) => match file_extension_of(n@) {
                        None => r matches Err(Error::User(_)),
                        Some(new_ext) => match file_extension_of(current) {
                            None => r matches Err(Error::Custom(_)),
                            Some(cur_ext) => if new_ext == cur_ext {
                                r matches Ok(ImagePlan::Overwrite { target }) && target@ == current
                            } else {
                                r matches Ok(ImagePlan::Replace { target, config: c, old }) && {
                                    &&& target@ == path_join(icons_dir_of(self@), "icon."@ + new_ext)
                                    &&& c@ == ConfigFileView {
                                        repo_icon: Some("icon."@ + new_ext),
                                        ..config@
                                    }
                                    &&& old@ == current
                                }
                            },
                        },
                    },
                }
            }),
    {
        let image_path = self.get_image_path(config);
        let name = match image_name {
            Some(n) => n,
            None => return Err(Error::User("Image does not have a file name!".to_owned())),
        };
        let new_type = match get_file_extension(name) {
            Some(t) => t,
            None => return Err(Error::User("The image does not have an extension!".to_owned())),
        };
        let current_type = match get_file_extension(image_path.as_str()) {
            Some(t) => t,
            None => return Err(
                Error::Custom("Current image does not have an extension!".to_owned()),
            ),
        };
        if new_type == current_type {
            Ok(ImagePlan::Overwrite { target: image_path })
        } else {
            let mut icon = String::from_str("icon.");
            icon.append(new_type.as_str());
            let icons = self.get_icons_path();
            let target = join_path(icons.as_str(), icon.as_str());
            let new_config = config.with_icon(icon);
            Ok(ImagePlan::Replace { target, config: new_config, old: image_path })
        }
    }
}

/// Whether a file of the repository tree may be served to the public: the
/// configuration file and the keystore never are.
pub fn is_public_file(file_name: &str) -> (r: bool)
    ensures
        r == !(file_name@ == "config.yml"@ || file_name@ == "keystore.p12"@),
{
    let name = file_name.to_owned();
    !(name == "config.yml".to_owned() || name == "keystore.p12".to_owned())
}

/// The name under which a package waits to be signed:
/// `<package name>_<version code>.apk`.
pub fn staged_file_name(package_name: &str, version_code: u32) -> (r: String)
    ensures
        r@ == staged_name_of(package_name@, version_code),
{
    let mut out = package_name.to_owned();
    out.append("_");
    let digits = decimal_string(version_code as u64);
    out.append(digits.as_str());
    out.append(".apk");
    out
}

} // verus!

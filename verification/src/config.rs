//! The configuration of a release: what the configuration file holds, and what
//! the tool works with once the file has been checked.

use crate::cli::CliParams;
use crate::error::{FastReleaseError, FastReleaseErrorBuilder, FastReleaseErrorView};
use crate::text::lemma_first_is;
use vstd::prelude::*;
use vstd::string::StringExecFns;

verus! {

/// The properties that the file gives for a branch.
#[derive(Debug)]
pub struct ConfigFileBranch {
    pub pre_release: Option<bool>,
}

/// A branch as the file writes it: a bare name, or names with properties, in
/// the order in which they are read.
#[derive(Debug)]
pub enum ConfigBranchEnum {
    Simple(String),
    WithProperties(Vec<(String, Vec<ConfigFileBranch>)>),
}

/// A branch that releases are made from.
#[derive(Debug, Clone)]
pub struct ConfigBranch {
    pub name: String,
    pub pre_release: bool,
}

/// A `ConfigBranch` with its name as a character sequence.
pub struct ConfigBranchView {
    pub name: Seq<char>,
    pub pre_release: bool,
}

impl View for ConfigBranch {
    type V = ConfigBranchView;

    open spec fn view(&self) -> ConfigBranchView {
        ConfigBranchView { name: self.name@, pre_release: self.pre_release }
    }
}

/// A project of the repository.
#[derive(Debug, Clone)]
pub struct ConfigProject {
    pub name: String,
    pub path: String,
    pub modules: Vec<String>,
}

/// A `ConfigProject` with its texts as character sequences.
pub struct ConfigProjectView {
    pub name: Seq<char>,
    pub path: Seq<char>,
    pub modules: Seq<Seq<char>>,
}

impl View for ConfigProject {
    type V = ConfigProjectView;

    open spec fn view(&self) -> ConfigProjectView {
        ConfigProjectView { name: self.name@, path: self.path@, modules: texts(self.modules@) }
    }
}

/// The configuration file as it is read.
#[derive(Debug)]
pub struct ConfigFile {
    pub version: u8,
    pub tag_format: String,
    pub modules: Vec<String>,
    pub branches: Vec<ConfigBranchEnum>,
    pub projects: Vec<ConfigProject>,
}

/// The configuration that the tool works with.
#[derive(Debug, Clone)]
pub struct Config {
    pub version: u8,
    pub tag_format: String,
    pub modules: Vec<String>,
    pub branches: Vec<ConfigBranch>,
    pub projects: Vec<ConfigProject>,
    pub dry_run: bool,
}

/// A `Config` with its texts as character sequences.
pub struct ConfigView {
    pub version: u8,
    pub tag_format: Seq<char>,
    pub modules: Seq<Seq<char>>,
    pub branches: Seq<ConfigBranchView>,
    pub projects: Seq<ConfigProjectView>,
    pub dry_run: bool,
}

impl View for Config {
    type V = ConfigView;

    open spec fn view(&self) -> ConfigView {
        ConfigView {
            version: self.version,
            tag_format: self.tag_format@,
            modules: texts(self.modules@),
            branches: branch_views(self.branches@),
            projects: project_views(self.projects@),
            dry_run: self.dry_run,
        }
    }
}

/// The file names made of `name` and each of `extensions`, with a dot between.
pub open spec fn with_extensions(name: Seq<char>, extensions: Seq<String>) -> Seq<Seq<char>> {
    extensions.map_values(|e: String| name + "."@ + e@)
}

/// The file names under which a configuration file is looked for: each of
/// `names` with each of `extensions`, the names in their order and, for one
/// name, the extensions in theirs.
pub open spec fn candidates(names: Seq<String>, extensions: Seq<String>) -> Seq<Seq<char>>
    decreases names.len(),
{
    if names.len() == 0 {
        Seq::empty()
    } else {
        candidates(names.drop_last(), extensions) + with_extensions(names.last()@, extensions)
    }
}

/// Texts as character sequences.
pub open spec fn texts(files: Seq<String>) -> Seq<Seq<char>> {
    files.map_values(|f: String| f@)
}

/// Lists the file names under which a configuration file is looked for, in the
/// order in which they are tried.
pub fn candidate_names(names: &Vec<String>, extensions: &Vec<String>) -> (r: Vec<String>)
    ensures
        texts(r@) == candidates(names@, extensions@),
{
    let mut result: Vec<String> = Vec::new();
    let mut i: usize = 0;
    assert(names@.take(0) =~= Seq::empty());
    assert(texts(result@) =~= Seq::empty());
    while i < names.len()
        invariant
            i <= names.len(),
            texts(result@) == candidates(names@.take(i as int), extensions@),
        decreases names.len() - i,
    {
        let ghost done = texts(result@);
        let mut j: usize = 0;
        assert(with_extensions(names@[i as int]@, extensions@.take(0)) =~= Seq::empty());
        assert(done + Seq::<Seq<char>>::empty() =~= done);
        while j < extensions.len()
            invariant
                i < names.len(),
                j <= extensions.len(),
                texts(result@) == done + with_extensions(
                    names@[i as int]@,
                    extensions@.take(j as int),
                ),
            decreases extensions.len() - j,
        {
            let ghost before = result@;
            let file_name = names[i].clone().concat(".").concat(extensions[j].as_str());
            result.push(file_name);
            proof {
                let name = names@[i as int]@;
                assert(texts(result@) =~= texts(before).push(file_name@));
                assert(extensions@.take(j + 1) =~= extensions@.take(j as int).push(
                    extensions@[j as int],
                ));
                assert(with_extensions(name, extensions@.take(j + 1)) =~= with_extensions(
                    name,
                    extensions@.take(j as int),
                ).push(file_name@));
                assert(texts(result@) =~= done + with_extensions(name, extensions@.take(j + 1)));
            }
            j += 1;
        }
        assert(extensions@.take(extensions.len() as int) =~= extensions@);
        assert(names@.take(i + 1).drop_last() =~= names@.take(i as int));
        assert(names@.take(i + 1).last() == names@[i as int]);
        i += 1;
    }
    assert(names@.take(names.len() as int) =~= names@);
    result
}

/// Picks the configuration file among the candidates: the first one that is
/// present, `present` saying of each candidate whether it is.
pub fn first_found(present: &Vec<bool>) -> (r: Option<usize>)
    ensures
        crate::text::position(r) == present@.index_of_first(true),
{
    let mut i: usize = 0;
    while i < present.len()
        invariant
            i <= present.len(),
            forall|j: int| 0 <= j < i ==> !present@[j],
        decreases present.len() - i,
    {
        if present[i] {
            proof {
                lemma_first_is(present@, true, i as int);
            }
            return Some(i);
        }
        i += 1;
    }
    proof {
        crate::text::lemma_absent(present@, true);
    }
    None
}

/// The branch that one entry of the file stands for. A bare name is a branch
/// that makes full releases. Of an entry with properties only the first name
/// counts, with the first set of properties given for it; without either the
/// entry stands for no branch.
pub open spec fn branch_of(entry: ConfigBranchEnum) -> Option<ConfigBranchView> {
    match entry {
        ConfigBranchEnum::Simple(name) => Some(ConfigBranchView { name: name@, pre_release: false }),
        ConfigBranchEnum::WithProperties(properties) => if properties@.len() > 0
            && properties@[0].1@.len() > 0 {
            Some(
                ConfigBranchView {
                    name: properties@[0].0@,
                    pre_release: properties@[0].1@[0].pre_release == Some(true),
                },
            )
        } else {
            None
        },
    }
}

/// The branches that the entries of the file stand for, in their order.
pub open spec fn branches_of(entries: Seq<ConfigBranchEnum>) -> Seq<ConfigBranchView>
    decreases entries.len(),
{
    if entries.len() == 0 {
        Seq::empty()
    } else {
        match branch_of(entries.last()) {
            Some(branch) => branches_of(entries.drop_last()).push(branch),
            None => branches_of(entries.drop_last()),
        }
    }
}

/// Branches with their names as character sequences.
pub open spec fn branch_views(branches: Seq<ConfigBranch>) -> Seq<ConfigBranchView> {
    branches.map_values(|b: ConfigBranch| b@)
}

/// Projects with their texts as character sequences.
pub open spec fn project_views(projects: Seq<ConfigProject>) -> Seq<ConfigProjectView> {
    projects.map_values(|p: ConfigProject| p@)
}

/// The error for a file that lacks `what`.
pub open spec fn lacking(what: Seq<char>) -> FastReleaseErrorView {
    FastReleaseErrorView {
        message: "There are no "@ + what
            + " on the configuration file. There must be at least one."@,
        category: Some("CONFIG"@),
        error: None,
    }
}

/// What the file `file` and the command line `cli` give. A file without
/// branches is refused, and so is one without projects, in this order. Of an
/// accepted file the version, tag format, modules and projects are taken as
/// they are, the branches are resolved, and the command line says whether the
/// run is a dry one.
pub open spec fn validated(file: ConfigFile, cli: CliParams) -> Result<
    ConfigView,
    FastReleaseErrorView,
> {
    if file.branches@.len() == 0 {
        Err(lacking("branches"@))
    } else if file.projects@.len() == 0 {
        Err(lacking("projects"@))
    } else {
        Ok(
            ConfigView {
                version: file.version,
                tag_format: file.tag_format@,
                modules: texts(file.modules@),
                branches: branches_of(file.branches@),
                projects: project_views(file.projects@),
                dry_run: cli.dry_run,
            },
        )
    }
}

/// The outcome of a validation with its texts as character sequences.
pub open spec fn outcome_view(r: Result<Config, FastReleaseError>) -> Result<
    ConfigView,
    FastReleaseErrorView,
> {
    match r {
        Ok(config) => Ok(config@),
        Err(error) => Err(error@),
    }
}

fn resolve_branches(entries: &Vec<ConfigBranchEnum>) -> (result: Vec<ConfigBranch>)
    ensures
        branch_views(result@) == branches_of(entries@),
{
    let mut result: Vec<ConfigBranch> = Vec::new();
    let mut i: usize = 0;
    assert(entries@.take(0) =~= Seq::empty());
    assert(branch_views(result@) =~= Seq::empty());
    while i < entries.len()
        invariant
            i <= entries.len(),
            branch_views(result@) == branches_of(entries@.take(i as int)),
        decreases entries.len() - i,
    {
        let ghost before = result@;
        assert(entries@.take(i + 1).drop_last() =~= entries@.take(i as int));
        assert(entries@.take(i + 1).last() == entries@[i as int]);
        match &entries[i] {
            ConfigBranchEnum::Simple(name) => {
                let branch = ConfigBranch { name: name.clone(), pre_release: false };
                result.push(branch);
                assert(branch_views(result@) =~= branch_views(before).push(branch@));
            },
            ConfigBranchEnum::WithProperties(properties) => {
                if properties.len() > 0 {
                    let first = &properties[0];
                    if first.1.len() > 0 {
                        let pre_release: bool = match first.1[0].pre_release {
                            Some(flag) => flag,
                            None => false,
                        };
                        let branch = ConfigBranch { name: first.0.clone(), pre_release };
                        result.push(branch);
                        assert(branch_views(result@) =~= branch_views(before).push(branch@));
                    }
                }
            },
        }
        i += 1;
    }
    assert(entries@.take(entries.len() as int) =~= entries@);
    result
}

fn lacks(what: &str) -> (r: FastReleaseError)
    ensures
        r@ == lacking(what@),
{
    let message = String::from_str("There are no ").concat(what).concat(
        " on the configuration file. There must be at least one.",
    );
    FastReleaseErrorBuilder::new(message.as_str()).category("CONFIG").get()
}

/// Checks the configuration file and turns it into the configuration that the
/// tool works with. A file without branches is refused, and so is one without
/// projects.
pub fn validate_and_transform_config(file_config: ConfigFile, cli_params: &CliParams) -> (r: Result<
    Config,
    FastReleaseError,
>)
    ensures
        outcome_view(r) == validated(file_config, *cli_params),
{
    let ConfigFile { version, tag_format, modules, branches, projects } = file_config;
    if branches.len() == 0 {
        return Err(lacks("branches"));
    }
    let resolved = resolve_branches(&branches);
    if projects.len() == 0 {
        return Err(lacks("projects"));
    }
    Ok(
        Config {
            version,
            tag_format,
            modules,
            branches: resolved,
            projects,
            dry_run: cli_params.dry_run,
        },
    )
}

/// Gives the configuration for a file that was read, or hands on the error that
/// kept it from being read.
pub fn get(file: Result<ConfigFile, FastReleaseError>, cli_params: &CliParams) -> (r: Result<
    Config,
    FastReleaseError,
>)
    ensures
        outcome_view(r) == match file {
            Ok(file_config) => validated(file_config, *cli_params),
            Err(unread) => Err(unread@),
        },
{
    match file {
        Ok(file_config) => validate_and_transform_config(file_config, cli_params),
        Err(unread) => Err(unread),
    }
}

} // verus!

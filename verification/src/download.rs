//! The decisions of a download: which asset, where to save it, and whether
//! and how to install it.

use vstd::prelude::*;
use vstd::string::*;
use vstd::utf8::encode_utf8;
use crate::codec::{percent_encoded, url_encode};
use crate::installer::{decides, install, InstallAction, InstallError};
use crate::matcher::{find_asset_by_system, is_first_fit, none_fits};
use crate::release::{tagged_name, Asset, Release, Repository, Tag, TaggedAsset};
use crate::text::{join_path, joined_path};

verus! {

/// An error of a download, with the message that is shown for it.
pub struct HandlerError {
    pub message: String,
}

impl HandlerError {
    pub fn new(message: String) -> (res: HandlerError)
        ensures
            res.message == message,
    {
        HandlerError { message }
    }

    /// The message of this error.
    pub open spec fn text(&self) -> Seq<char> {
        self.message@
    }

    /// The message of this error, fit to be shown as it is.
    pub fn to_string(&self) -> (res: String)
        ensures
            res@ == self.text(),
    {
        self.message.clone()
    }
}

/// How the asset of a release is chosen.
pub enum DownloadMode {
    /// The user is asked.
    Interactive,
    /// The user named the asset, with `{tag}` in place of the version.
    Selection(String),
    /// The asset that fits the host is taken.
    Automatic,
}

impl DownloadMode {
    /// A named asset goes before the automatic choice, and that before
    /// asking.
    pub fn new(select: Option<String>, automatic: bool) -> (res: DownloadMode)
        ensures
            match select {
                Some(name) => res == DownloadMode::Selection(name),
                None => res == if automatic {
                    DownloadMode::Automatic
                } else {
                    DownloadMode::Interactive
                },
            },
    {
        match select {
            Some(name) => DownloadMode::Selection(name),
            None => if automatic {
                DownloadMode::Automatic
            } else {
                DownloadMode::Interactive
            },
        }
    }
}

/// Whether the download is installed, and under which executable name.
pub enum Install {
    No,
    Yes(String),
}

impl Install {
    /// An installation without a name of its own takes the repository's
    /// short name.
    pub fn new(install: Option<Option<String>>, repository: &Repository) -> (res: Install)
        ensures
            match install {
                None => res == Install::No,
                Some(None) => res matches Install::Yes(name) && name@ == repository.repo@,
                Some(Some(given)) => res == Install::Yes(given),
            },
    {
        match install {
            Some(Some(given)) => Install::Yes(given),
            Some(None) => Install::Yes(repository.repo.clone()),
            None => Install::No,
        }
    }

    pub fn as_bool(&self) -> (res: bool)
        ensures
            res == (*self is Yes),
    {
        match self {
            Install::No => false,
            Install::Yes(_) => true,
        }
    }
}

/// Where the download is saved: a temporary file where it is to be
/// installed, else the path that the user gave, taken as a directory to
/// save under the asset's name where it is one, else the asset's name.
pub open spec fn chosen_path(
    output: Option<Seq<char>>,
    install: bool,
    asset_name: Seq<char>,
    is_dir: bool,
    temp_file: Seq<char>,
) -> Seq<char> {
    if install {
        temp_file
    } else {
        match output {
            Some(path) => if is_dir {
                joined_path(path, asset_name)
            } else {
                path
            },
            None => asset_name,
        }
    }
}

/// The view of an optional text.
pub open spec fn text_view(text: Option<String>) -> Option<Seq<char>> {
    match text {
        Some(t) => Some(t@),
        None => None,
    }
}

/// The view of an optional borrowed text.
pub open spec fn borrowed_view(text: Option<&String>) -> Option<Seq<char>> {
    match text {
        Some(t) => Some(t@),
        None => None,
    }
}

/// Where the download is saved; see [`chosen_path`]. `is_dir` says whether
/// `output` is a directory, and `temp_file` is a fresh temporary path.
pub fn choose_output_path_from(
    output: Option<&String>,
    install: bool,
    asset_name: &str,
    is_dir: bool,
    temp_file: &str,
) -> (res: String)
    ensures
        res@ == chosen_path(borrowed_view(output), install, asset_name@, is_dir, temp_file@),
{
    if install {
        return String::from_str(temp_file);
    }
    match output {
        Some(path) => if is_dir {
            join_path(path.as_str(), asset_name)
        } else {
            path.clone()
        },
        None => String::from_str(asset_name),
    }
}

/// The message for a path that was to be a directory and is none.
pub open spec fn not_a_directory_text(path: Seq<char>) -> Seq<char> {
    path + " is not a directory"@
}

/// The message for a name that stands for no asset, or for several.
pub open spec fn no_asset_text(untagged: Seq<char>) -> Seq<char> {
    "No asset found for "@ + untagged
}

/// Whether the asset at index `i` is the only one called `name`.
pub open spec fn is_only_match(assets: Seq<Asset>, name: Seq<char>, i: int) -> bool {
    0 <= i < assets.len() && assets[i].name@ == name && forall|j: int|
        0 <= j < assets.len() && j != i ==> (#[trigger] assets[j]).name@ != name
}

/// Whether no asset, or more than one, is called `name`.
pub open spec fn no_single_match(assets: Seq<Asset>, name: Seq<char>) -> bool {
    (forall|j: int| 0 <= j < assets.len() ==> (#[trigger] assets[j]).name@ != name) || (exists|
        i: int,
        j: int,
    |
        0 <= i < j < assets.len() && (#[trigger] assets[i]).name@ == name && (
        #[trigger] assets[j]).name@ == name)
}

/// Whether `res` is the outcome of looking up `untagged` in the release:
/// the one asset whose name is the tagged name, or an error where there is
/// none or more than one.
pub open spec fn autoselected(release: &Release, untagged: Seq<char>, res: Result<
    Asset,
    HandlerError,
>) -> bool {
    let name = tagged_name(release.tag.0@, untagged);
    match res {
        Ok(asset) => exists|i: int|
            is_only_match(release.assets@, name, i) && asset == #[trigger] release.assets@[i],
        Err(e) => no_single_match(release.assets@, name) && e.text() == no_asset_text(untagged),
    }
}

/// Whether `res` is the outcome of asking the user, who picked `picked`:
/// the asset at that index, or an error where nothing was picked.
pub open spec fn asked(assets: Seq<Asset>, picked: Option<usize>, res: Result<
    Asset,
    HandlerError,
>) -> bool {
    match res {
        Ok(asset) => picked matches Some(i) && i < assets.len() && asset == assets[i as int],
        Err(e) => !(picked matches Some(i) && i < assets.len()) && e.text()
            == "No asset selected"@,
    }
}

/// The text of the bug report that goes with a failed automatic choice.
pub open spec fn report_body(
    version: Seq<char>,
    repository: Seq<char>,
    release: Seq<char>,
    os: Seq<char>,
    arch: Seq<char>,
) -> Seq<char> {
    "## dra version\n"@ + version + "\n## Bug report\nRepository: "@ + repository + "\nRelease: "@
        + release + "\nOS: "@ + os + "\nARCH: "@ + arch
}

/// The address at which the bug report with the text `body` is filed.
pub open spec fn issue_url(body: Seq<char>) -> Seq<char> {
    "https://github.com/devmatteini/dra/issues/new?title="@ + percent_encoded(
        encode_utf8("Error: automatic download of asset"@),
    ) + "&body="@ + percent_encoded(encode_utf8(body))
}

/// The message for a release without an asset for the host.
pub open spec fn automatic_error_text(
    version: Seq<char>,
    repository: Seq<char>,
    release: Seq<char>,
    os: Seq<char>,
    arch: Seq<char>,
) -> Seq<char> {
    "Cannot find asset that matches your system "@ + os + " "@ + arch
        + "\nIf you think this is a bug, please report the issue: "@ + issue_url(
        report_body(version, repository, release, os, arch),
    )
}

/// The directory to install into, or the message that says why there is
/// none: the path that the user gave, where it is a directory, else the
/// current directory, where it is known.
pub open spec fn destination(
    output: Option<Seq<char>>,
    output_is_dir: bool,
    current_dir: Result<String, String>,
) -> Result<Seq<char>, Seq<char>> {
    match output {
        Some(path) => if output_is_dir {
            Ok(path)
        } else {
            Err(not_a_directory_text(path))
        },
        None => match current_dir {
            Ok(dir) => Ok(dir@),
            Err(cause) => Err("Error retrieving current directory: "@ + cause@),
        },
    }
}

/// A text or an error, as plain values.
pub open spec fn outcome_text(res: Result<String, HandlerError>) -> Result<Seq<char>, Seq<char>> {
    match res {
        Ok(text) => Ok(text@),
        Err(e) => Err(e.text()),
    }
}

/// A decision on an installation with its error, if any, as its message;
/// `None` where nothing is to be installed.
pub open spec fn step_view(res: Result<Option<InstallAction>, HandlerError>) -> Option<
    Result<InstallAction, Seq<char>>,
> {
    match res {
        Ok(Some(action)) => Some(Ok(action)),
        Ok(None) => None,
        Err(e) => Some(Err(e.text())),
    }
}

/// What to do with what the last read of the download gave.
#[derive(Debug)]
pub enum DownloadStep {
    /// Write the first `bytes` bytes of the buffer, count `total` bytes as
    /// saved so far, and read on.
    Write { bytes: usize, total: u64 },
    /// The stream is at its end: the download is complete.
    Done,
    /// The read failed: the download is broken off, and `cause` says why.
    Failed { cause: String },
}

/// What follows a read that gave `read`, after `total_bytes` bytes were
/// saved: an empty read ends the download, a failed read breaks it off with
/// its cause, and any other read is written and counted.
pub open spec fn next_step(total_bytes: u64, read: Result<usize, String>) -> DownloadStep {
    match read {
        Ok(bytes) => if bytes == 0 {
            DownloadStep::Done
        } else {
            DownloadStep::Write { bytes, total: (total_bytes + bytes) as u64 }
        },
        Err(cause) => DownloadStep::Failed { cause },
    }
}

/// What is downloaded, and where it is saved.
pub struct DownloadPlan {
    pub asset: Asset,
    pub output_path: String,
}

/// A download of one asset of a repository's release.
pub struct DownloadHandler {
    pub repository: Repository,
    pub mode: DownloadMode,
    pub tag: Option<Tag>,
    pub output: Option<String>,
    pub install: bool,
    pub install_new: Install,
}

impl DownloadHandler {
    /// Whether the two records of the installation agree: `install` says
    /// that the download is installed exactly if `install_new` names an
    /// executable.
    pub open spec fn is_consistent(&self) -> bool {
        self.install == (self.install_new is Yes)
    }

    pub fn new(
        repository: Repository,
        select: Option<String>,
        automatic: bool,
        tag: Option<String>,
        output: Option<String>,
        install: Option<Option<String>>,
    ) -> (res: DownloadHandler)
        ensures
            res.is_consistent(),
            res.repository == repository,
            match select {
                Some(name) => res.mode == DownloadMode::Selection(name),
                None => res.mode == if automatic {
                    DownloadMode::Automatic
                } else {
                    DownloadMode::Interactive
                },
            },
            match tag {
                Some(t) => res.tag matches Some(made) && made.0 == t,
                None => res.tag is None,
            },
            res.output == output,
            res.install == install.is_some(),
            match install {
                None => res.install_new == Install::No,
                Some(None) => res.install_new matches Install::Yes(name) && name@
                    == repository.repo@,
                Some(Some(given)) => res.install_new == Install::Yes(given),
            },
    {
        let install_new = Install::new(install, &repository);
        let tag = match tag {
            Some(t) => Some(Tag(t)),
            None => None,
        };
        DownloadHandler {
            repository,
            mode: DownloadMode::new(select, automatic),
            tag,
            output,
            install: install_new.as_bool(),
            install_new,
        }
    }

    /// Whether `res` is the outcome of choosing an asset of `release` in
    /// this download's mode, on the host `os` and `arch`, where the user, if
    /// asked, picked `picked`.
    pub open spec fn selected(
        &self,
        release: &Release,
        os: Seq<char>,
        arch: Seq<char>,
        picked: Option<usize>,
        version: Seq<char>,
        res: Result<Asset, HandlerError>,
    ) -> bool {
        match self.mode {
            DownloadMode::Interactive => asked(release.assets@, picked, res),
            DownloadMode::Selection(untagged) => autoselected(release, untagged@, res),
            DownloadMode::Automatic => match res {
                Ok(asset) => exists|i: int|
                    is_first_fit(os, arch, release.assets@, i) && asset
                        == #[trigger] release.assets@[i],
                Err(e) => none_fits(os, arch, release.assets@) && e.text() == automatic_error_text(
                    version,
                    self.repository.spec_full_name(),
                    release.tag.0@,
                    os,
                    arch,
                ),
            },
        }
    }

    /// Whether this download is to be installed into a path that the user
    /// gave and that is no directory.
    pub open spec fn installs_into_no_directory(&self, output_is_dir: bool) -> bool {
        self.install_new is Yes && self.output is Some && !output_is_dir
    }

    /// Plans the download of an asset of `release`. A download that is to
    /// be installed into a path that is no directory is refused before
    /// anything else is done. Else the asset is chosen (see
    /// [`Self::select_asset`]) and with it the path to save it at (see
    /// [`Self::choose_output_path`]).
    pub fn run(
        &self,
        release: &Release,
        os: &str,
        arch: &str,
        picked: Option<usize>,
        output_is_dir: bool,
        temp_file: &str,
        version: &str,
    ) -> (res: Result<DownloadPlan, HandlerError>)
        ensures
            self.installs_into_no_directory(output_is_dir) ==> (res matches Err(e) && e.text()
                == not_a_directory_text(self.output->Some_0@)),
            !self.installs_into_no_directory(output_is_dir) ==> match res {
                Ok(plan) => self.selected(release, os@, arch@, picked, version@, Ok(plan.asset))
                    && plan.output_path@ == chosen_path(
                    text_view(self.output),
                    self.install,
                    plan.asset.name@,
                    output_is_dir,
                    temp_file@,
                ),
                Err(e) => self.selected(release, os@, arch@, picked, version@, Err(e)),
            },
    {
        if self.install_new.as_bool() && !output_is_dir {
            match &self.output {
                Some(path) => {
                    return Err(Self::not_a_directory(path.as_str()));
                },
                None => {},
            }
        }
        match self.select_asset(release, os, arch, picked, version) {
            Ok(asset) => {
                let output_path = self.choose_output_path(
                    asset.name.as_str(),
                    output_is_dir,
                    temp_file,
                );
                Ok(DownloadPlan { asset, output_path })
            },
            Err(e) => Err(e),
        }
    }

    /// The error for a path that was to be a directory and is none.
    pub fn not_a_directory(path: &str) -> (res: HandlerError)
        ensures
            res.text() == not_a_directory_text(path@),
    {
        let mut out = String::from_str(path);
        out.append(" is not a directory");
        HandlerError::new(out)
    }

    /// Chooses the asset of `release` in this download's mode: the one the
    /// user picked, the one the user named, or the first that fits the host.
    pub fn select_asset(
        &self,
        release: &Release,
        os: &str,
        arch: &str,
        picked: Option<usize>,
        version: &str,
    ) -> (res: Result<Asset, HandlerError>)
        ensures
            self.selected(release, os@, arch@, picked, version@, res),
    {
        match &self.mode {
            DownloadMode::Interactive => Self::ask_select_asset(&release.assets, picked),
            DownloadMode::Selection(untagged) => Self::autoselect_asset(release, untagged.as_str()),
            DownloadMode::Automatic => match find_asset_by_system(os, arch, &release.assets) {
                Some(asset) => Ok(asset),
                None => Err(
                    Self::automatic_download_error(&self.repository, &release.tag, os, arch, version),
                ),
            },
        }
    }

    /// The named asset where the user named one, else the one the user
    /// picked.
    pub fn autoselect_or_ask_asset(
        select: Option<&String>,
        release: &Release,
        picked: Option<usize>,
    ) -> (res: Result<Asset, HandlerError>)
        ensures
            match select {
                Some(untagged) => autoselected(release, untagged@, res),
                None => asked(release.assets@, picked, res),
            },
    {
        match select {
            Some(untagged) => Self::autoselect_asset(release, untagged.as_str()),
            None => Self::ask_select_asset(&release.assets, picked),
        }
    }

    /// The error for a release without an asset for the host `os` and
    /// `arch`. It names the host and gives the address of a bug report that
    /// is filled in with `version`, the repository, the release and the host.
    pub fn automatic_download_error(
        repository: &Repository,
        release: &Tag,
        os: &str,
        arch: &str,
        version: &str,
    ) -> (res: HandlerError)
        ensures
            res.text() == automatic_error_text(
                version@,
                repository.spec_full_name(),
                release.0@,
                os@,
                arch@,
            ),
    {
        let title = url_encode("Error: automatic download of asset");
        let mut body = String::from_str("## dra version\n");
        body.append(version);
        body.append("\n## Bug report\nRepository: ");
        body.append(repository.full_name().as_str());
        body.append("\nRelease: ");
        body.append(release.0.as_str());
        body.append("\nOS: ");
        body.append(os);
        body.append("\nARCH: ");
        body.append(arch);
        let body = url_encode(body.as_str());
        let mut issue = String::from_str("https://github.com/devmatteini/dra/issues/new?title=");
        issue.append(title.as_str());
        issue.append("&body=");
        issue.append(body.as_str());
        let mut out = String::from_str("Cannot find asset that matches your system ");
        out.append(os);
        out.append(" ");
        out.append(arch);
        out.append("\nIf you think this is a bug, please report the issue: ");
        out.append(issue.as_str());
        HandlerError::new(out)
    }

    /// Looks up the asset that `untagged` stands for in `release`: the one
    /// asset whose name is the tagged name. No such asset, or more than one,
    /// is an error.
    pub fn autoselect_asset(release: &Release, untagged: &str) -> (res: Result<Asset, HandlerError>)
        ensures
            autoselected(release, untagged@, res),
    {
        let asset_name = TaggedAsset::tag(&release.tag, untagged);
        let mut found: Option<usize> = None;
        let mut twice = false;
        let mut i: usize = 0;
        while i < release.assets.len()
            invariant
                i <= release.assets.len(),
                asset_name@ == tagged_name(release.tag.0@, untagged@),
                match found {
                    Some(f) => f < i && release.assets@[f as int].name@ == asset_name@ && forall|
                        j: int,
                    |
                        0 <= j < f ==> (#[trigger] release.assets@[j]).name@ != asset_name@,
                    None => forall|j: int|
                        0 <= j < i ==> (#[trigger] release.assets@[j]).name@ != asset_name@,
                },
                twice ==> exists|a: int, b: int|
                    0 <= a < b < i && (#[trigger] release.assets@[a]).name@ == asset_name@ && (
                    #[trigger] release.assets@[b]).name@ == asset_name@,
                !twice ==> forall|j: int|
                    0 <= j < i && !(found matches Some(f) && f == j) ==> (
                    #[trigger] release.assets@[j]).name@ != asset_name@,
            decreases release.assets.len() - i,
        {
            if release.assets[i].name == asset_name {
                match found {
                    Some(f) => {
                        twice = true;
                        assert(release.assets@[f as int].name@ == asset_name@
                            && release.assets@[i as int].name@ == asset_name@);
                    },
                    None => {
                        found = Some(i);
                    },
                }
            }
            i += 1;
        }
        match found {
            Some(f) => {
                if !twice {
                    let asset = release.assets[f].duplicate();
                    assert(is_only_match(release.assets@, asset_name@, f as int) && asset
                        == release.assets@[f as int]);
                    return Ok(asset);
                }
            },
            None => {},
        }
        let mut out = String::from_str("No asset found for ");
        out.append(untagged);
        Err(HandlerError::new(out))
    }

    /// The asset that the user picked among `assets`; an error where the
    /// user picked none.
    pub fn ask_select_asset(assets: &Vec<Asset>, picked: Option<usize>) -> (res: Result<
        Asset,
        HandlerError,
    >)
        ensures
            asked(assets@, picked, res),
    {
        match picked {
            Some(i) => if i < assets.len() {
                return Ok(assets[i].duplicate());
            },
            None => {},
        }
        Err(HandlerError::new(String::from_str("No asset selected")))
    }

    /// One step of saving the asset: what to do after a read of the stream
    /// gave `read`, with `total_bytes` bytes saved so far. The download is
    /// complete only at the end of the stream. A failed read breaks it off
    /// and is reported with [`Self::read_err`]; a write that then fails is
    /// reported with [`Self::write_err`].
    pub fn download_asset(total_bytes: u64, read: Result<usize, String>) -> (res: DownloadStep)
        requires
            read matches Ok(bytes) ==> total_bytes + bytes <= u64::MAX,
        ensures
            res == next_step(total_bytes, read),
            read matches Err(cause) ==> res == (DownloadStep::Failed { cause }),
            res is Done <==> read == Ok::<usize, String>(0),
    {
        match read {
            Ok(bytes) => if bytes == 0 {
                DownloadStep::Done
            } else {
                DownloadStep::Write { bytes, total: total_bytes + bytes as u64 }
            },
            Err(cause) => DownloadStep::Failed { cause },
        }
    }

    /// The error for an asset `asset_name` whose download broke off while
    /// it was read.
    pub fn read_err(asset_name: &str, error: &str) -> (res: HandlerError)
        ensures
            res.text() == "Error reading "@ + asset_name@ + ": "@ + error@,
    {
        let mut out = String::from_str("Error reading ");
        out.append(asset_name);
        out.append(": ");
        out.append(error);
        HandlerError::new(out)
    }

    /// Where this download is saved; see [`chosen_path`].
    pub fn choose_output_path(&self, asset_name: &str, output_is_dir: bool, temp_file: &str) -> (res:
        String)
        ensures
            res@ == chosen_path(
                text_view(self.output),
                self.install,
                asset_name@,
                output_is_dir,
                temp_file@,
            ),
    {
        choose_output_path_from(
            self.output.as_ref(),
            self.install,
            asset_name,
            output_is_dir,
            temp_file,
        )
    }

    /// The directory to install into: the path that the user gave, which
    /// must be a directory, else the current directory, which must be known.
    pub fn output_dir_or_cwd(&self, output_is_dir: bool, current_dir: Result<String, String>) -> (res:
        Result<String, HandlerError>)
        ensures
            outcome_text(res) == destination(
                text_view(self.output),
                output_is_dir,
                current_dir,
            ),
    {
        match &self.output {
            Some(path) => Self::dir_or_error(path.as_str(), output_is_dir),
            None => match current_dir {
                Ok(dir) => Ok(dir),
                Err(cause) => {
                    let mut out = String::from_str("Error retrieving current directory: ");
                    out.append(cause.as_str());
                    Err(HandlerError::new(out))
                },
            },
        }
    }

    /// `path` where it is a directory, else the error that says it is none.
    pub fn dir_or_error(path: &str, is_dir: bool) -> (res: Result<String, HandlerError>)
        ensures
            is_dir ==> (res matches Ok(dir) && dir@ == path@),
            !is_dir ==> (res matches Err(e) && e.text() == not_a_directory_text(path@)),
    {
        if is_dir {
            Ok(String::from_str(path))
        } else {
            Err(Self::not_a_directory(path))
        }
    }

    /// Decides how the downloaded asset is installed, if it is to be. With
    /// no installation asked for there is nothing to do. Else the
    /// destination must be a directory, and the asset's format decides the
    /// rest (see [`install`]).
    pub fn maybe_install(
        &self,
        asset_name: &str,
        path: &str,
        contents: &[u8],
        executable_file: bool,
        output_is_dir: bool,
        current_dir: Result<String, String>,
    ) -> (res: Result<Option<InstallAction>, HandlerError>)
        ensures
            match self.install_new {
                Install::No => res matches Ok(None),
                Install::Yes(executable_name) => match destination(
                    text_view(self.output),
                    output_is_dir,
                    current_dir,
                ) {
                    Ok(dir) => step_view(res) matches Some(step) && decides(
                        asset_name@,
                        path@,
                        contents@,
                        executable_file,
                        dir,
                        executable_name@,
                        step,
                    ),
                    Err(text) => res matches Err(e) && e.text() == text,
                },
            },
    {
        match &self.install_new {
            Install::No => Ok(None),
            Install::Yes(executable_name) => {
                let destination_dir = match self.output_dir_or_cwd(output_is_dir, current_dir) {
                    Ok(dir) => dir,
                    Err(e) => {
                        return Err(e);
                    },
                };
                Self::install_asset(
                    asset_name,
                    path,
                    contents,
                    executable_file,
                    destination_dir.as_str(),
                    executable_name.as_str(),
                )
            },
        }
    }

    /// Decides how the asset is installed into `destination_dir`; an error
    /// of the installation becomes an error of the download with the same
    /// message.
    pub fn install_asset(
        asset_name: &str,
        path: &str,
        contents: &[u8],
        executable_file: bool,
        destination_dir: &str,
        executable_name: &str,
    ) -> (res: Result<Option<InstallAction>, HandlerError>)
        ensures
            step_view(res) matches Some(step) && decides(
                asset_name@,
                path@,
                contents@,
                executable_file,
                destination_dir@,
                executable_name@,
                step,
            ),
    {
        match install(asset_name, path, contents, executable_file, destination_dir, executable_name) {
            Ok(action) => Ok(Some(action)),
            Err(e) => Err(Self::install_error(&e)),
        }
    }

    /// The error of a download whose installation failed with `e`.
    pub fn install_error(e: &InstallError) -> (res: HandlerError)
        ensures
            res.text() == e.text(),
    {
        HandlerError::new(e.to_string())
    }

    /// The error for an asset `asset_name` that could not be written to
    /// `output_path`.
    pub fn write_err(asset_name: &str, output_path: &str, error: &str) -> (res: HandlerError)
        ensures
            res.text() == "Error saving "@ + asset_name@ + " to "@ + output_path@ + ": "@ + error@,
    {
        let mut out = String::from_str("Error saving ");
        out.append(asset_name);
        out.append(" to ");
        out.append(output_path);
        out.append(": ");
        out.append(error);
        HandlerError::new(out)
    }

    /// The error for a file `path` that could not be created.
    pub fn create_file_error(path: &str, error: &str) -> (res: HandlerError)
        ensures
            res.text() == "Failed to create the file "@ + path@ + ": "@ + error@,
    {
        let mut out = String::from_str("Failed to create the file ");
        out.append(path);
        out.append(": ");
        out.append(error);
        HandlerError::new(out)
    }

    /// The error for a release that could not be fetched.
    pub fn release_error(error: &str) -> (res: HandlerError)
        ensures
            res.text() == "Error fetching the release: "@ + error@,
    {
        let mut out = String::from_str("Error fetching the release: ");
        out.append(error);
        HandlerError::new(out)
    }

    /// The error for an asset that could not be downloaded.
    pub fn download_error(error: &str) -> (res: HandlerError)
        ensures
            res.text() == "Error downloading asset: "@ + error@,
    {
        let mut out = String::from_str("Error downloading asset: ");
        out.append(error);
        HandlerError::new(out)
    }
}

} // verus!

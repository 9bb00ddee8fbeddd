//! What an installation writes or runs, decided from the downloaded bytes.

use vstd::prelude::*;
use vstd::string::*;
use vstd::slice::slice_to_vec;
use vstd::utf8::{decode_utf8, valid_utf8};
use crate::codec::{bz2_decode, bz2_decoded, gz_decode, gz_decoded, text_from_utf8, xz_decode, xz_decoded};
use crate::format::{classify, format_of, ClassifiedFile, FormatTag};
use crate::text::{chars_of, ends_with, has_suffix, join_path, joined_path, same_chars, signed_decimal, signed_text};

verus! {

/// The permission bits of an installed executable where the host has them.
pub const EXECUTABLE_MODE: u32 = 0o755;

/// The name of the package manager that installs Debian packages.
pub open spec fn dpkg() -> Seq<char> {
    "dpkg"@
}

/// A failure that ends the installation. Nothing is tried again.
pub enum InstallError {
    Fatal(String),
}

impl InstallError {
    /// The message of this error.
    pub open spec fn text(&self) -> Seq<char> {
        match self {
            InstallError::Fatal(message) => message@,
        }
    }

    /// The message of this error, fit to be shown as it is.
    pub fn to_string(&self) -> (res: String)
        ensures
            res@ == self.text(),
    {
        match self {
            InstallError::Fatal(message) => message.clone(),
        }
    }

    /// The fatal error that says `message`, then a colon, then `cause`.
    pub fn fatal(message: &str, cause: &str) -> (res: InstallError)
        ensures
            res.text() == message@ + ": "@ + cause@,
    {
        let mut out = String::from_str(message);
        out.append(": ");
        out.append(cause);
        InstallError::Fatal(out)
    }
}

/// The steps of an installation at which the file system can fail.
#[derive(Clone, Copy, Debug, PartialEq, Eq, Structural)]
pub enum IoStage {
    Opening,
    Creating,
    Saving,
    Permissions,
}

/// How the message of a failure at `stage` begins.
pub open spec fn stage_prefix(stage: IoStage) -> Seq<char> {
    match stage {
        IoStage::Opening => "Error opening "@,
        IoStage::Creating => "Error creating "@,
        IoStage::Saving => "Error saving "@,
        IoStage::Permissions => "Cannot set executable permissions on "@,
    }
}

/// The message of a failure at `stage` on the file `path`, caused by `cause`.
pub open spec fn io_failure_text(stage: IoStage, path: Seq<char>, cause: Seq<char>) -> Seq<char> {
    stage_prefix(stage) + path + ": "@ + cause
}

/// The fatal error for a failure at `stage` on the file `path`. It carries
/// the path and the cause.
pub fn io_failure(stage: IoStage, path: &str, cause: &str) -> (res: InstallError)
    ensures
        res.text() == io_failure_text(stage, path@, cause@),
{
    let mut out = match stage {
        IoStage::Opening => String::from_str("Error opening "),
        IoStage::Creating => String::from_str("Error creating "),
        IoStage::Saving => String::from_str("Error saving "),
        IoStage::Permissions => String::from_str("Cannot set executable permissions on "),
    };
    out.append(path);
    out.append(": ");
    out.append(cause);
    InstallError::Fatal(out)
}

/// What became of the attempt to set the permission bits of the file
/// `path`: nothing to report where it went well, else a fatal error that
/// carries the path and the cause.
pub fn set_executable_permissions(path: &str, outcome: Result<(), String>) -> (res: Result<
    (),
    InstallError,
>)
    ensures
        match outcome {
            Ok(_) => res is Ok,
            Err(cause) => res matches Err(e) && e.text() == io_failure_text(
                IoStage::Permissions,
                path@,
                cause@,
            ),
        },
{
    match outcome {
        Ok(_) => Ok(()),
        Err(cause) => Err(io_failure(IoStage::Permissions, path, cause.as_str())),
    }
}

/// The name that the installed executable gets, whatever the downloaded
/// file called it.
pub struct Executable {
    pub name: String,
}

impl Executable {
    pub fn new(name: String) -> (res: Executable)
        ensures
            res.name == name,
    {
        Executable { name }
    }

    pub fn name(&self) -> (res: &str)
        ensures
            res@ == self.name@,
    {
        self.name.as_str()
    }
}

/// A file that the installation asks to be written: where, with which
/// bytes, and with which permission bits on hosts that have them.
pub struct InstalledFile {
    pub path: String,
    pub contents: Vec<u8>,
    pub mode: u32,
}

/// A file to write, as plain values: its path and its bytes.
pub struct FileModel {
    pub path: Seq<char>,
    pub contents: Seq<u8>,
}

/// What an installer gives, as plain values: the file to write, or the
/// message of the fatal error.
pub open spec fn install_view(res: Result<InstalledFile, InstallError>) -> Result<
    FileModel,
    Seq<char>,
> {
    match res {
        Ok(file) => Ok(FileModel { path: file.path@, contents: file.contents@ }),
        Err(e) => Err(e.text()),
    }
}

/// What installing decoded data gives: the bytes at `name` inside
/// `destination`, or, where decoding failed, the error of saving there.
pub open spec fn placed(
    decoded: Result<Seq<u8>, Seq<char>>,
    destination: Seq<char>,
    name: Seq<char>,
) -> Result<FileModel, Seq<char>> {
    match decoded {
        Ok(bytes) => Ok(FileModel { path: joined_path(destination, name), contents: bytes }),
        Err(cause) => Err(io_failure_text(IoStage::Saving, joined_path(destination, name), cause)),
    }
}

/// The decoded side of a decoder's outcome, as plain values.
pub open spec fn outcome_view(decoded: Result<Vec<u8>, String>) -> Result<Seq<u8>, Seq<char>> {
    match decoded {
        Ok(bytes) => Ok(bytes@),
        Err(cause) => Err(cause@),
    }
}

/// Installs files that hold one compressed stream and nothing else.
pub struct CompressedFileInstaller;

impl CompressedFileInstaller {
    /// Installs gzip data: the decoded bytes go to the executable's name
    /// inside `destination_dir`, with the executable permission bits.
    pub fn gz(contents: &[u8], destination_dir: &str, executable: &Executable) -> (res: Result<
        InstalledFile,
        InstallError,
    >)
        ensures
            install_view(res) == placed(gz_decoded(contents@), destination_dir@, executable.name@),
            res matches Ok(file) ==> file.mode == EXECUTABLE_MODE,
    {
        Self::decompress_and_move(gz_decode(contents), destination_dir, executable)
    }

    /// Installs xz data: the decoded bytes go to the executable's name
    /// inside `destination_dir`, with the executable permission bits.
    pub fn xz(contents: &[u8], destination_dir: &str, executable: &Executable) -> (res: Result<
        InstalledFile,
        InstallError,
    >)
        ensures
            install_view(res) == placed(xz_decoded(contents@), destination_dir@, executable.name@),
            res matches Ok(file) ==> file.mode == EXECUTABLE_MODE,
    {
        Self::decompress_and_move(xz_decode(contents), destination_dir, executable)
    }

    /// Installs bzip2 data: the decoded bytes go to the executable's name
    /// inside `destination_dir`, with the executable permission bits.
    pub fn bz2(contents: &[u8], destination_dir: &str, executable: &Executable) -> (res: Result<
        InstalledFile,
        InstallError,
    >)
        ensures
            install_view(res) == placed(bz2_decoded(contents@), destination_dir@, executable.name@),
            res matches Ok(file) ==> file.mode == EXECUTABLE_MODE,
    {
        Self::decompress_and_move(bz2_decode(contents), destination_dir, executable)
    }

    /// Places what a decoder gave: its bytes become the executable inside
    /// `destination_dir`; its error becomes the fatal error of saving there.
    pub fn decompress_and_move(
        decoded: Result<Vec<u8>, String>,
        destination_dir: &str,
        executable: &Executable,
    ) -> (res: Result<InstalledFile, InstallError>)
        ensures
            install_view(res) == placed(outcome_view(decoded), destination_dir@, executable.name@),
            res matches Ok(file) ==> file.mode == EXECUTABLE_MODE,
    {
        let path = join_path(destination_dir, executable.name());
        match decoded {
            Ok(bytes) => Ok(InstalledFile { path, contents: bytes, mode: EXECUTABLE_MODE }),
            Err(cause) => Err(io_failure(IoStage::Saving, path.as_str(), cause.as_str())),
        }
    }
}

/// Installs a file that is an executable already.
pub struct RawExecutableInstaller;

impl RawExecutableInstaller {
    /// The bytes of the file, unchanged, go to the executable's name inside
    /// `destination_dir`, with the executable permission bits.
    pub fn run(contents: &[u8], destination_dir: &str, executable: &Executable) -> (res:
        InstalledFile)
        ensures
            res.path@ == joined_path(destination_dir@, executable.name@),
            res.contents@ == contents@,
            res.mode == EXECUTABLE_MODE,
    {
        InstalledFile {
            path: join_path(destination_dir, executable.name()),
            contents: slice_to_vec(contents),
            mode: EXECUTABLE_MODE,
        }
    }
}

/// A program to run, with its arguments in order.
pub struct CommandLine {
    pub program: String,
    pub args: Vec<String>,
}

/// Installs Debian packages by way of the package manager.
pub struct DebianInstaller;

impl DebianInstaller {
    /// The command that installs the package: `dpkg --install` and the
    /// file's path. Whether it succeeded is for [`exec_command`] to say.
    pub fn run(file_info: &ClassifiedFile) -> (res: CommandLine)
        ensures
            res.program@ == dpkg(),
            res.args@.len() == 2,
            res.args@[0]@ == "--install"@,
            res.args@[1]@ == file_info.path@,
    {
        let mut args: Vec<String> = Vec::new();
        args.push(String::from_str("--install"));
        args.push(file_info.path.clone());
        CommandLine { program: String::from_str("dpkg"), args }
    }
}

/// How the run of an outside program ended.
pub enum CommandOutcome {
    /// The program could not be started; the text says why.
    NotStarted(String),
    /// The program ran: whether it reported success, its exit code if it
    /// ended with one, and what it wrote to its error stream.
    Finished { success: bool, code: Option<i32>, stderr: Vec<u8> },
}

/// The exit code as it stands in a message: its decimal form, or `NA` where
/// the program ended without one.
pub open spec fn status_text(code: Option<i32>) -> Seq<char> {
    match code {
        Some(c) => signed_decimal(c as int),
        None => "NA"@,
    }
}

/// The error stream as it stands in a message: its text, or a stock phrase
/// where it is no valid UTF-8.
pub open spec fn stderr_text(name: Seq<char>, stderr: Seq<u8>) -> Seq<char> {
    if valid_utf8(stderr) {
        decode_utf8(stderr)
    } else {
        "Unknown "@ + name + " error"@
    }
}

/// The message for a program `name` that ran and failed.
pub open spec fn failure_text(name: Seq<char>, code: Option<i32>, stderr: Seq<u8>) -> Seq<char> {
    "An error occurred while executing (status: "@ + status_text(code) + "):\n  "@ + stderr_text(
        name,
        stderr,
    )
}

/// The message for a program `name` that could not be started.
pub open spec fn spawn_failure_text(name: Seq<char>, cause: Seq<char>) -> Seq<char> {
    "An error occurred executing '"@ + name + "'"@ + ": "@ + cause
}

/// Judges a program that ran: success is success, anything else is a fatal
/// error with the exit code and the error stream in its message.
pub fn handle_command_output(name: &str, success: bool, code: Option<i32>, stderr: Vec<u8>) -> (res:
    Result<(), InstallError>)
    ensures
        success ==> res is Ok,
        !success ==> (res matches Err(e) && e.text() == failure_text(name@, code, stderr@)),
{
    if success {
        return Ok(());
    }
    let mut out = String::from_str("An error occurred while executing (status: ");
    match code {
        Some(c) => {
            let digits = signed_text(c);
            out.append(digits.as_str());
        },
        None => {
            out.append("NA");
        },
    }
    out.append("):\n  ");
    match text_from_utf8(stderr) {
        Some(text) => {
            out.append(text.as_str());
        },
        None => {
            let mut stock = String::from_str("Unknown ");
            stock.append(name);
            stock.append(" error");
            out.append(stock.as_str());
        },
    }
    Err(InstallError::Fatal(out))
}

/// Judges the run of the program `name`: a program that could not be
/// started and one that failed are both fatal.
pub fn exec_command(name: &str, outcome: CommandOutcome) -> (res: Result<(), InstallError>)
    ensures
        match outcome {
            CommandOutcome::NotStarted(cause) => res matches Err(e) && e.text()
                == spawn_failure_text(name@, cause@),
            CommandOutcome::Finished { success, code, stderr } => {
                &&& success ==> res is Ok
                &&& !success ==> (res matches Err(e) && e.text() == failure_text(
                    name@,
                    code,
                    stderr@,
                ))
            },
        },
{
    match outcome {
        CommandOutcome::NotStarted(cause) => {
            let mut message = String::from_str("An error occurred executing '");
            message.append(name);
            message.append("'");
            Err(InstallError::fatal(message.as_str(), cause.as_str()))
        },
        CommandOutcome::Finished { success, code, stderr } => handle_command_output(
            name,
            success,
            code,
            stderr,
        ),
    }
}

/// What became of the attempt to delete the downloaded file.
pub enum Removal {
    /// The file was deleted.
    Removed,
    /// There was no such file any more.
    Missing,
    /// The file is still there; the text says why.
    Failed(String),
}

/// The warning that a cleanup leaves, if any: only a file that could not be
/// deleted gives one.
pub open spec fn cleanup_warning(path: Seq<char>, removal: Removal) -> Option<Seq<char>> {
    match removal {
        Removal::Failed(cause) => Some("Error removing "@ + path + ": "@ + cause@),
        _ => None,
    }
}

/// The end of an installation: deleting the downloaded file.
pub struct InstallCleanup;

impl InstallCleanup {
    /// Ends an installation whose result is `result`, after the attempt to
    /// delete the downloaded file `path` ended as `removal`. The result
    /// comes back as it was, whatever became of the file. A file that could
    /// not be deleted leaves a warning beside it; one that was gone already
    /// leaves none.
    pub fn cleanup<T>(result: Result<T, InstallError>, path: &str, removal: Removal) -> (res: (
        Result<T, InstallError>,
        Option<String>,
    ))
        ensures
            res.0 == result,
            match cleanup_warning(path@, removal) {
                Some(text) => res.1 matches Some(w) && w@ == text,
                None => res.1 is None,
            },
    {
        match removal {
            Removal::Failed(cause) => {
                let mut out = String::from_str("Error removing ");
                out.append(path);
                out.append(": ");
                out.append(cause.as_str());
                (result, Some(out))
            },
            _ => (result, None),
        }
    }
}

/// Cleaning up again after the file is gone changes nothing and warns of
/// nothing: the second attempt finds the file missing.
pub proof fn lemma_cleanup_twice_is_quiet(path: Seq<char>)
    ensures
        cleanup_warning(path, Removal::Missing) is None,
        cleanup_warning(path, Removal::Removed) is None,
{
}

/// Whether the archive entry `entry` is the file called `name`: it is that
/// name, or a path whose last component is that name.
pub open spec fn entry_is(entry: Seq<char>, name: Seq<char>) -> bool {
    entry == name || ends_with(entry, seq!['/'] + name)
}

/// Whether the entry at index `i` is the first that is the file `name`.
pub open spec fn is_first_entry(entries: Seq<String>, name: Seq<char>, i: int) -> bool {
    0 <= i < entries.len() && entry_is(entries[i]@, name) && forall|j: int|
        0 <= j < i ==> !entry_is((#[trigger] entries[j])@, name)
}

/// Whether `res` is the choice among `entries` for the executable `name`:
/// the first entry that carries the name; where none does, the only entry
/// of an archive that has just one; else none.
pub open spec fn picks(entries: Seq<String>, name: Seq<char>, res: Option<usize>) -> bool {
    match res {
        Some(i) => is_first_entry(entries, name, i as int) || (i == 0 && entries.len() == 1
            && !entry_is(entries[0]@, name)),
        None => entries.len() != 1 && forall|j: int|
            0 <= j < entries.len() ==> !entry_is((#[trigger] entries[j])@, name),
    }
}

/// The message for an archive that holds no entry for the executable.
pub open spec fn no_entry_text(archive: Seq<char>, name: Seq<char>) -> Seq<char> {
    "No executable "@ + name + " found in "@ + archive
}

/// Installs an executable that lies inside a zip archive.
pub struct ZipInstaller;

impl ZipInstaller {
    /// Which entry of an archive is the executable: the first that carries
    /// the executable's name; where none does, the only entry of an archive
    /// that has just one; else none.
    pub fn pick_entry(entries: &Vec<String>, executable: &Executable) -> (res: Option<usize>)
        ensures
            picks(entries@, executable.name@, res),
    {
        let name = chars_of(executable.name());
        let mut tail: Vec<char> = Vec::new();
        tail.push('/');
        let mut k: usize = 0;
        while k < name.len()
            invariant
                k <= name.len(),
                tail@ == seq!['/'] + name@.subrange(0, k as int),
            decreases name.len() - k,
        {
            tail.push(name[k]);
            k += 1;
        }
        assert(name@.subrange(0, name.len() as int) == name@);
        let mut i: usize = 0;
        while i < entries.len()
            invariant
                i <= entries.len(),
                name@ == executable.name@,
                tail@ == seq!['/'] + name@,
                forall|j: int| 0 <= j < i ==> !entry_is((#[trigger] entries@[j])@, executable.name@),
            decreases entries.len() - i,
        {
            let entry = chars_of(entries[i].as_str());
            if same_chars(&entry, &name) || has_suffix(&entry, &tail) {
                return Some(i);
            }
            i += 1;
        }
        if entries.len() == 1 {
            Some(0)
        } else {
            None
        }
    }

    /// The entry of the archive `archive` that is the executable (see
    /// [`Self::pick_entry`]); an archive without one is a fatal error that
    /// names the executable and the archive.
    pub fn find_entry(entries: &Vec<String>, archive: &str, executable: &Executable) -> (res:
        Result<usize, InstallError>)
        ensures
            match res {
                Ok(i) => picks(entries@, executable.name@, Some(i)),
                Err(e) => picks(entries@, executable.name@, None) && e.text() == no_entry_text(
                    archive@,
                    executable.name@,
                ),
            },
    {
        match Self::pick_entry(entries, executable) {
            Some(i) => Ok(i),
            None => {
                let mut out = String::from_str("No executable ");
                out.append(executable.name());
                out.append(" found in ");
                out.append(archive);
                Err(InstallError::Fatal(out))
            },
        }
    }
}

/// What the caller is to do to finish an installation.
pub enum InstallAction {
    /// Write this file.
    Write(InstalledFile),
    /// Run this command and hand its outcome to [`exec_command`].
    Run(CommandLine),
    /// List the entries of the zip archive `archive`, let
    /// [`ZipInstaller::find_entry`] choose the one for `executable`, and
    /// write it to `target`.
    Unpack { archive: String, target: String, executable: String },
}

/// The file that `res` asks to be written, or the message of its error, as
/// plain values; `None` where it asks for something else.
pub open spec fn written(res: Result<InstallAction, Seq<char>>) -> Option<
    Result<FileModel, Seq<char>>,
> {
    match res {
        Ok(InstallAction::Write(file)) => Some(
            Ok(FileModel { path: file.path@, contents: file.contents@ }),
        ),
        Ok(_) => None,
        Err(text) => Some(Err(text)),
    }
}

/// The outcome of a decision with its error, if any, as its message.
pub open spec fn decision_view(res: Result<InstallAction, InstallError>) -> Result<
    InstallAction,
    Seq<char>,
> {
    match res {
        Ok(action) => Ok(action),
        Err(e) => Err(e.text()),
    }
}

/// The message that refuses a file whose format is not supported.
pub open spec fn unsupported_text(asset_name: Seq<char>) -> Seq<char> {
    asset_name + " is not supported"@
}

/// Whether `res` is the decision on a file published as `asset_name`, lying
/// at `path` and holding `contents`, to be installed as `executable_name`
/// inside `destination_dir`.
pub open spec fn decides(
    asset_name: Seq<char>,
    path: Seq<char>,
    contents: Seq<u8>,
    executable_file: bool,
    destination_dir: Seq<char>,
    executable_name: Seq<char>,
    res: Result<InstallAction, Seq<char>>,
) -> bool {
    &&& match format_of(asset_name, executable_file) {
        FormatTag::Gzip => written(res) == Some(
            placed(gz_decoded(contents), destination_dir, executable_name),
        ),
        FormatTag::Xz => written(res) == Some(
            placed(xz_decoded(contents), destination_dir, executable_name),
        ),
        FormatTag::Bzip2 => written(res) == Some(
            placed(bz2_decoded(contents), destination_dir, executable_name),
        ),
        FormatTag::RawExecutable => written(res) == Some(
            Ok::<FileModel, Seq<char>>(
                FileModel {
                    path: joined_path(destination_dir, executable_name),
                    contents: contents,
                },
            ),
        ),
        FormatTag::DebianPackage => res matches Ok(InstallAction::Run(command)) && command.program@
            == dpkg() && command.args@.len() == 2 && command.args@[0]@ == "--install"@
            && command.args@[1]@ == path,
        FormatTag::Zip => res matches Ok(InstallAction::Unpack { archive, target, executable })
            && archive@ == path && target@ == joined_path(destination_dir, executable_name)
            && executable@ == executable_name,
        FormatTag::Unsupported => res == Err::<InstallAction, Seq<char>>(
            unsupported_text(asset_name),
        ),
    }
    &&& res matches Ok(InstallAction::Write(file)) ==> file.mode == EXECUTABLE_MODE
}

/// Decides how the downloaded file is installed. The file was published as
/// `asset_name`, lies at `path` and holds `contents`; `executable_file` says
/// whether it carries the host's marks of an executable. Its format, read
/// from `asset_name`, picks exactly one way: compressed data is decoded and
/// written as `executable_name` inside `destination_dir`, an executable is
/// written there as it is, a Debian package is handed to the package
/// manager, a zip archive is to be unpacked, and any other file is refused.
pub fn install(
    asset_name: &str,
    path: &str,
    contents: &[u8],
    executable_file: bool,
    destination_dir: &str,
    executable_name: &str,
) -> (res: Result<InstallAction, InstallError>)
    ensures
        decides(
            asset_name@,
            path@,
            contents@,
            executable_file,
            destination_dir@,
            executable_name@,
            decision_view(res),
        ),
{
    let file_info = classify(path, asset_name, executable_file);
    let executable = Executable::new(String::from_str(executable_name));
    match file_info.format {
        FormatTag::Gzip => match CompressedFileInstaller::gz(contents, destination_dir, &executable) {
            Ok(file) => Ok(InstallAction::Write(file)),
            Err(e) => Err(e),
        },
        FormatTag::Xz => match CompressedFileInstaller::xz(contents, destination_dir, &executable) {
            Ok(file) => Ok(InstallAction::Write(file)),
            Err(e) => Err(e),
        },
        FormatTag::Bzip2 => match CompressedFileInstaller::bz2(
            contents,
            destination_dir,
            &executable,
        ) {
            Ok(file) => Ok(InstallAction::Write(file)),
            Err(e) => Err(e),
        },
        FormatTag::RawExecutable => Ok(
            InstallAction::Write(RawExecutableInstaller::run(contents, destination_dir, &executable)),
        ),
        FormatTag::DebianPackage => Ok(InstallAction::Run(DebianInstaller::run(&file_info))),
        FormatTag::Zip => Ok(
            InstallAction::Unpack {
                archive: file_info.path,
                target: join_path(destination_dir, executable_name),
                executable: String::from_str(executable_name),
            },
        ),
        FormatTag::Unsupported => {
            let mut out = String::from_str(asset_name);
            out.append(" is not supported");
            Err(InstallError::Fatal(out))
        },
    }
}

} // verus!

//! Putting the directory of the installed binary on the search path.
//!
//! Nothing here touches a file or runs a command. For a shell
//! configuration file the functions compute the new content from the old
//! one; for Windows they compose the command that edits the user's `PATH`.
use vstd::prelude::*;
use vstd::string::*;
use crate::text::{
    contains_spec,
    copy_text,
    join_texts,
    joined_spec,
    lines_spec,
    split_lines,
    split_on,
    split_spec,
    text_contains,
    texts_view,
    trim_spec,
    trimmed,
};

verus! {

/// The family of operating system.
#[derive(Debug, Clone, Copy, PartialEq, Eq, Structural)]
pub enum Platform {
    Windows,
    Linux,
    MacOS,
}

/// What is to be done to put a directory on the search path, or to take
/// it off.
#[derive(Debug)]
pub enum PathEdit {
    /// Nothing: the content is as it should be.
    Unchanged,
    /// The file is to hold this content.
    Rewrite(String),
    /// This PowerShell command is to be run.
    Command(String),
}

/// The view of a [`PathEdit`].
pub enum PathEditView {
    Unchanged,
    Rewrite(Seq<char>),
    Command(Seq<char>),
}

impl View for PathEdit {
    type V = PathEditView;

    open spec fn view(&self) -> PathEditView {
        match self {
            PathEdit::Unchanged => PathEditView::Unchanged,
            PathEdit::Rewrite(content) => PathEditView::Rewrite(content@),
            PathEdit::Command(command) => PathEditView::Command(command@),
        }
    }
}

/// The family that an operating system's name stands for: `windows`,
/// `macos`, and Linux for every other.
pub open spec fn platform_spec(os: Seq<char>) -> Platform {
    if os == "windows"@ {
        Platform::Windows
    } else if os == "macos"@ {
        Platform::MacOS
    } else {
        Platform::Linux
    }
}

/// The shell configuration files of a platform, in the order in which
/// they are tried.
pub open spec fn shell_config_files_spec(platform: Platform) -> Seq<Seq<char>> {
    match platform {
        Platform::Windows => seq![],
        Platform::Linux => seq![".bashrc"@, ".zshrc"@, ".profile"@, ".bash_profile"@],
        Platform::MacOS => seq![".zshrc"@, ".bash_profile"@, ".profile"@],
    }
}

/// The comment that precedes the line added to a shell file.
pub open spec fn marker_spec() -> Seq<char> {
    "# Added by rustalk"@
}

/// The shell line that puts `path` in front of the search path.
pub open spec fn export_line_spec(path: Seq<char>) -> Seq<char> {
    "export PATH=\""@ + path + ":$PATH\""@
}

/// The content of a shell file after `path` was added: the old content,
/// closed by a line end, then the comment and the export line.
pub open spec fn added_spec(content: Seq<char>, path: Seq<char>) -> Seq<char> {
    let closed = if content.len() > 0 && content.last() == '\n' {
        content
    } else {
        content.push('\n')
    };
    closed + marker_spec() + "\n"@ + export_line_spec(path) + "\n"@
}

/// The PowerShell command that appends `path` to the user's `PATH`
/// unless it is there.
pub open spec fn windows_add_spec(path: Seq<char>) -> Seq<char> {
    "$env:PATH = [Environment]::GetEnvironmentVariable('PATH', 'User'); if ($env:PATH -notlike '*"@
        + path + "*') { [Environment]::SetEnvironmentVariable('PATH', $env:PATH + ';"@ + path
        + "', 'User') }"@
}

/// The PowerShell command that takes `path` out of the user's `PATH`.
pub open spec fn windows_remove_spec(path: Seq<char>) -> Seq<char> {
    "$currentPath = [Environment]::GetEnvironmentVariable('PATH', 'User'); $newPath = ($currentPath -split ';' | Where-Object { $_ -ne '"@
        + path + "' }) -join ';'; [Environment]::SetEnvironmentVariable('PATH', $newPath, 'User')"@
}

/// What the edit of a shell file for adding `path` is.
pub open spec fn add_edit_spec(platform: Platform, content: Seq<char>, path: Seq<char>)
    -> PathEditView {
    match platform {
        Platform::Windows => PathEditView::Command(windows_add_spec(path)),
        _ => if contains_spec(content, path) {
            PathEditView::Unchanged
        } else {
            PathEditView::Rewrite(added_spec(content, path))
        },
    }
}

/// The lines kept, and whether the next line follows the comment, after
/// the first `n` lines were read. The comment line goes; so does every line
/// that mentions `path`.
pub open spec fn kept_after(lines: Seq<Seq<char>>, path: Seq<char>, n: nat) -> (
    Seq<Seq<char>>,
    bool,
)
    decreases n,
{
    if n == 0 {
        (Seq::empty(), false)
    } else {
        let (kept, follows) = kept_after(lines, path, (n - 1) as nat);
        let line = lines[n - 1];
        if follows && contains_spec(line, path) {
            (kept, false)
        } else if trim_spec(line) == marker_spec() {
            (kept, true)
        } else if !contains_spec(line, path) {
            (kept.push(line), false)
        } else {
            (kept, false)
        }
    }
}

/// The content of a shell file after `path` was taken out.
pub open spec fn removed_spec(content: Seq<char>, path: Seq<char>) -> Seq<char> {
    joined_spec(
        kept_after(lines_spec(content), path, lines_spec(content).len()).0,
        "\n"@,
    )
}

/// What the edit of a shell file for removing `path` is.
pub open spec fn remove_edit_spec(platform: Platform, content: Seq<char>, path: Seq<char>)
    -> PathEditView {
    match platform {
        Platform::Windows => PathEditView::Command(windows_remove_spec(path)),
        _ => if removed_spec(content, path) == content {
            PathEditView::Unchanged
        } else {
            PathEditView::Rewrite(removed_spec(content, path))
        },
    }
}

/// The character between the entries of the search path.
pub open spec fn separator_spec(platform: Platform) -> char {
    match platform {
        Platform::Windows => ';',
        _ => ':',
    }
}

/// Some entry of the search path `path_var` is the directory `path`,
/// letter for letter.
pub open spec fn in_path_spec(platform: Platform, path_var: Seq<char>, path: Seq<char>) -> bool {
    let entries = split_spec(path_var, separator_spec(platform));
    exists|i: int| 0 <= i < entries.len() && #[trigger] entries[i] == path
}

impl Platform {
    /// The platform of the operating system named `os`.
    pub fn current(os: &str) -> (platform: Platform)
        ensures
            platform == platform_spec(os@),
    {
        let name = os.to_string();
        if name == "windows".to_string() {
            Platform::Windows
        } else if name == "macos".to_string() {
            Platform::MacOS
        } else {
            Platform::Linux
        }
    }

    /// The shell configuration files of the platform.
    pub fn shell_config_files(&self) -> (files: Vec<&'static str>)
        ensures
            files@.len() == shell_config_files_spec(*self).len(),
            forall|i: int|
                0 <= i < files@.len() ==> (#[trigger] files@[i])@ == shell_config_files_spec(
                    *self,
                )[i],
    {
        let mut files: Vec<&'static str> = Vec::new();
        match self {
            Platform::Windows => {},
            Platform::Linux => {
                files.push(".bashrc");
                files.push(".zshrc");
                files.push(".profile");
                files.push(".bash_profile");
            },
            Platform::MacOS => {
                files.push(".zshrc");
                files.push(".bash_profile");
                files.push(".profile");
            },
        }
        files
    }
}

/// The directory of the installed binary, and the platform it runs on.
#[derive(Debug)]
pub struct PathManager {
    pub binary_path: String,
    pub platform: Platform,
}

impl PathManager {
    /// A manager for the directory `binary_path` on `platform`.
    pub fn new(binary_path: String, platform: Platform) -> (manager: PathManager)
        ensures
            manager.binary_path == binary_path,
            manager.platform == platform,
    {
        PathManager { binary_path, platform }
    }

    /// Whether the directory is an entry of the search path `path_var`.
    pub fn is_in_path(&self, path_var: &str) -> (found: bool)
        ensures
            found == in_path_spec(self.platform, path_var@, self.binary_path@),
    {
        let separator = match self.platform {
            Platform::Windows => ';',
            _ => ':',
        };
        let entries = split_on(path_var, separator);
        let mut i: usize = 0;
        while i < entries.len()
            invariant
                i <= entries@.len(),
                texts_view(entries@) == split_spec(path_var@, separator_spec(self.platform)),
                forall|j: int|
                    0 <= j < i ==> #[trigger] texts_view(entries@)[j] != self.binary_path@,
            decreases entries@.len() - i,
        {
            assert(texts_view(entries@)[i as int] == entries@[i as int]@);
            if entries[i] == self.binary_path {
                return true;
            }
            i += 1;
        }
        false
    }

    /// The edit that puts the directory on the search path, given the
    /// content of a shell configuration file. On Windows it is a command; on
    /// the others a file that mentions the directory stays as it is, and any
    /// other gains the comment and the export line.
    pub fn add_to_path(&self, content: &str) -> (edit: PathEdit)
        ensures
            edit@ == add_edit_spec(self.platform, content@, self.binary_path@),
    {
        let path = self.binary_path.as_str();
        match self.platform {
            Platform::Windows => PathEdit::Command(
                String::from_str(
                    "$env:PATH = [Environment]::GetEnvironmentVariable('PATH', 'User'); if ($env:PATH -notlike '*",
                ).concat(path).concat(
                    "*') { [Environment]::SetEnvironmentVariable('PATH', $env:PATH + ';",
                ).concat(path).concat("', 'User') }"),
            ),
            _ => {
                if text_contains(content, path) {
                    PathEdit::Unchanged
                } else {
                    let mut text = content.to_string();
                    let len = content.unicode_len();
                    let closed = len > 0 && content.get_char(len - 1) == '\n';
                    if !closed {
                        text.append("\n");
                        proof {
                            reveal_strlit("\n");
                            assert("\n"@ =~= seq!['\n']);
                            assert(content@ + "\n"@ =~= content@.push('\n'));
                        }
                    }
                    text.append("# Added by rustalk");
                    text.append("\n");
                    text.append("export PATH=\"");
                    text.append(path);
                    text.append(":$PATH\"");
                    text.append("\n");
                    assert(text@ =~= added_spec(content@, self.binary_path@));
                    PathEdit::Rewrite(text)
                }
            },
        }
    }

    /// The edit that takes the directory off the search path, given the
    /// content of a shell configuration file. On Windows it is a command; on
    /// the others the comment and every line that mentions the directory go,
    /// and a file that holds neither stays as it is.
    pub fn remove_from_path(&self, content: &str) -> (edit: PathEdit)
        ensures
            edit@ == remove_edit_spec(self.platform, content@, self.binary_path@),
    {
        let path = self.binary_path.as_str();
        match self.platform {
            Platform::Windows => PathEdit::Command(
                String::from_str(
                    "$currentPath = [Environment]::GetEnvironmentVariable('PATH', 'User'); $newPath = ($currentPath -split ';' | Where-Object { $_ -ne '",
                ).concat(path).concat(
                    "' }) -join ';'; [Environment]::SetEnvironmentVariable('PATH', $newPath, 'User')",
                ),
            ),
            _ => {
                let lines = split_lines(content);
                let marker = "# Added by rustalk".to_string();
                let mut kept: Vec<String> = Vec::new();
                let mut follows = false;
                let mut i: usize = 0;
                while i < lines.len()
                    invariant
                        i <= lines@.len(),
                        marker@ == marker_spec(),
                        path@ == self.binary_path@,
                        (texts_view(kept@), follows) == kept_after(
                            texts_view(lines@),
                            path@,
                            i as nat,
                        ),
                    decreases lines@.len() - i,
                {
                    let ghost before = texts_view(kept@);
                    let line = &lines[i];
                    assert(texts_view(lines@)[i as int] == line@);
                    let mentions = text_contains(line.as_str(), path);
                    if follows && mentions {
                        follows = false;
                    } else if trimmed(line.as_str()) == marker {
                        follows = true;
                    } else {
                        if !mentions {
                            kept.push(copy_text(line));
                            assert(texts_view(kept@) =~= before.push(line@));
                        }
                        follows = false;
                    }
                    i += 1;
                }
                let text = join_texts(&kept, 0, "\n");
                assert(texts_view(kept@).subrange(0, kept@.len() as int) =~= texts_view(kept@));
                if text == content.to_string() {
                    PathEdit::Unchanged
                } else {
                    PathEdit::Rewrite(text)
                }
            },
        }
    }

    /// The directory of the installed binary.
    pub fn get_install_location(&self) -> (path: &String)
        ensures
            path == self.binary_path,
    {
        &self.binary_path
    }

    /// The platform.
    pub fn get_platform(&self) -> (platform: &Platform)
        ensures
            *platform == self.platform,
    {
        &self.platform
    }
}

} // verus!

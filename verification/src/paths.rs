//! Locations of the files that the application keeps.

use std::path::PathBuf;
use vstd::prelude::*;

verus! {

/// A path of the operating system.
#[verifier::external_type_specification]
#[verifier::external_body]
pub struct ExPathBuf(PathBuf);

/// `PathBuf::clone`: a copy is the same path.
pub assume_specification[ <PathBuf as Clone>::clone ](path: &PathBuf) -> (copy: PathBuf)
    ensures
        copy == *path,
;

/// Where a path starts.
#[derive(Debug, PartialEq, Eq)]
pub enum PathBase {
    /// A path that the operating system gave.
    System(PathBuf),
    /// A path written as text.
    Text(String),
}

/// Where a path starts.
pub ghost enum BaseView {
    System(PathBuf),
    Text(Seq<char>),
}

impl View for PathBase {
    type V = BaseView;

    open spec fn view(&self) -> BaseView {
        match self {
            PathBase::System(path) => BaseView::System(*path),
            PathBase::Text(text) => BaseView::Text(text@),
        }
    }
}

impl Clone for PathBase {
    fn clone(&self) -> (copy: Self)
        ensures
            copy == *self,
    {
        match self {
            PathBase::System(path) => PathBase::System(path.clone()),
            PathBase::Text(text) => PathBase::Text(text.clone()),
        }
    }
}

/// A starting point and the names below it that lead to a file or directory.
#[derive(Debug, PartialEq, Eq)]
pub struct AppPath {
    /// Where the path starts.
    pub base: PathBase,
    /// The names to follow from there, outermost first.
    pub names: Vec<String>,
}

/// Where a path starts and the names that follow.
pub ghost struct PathView {
    pub base: BaseView,
    pub names: Seq<Seq<char>>,
}

impl PathView {
    /// The entry `name` of this directory.
    pub open spec fn child(self, name: Seq<char>) -> PathView {
        PathView { base: self.base, names: self.names.push(name) }
    }
}

impl View for AppPath {
    type V = PathView;

    open spec fn view(&self) -> PathView {
        PathView { base: self.base@, names: self.names@.map_values(|name: String| name@) }
    }
}

/// What an optional path leads to.
pub open spec fn optional_path(path: Option<AppPath>) -> Option<PathView> {
    match path {
        Some(p) => Some(p@),
        None => None,
    }
}

impl Clone for AppPath {
    fn clone(&self) -> (copy: Self)
        ensures
            copy@ == self@,
    {
        let mut names: Vec<String> = Vec::new();
        let mut at: usize = 0;
        while at < self.names.len()
            invariant
                at <= self.names@.len(),
                names@ == self.names@.take(at as int),
            decreases self.names@.len() - at,
        {
            names.push(self.names[at].clone());
            at = at + 1;
        }
        assert(names@ =~= self.names@);
        AppPath { base: self.base.clone(), names }
    }
}

impl AppPath {
    /// The path `base` itself.
    pub fn at(base: PathBase) -> (path: AppPath)
        ensures
            path@ == (PathView { base: base@, names: Seq::empty() }),
    {
        let path: AppPath = AppPath { base, names: Vec::new() };
        assert(path@.names =~= Seq::empty());
        path
    }

    /// The entry `name` of this directory.
    pub fn child(&self, name: &str) -> (path: AppPath)
        ensures
            path@ == self@.child(name@),
    {
        let mut path: AppPath = self.clone();
        path.names.push(name.to_owned());
        assert(path@.names =~= self@.names.push(name@));
        path
    }
}

/// A change to the file system that the application asks for.
#[derive(Debug, PartialEq, Eq)]
pub enum FileStep {
    /// Create the directory that holds the configuration file at this path, if
    /// the path has one above it.
    CreateConfigDir(AppPath),
    /// Create the directory for the data of the embedded browser.
    CreateDataDir(AppPath),
    /// Create the directory that holds the file at this path, if the path has
    /// one above it.
    CreateParentDir(AppPath),
    /// Write the configuration file.
    WriteConfig(AppPath),
    /// Write the list of seen messages.
    WriteSeenCache(AppPath),
}

/// A change to the file system that the application asks for.
pub ghost enum FileStepView {
    CreateConfigDir(PathView),
    CreateDataDir(PathView),
    CreateParentDir(PathView),
    WriteConfig(PathView),
    WriteSeenCache(PathView),
}

impl View for FileStep {
    type V = FileStepView;

    open spec fn view(&self) -> FileStepView {
        match self {
            FileStep::CreateConfigDir(path) => FileStepView::CreateConfigDir(path@),
            FileStep::CreateDataDir(path) => FileStepView::CreateDataDir(path@),
            FileStep::CreateParentDir(path) => FileStepView::CreateParentDir(path@),
            FileStep::WriteConfig(path) => FileStepView::WriteConfig(path@),
            FileStep::WriteSeenCache(path) => FileStepView::WriteSeenCache(path@),
        }
    }
}

impl FileStepView {
    /// The path that the step is about.
    pub open spec fn path(self) -> PathView {
        match self {
            FileStepView::CreateConfigDir(path) => path,
            FileStepView::CreateDataDir(path) => path,
            FileStepView::CreateParentDir(path) => path,
            FileStepView::WriteConfig(path) => path,
            FileStepView::WriteSeenCache(path) => path,
        }
    }

    /// What is said where the step fails, before the path of the file or
    /// directory.
    pub open spec fn failure(self) -> Seq<char> {
        match self {
            FileStepView::CreateConfigDir(_) => "failed to create config directory "@,
            FileStepView::CreateDataDir(_) => "failed to create webview data directory "@,
            FileStepView::CreateParentDir(_) => "failed to create directory "@,
            FileStepView::WriteConfig(_) => "failed to write config to "@,
            FileStepView::WriteSeenCache(_) => "failed to write seen cache to "@,
        }
    }
}

impl FileStep {
    /// The path that the step is about.
    pub fn path(&self) -> (path: &AppPath)
        ensures
            path@ == self@.path(),
    {
        match self {
            FileStep::CreateConfigDir(path) => path,
            FileStep::CreateDataDir(path) => path,
            FileStep::CreateParentDir(path) => path,
            FileStep::WriteConfig(path) => path,
            FileStep::WriteSeenCache(path) => path,
        }
    }

    /// What is said where the step fails; `shown` is the path of the file that
    /// could not be written or of the directory that could not be made, as text.
    pub fn failure_message(&self, shown: &str) -> (message: String)
        ensures
            message@ == self@.failure() + shown@,
    {
        let failure: &str = match self {
            FileStep::CreateConfigDir(_) => "failed to create config directory ",
            FileStep::CreateDataDir(_) => "failed to create webview data directory ",
            FileStep::CreateParentDir(_) => "failed to create directory ",
            FileStep::WriteConfig(_) => "failed to write config to ",
            FileStep::WriteSeenCache(_) => "failed to write seen cache to ",
        };
        let mut message: String = failure.to_owned();
        message.append(shown);
        message
    }
}

/// A directory.
pub ghost enum DirView {
    /// The directory at this path.
    At(PathView),
    /// The directory that holds what is at this path.
    Holding(PathView),
}

/// What is on a disk: directories, each with all above it, and the bytes of
/// files; and which paths are tops, that is, have nothing above them, as the
/// root has.
#[verifier::ext_equal]
pub ghost struct DiskView {
    pub dirs: Set<DirView>,
    pub files: Map<PathView, Seq<u8>>,
    pub tops: Set<PathView>,
}

impl DiskView {
    /// A step has been taken; a file that is written gets `payload`. Making a
    /// directory keeps what is in it.
    pub open spec fn after(self, step: FileStepView, payload: Seq<u8>) -> DiskView {
        match step {
            FileStepView::CreateConfigDir(path) => self.with_parent(path),
            FileStepView::CreateDataDir(path) => self.with_dir(DirView::At(path)),
            FileStepView::CreateParentDir(path) => self.with_parent(path),
            FileStepView::WriteConfig(path) => self.with_file(path, payload),
            FileStepView::WriteSeenCache(path) => self.with_file(path, payload),
        }
    }

    /// A directory is there.
    pub open spec fn with_dir(self, dir: DirView) -> DiskView {
        DiskView { dirs: self.dirs.insert(dir), ..self }
    }

    /// The directory that holds what is at `path` is there. Above a top there
    /// is none to make.
    pub open spec fn with_parent(self, path: PathView) -> DiskView {
        if self.tops.contains(path) {
            self
        } else {
            self.with_dir(DirView::Holding(path))
        }
    }

    /// A file holds these bytes.
    pub open spec fn with_file(self, path: PathView, bytes: Seq<u8>) -> DiskView {
        DiskView { files: self.files.insert(path, bytes), ..self }
    }

    /// Steps have been taken one after the other.
    pub open spec fn after_all(self, steps: Seq<FileStepView>, payload: Seq<u8>) -> DiskView
        decreases steps.len(),
    {
        if steps.len() == 0 {
            self
        } else {
            self.after_all(steps.drop_last(), payload).after(steps.last(), payload)
        }
    }
}

} // verus!

//! A fuzz project: where its files lie, which targets it declares, and how
//! the package that it fuzzes is found.

use vstd::prelude::*;
use vstd::string::*;
use crate::manifest::{
    collect_targets, is_fuzz_manifest, package_name, parse, reading, refuses,
    spec_collect_targets, spec_is_fuzz_manifest, spec_package_name, Node, ParseError, Reading,
};
use crate::paths::{join, joined, parent, parent_of, set_extension, with_extension};

verus! {

/// Why a project cannot be had.
#[derive(Debug)]
pub enum ProjectError {
    /// The manifest at `path` is no document that can be read.
    Undecodable { path: String, cause: ParseError },
    /// A manifest is no document that can be read; where it lies is not
    /// told.
    Toml { cause: ParseError },
    /// The manifest at `path` does not mark its package as a fuzz package.
    NotFuzzManifest { path: String },
    /// The manifest at `path` names no package.
    NoPackageName { path: String },
    /// No directory from the start upwards holds the manifest of a package
    /// that is to be fuzzed.
    NoProject,
}

/// The directory of the fuzz package below the package at `root`.
pub open spec fn fuzz_dir(root: Seq<char>) -> Seq<char> {
    joined(root, "fuzz"@)
}

/// The manifest in a directory.
pub open spec fn manifest_in(dir: Seq<char>) -> Seq<char> {
    joined(dir, "Cargo.toml"@)
}

/// The directory of the scripts of the fuzz targets.
pub open spec fn fuzzers_dir(root: Seq<char>) -> Seq<char> {
    joined(fuzz_dir(root), "fuzzers"@)
}

/// The script of a fuzz target: in the directory `fuzzers` of the fuzz
/// package, named after the target, with the extension `rs`.
pub open spec fn target_script(root: Seq<char>, target: Seq<char>) -> Seq<char> {
    with_extension(joined(fuzzers_dir(root), target), "rs"@)
}

/// The directory of the inputs that a target has gathered.
pub open spec fn corpus_dir(root: Seq<char>, target: Seq<char>) -> Seq<char> {
    joined(joined(fuzz_dir(root), "corpus"@), target)
}

/// The directory of the inputs on which a target failed. The empty part at
/// its end makes the path end in a separator: the fuzzer puts file names
/// right behind it.
pub open spec fn artifacts_dir(root: Seq<char>, target: Seq<char>) -> Seq<char> {
    joined(joined(joined(fuzz_dir(root), "artifacts"@), target), ""@)
}

/// A fuzz project as the contracts see it.
pub struct FuzzProjectView {
    /// The directory of the package that is fuzzed.
    pub root: Seq<char>,
    /// The names of the fuzz targets, in the order of the manifest.
    pub targets: Seq<Seq<char>>,
}

/// A fuzz project.
pub struct FuzzProject {
    /// The directory of the package that is fuzzed: not the one with the
    /// fuzz targets, which lies below it.
    root_project: String,
    targets: Vec<String>,
}

impl View for FuzzProject {
    type V = FuzzProjectView;

    closed spec fn view(&self) -> FuzzProjectView {
        FuzzProjectView { root: self.root_project@, targets: self.targets.deep_view() }
    }
}

/// The project that a manifest describes, where it is the manifest of a
/// fuzz package.
pub open spec fn project_of(root: Seq<char>, manifest: Node) -> Option<FuzzProjectView> {
    if spec_is_fuzz_manifest(manifest) {
        Some(FuzzProjectView { root, targets: spec_collect_targets(manifest) })
    } else {
        None
    }
}

impl FuzzProject {
    /// The project of the package at `root_project`, before anything is
    /// known of its targets.
    pub fn at(root_project: String) -> (r: FuzzProject)
        ensures
            r@ == (FuzzProjectView { root: root_project@, targets: Seq::empty() }),
    {
        let targets: Vec<String> = Vec::new();
        assert(targets.deep_view() =~= Seq::<Seq<char>>::empty());
        FuzzProject { root_project, targets }
    }

    /// The project of the package at `root_project`, from the manifest of
    /// its fuzz package. A manifest that does not mark its package as a fuzz
    /// package is refused, with the path at which it lies.
    pub fn from_manifest(root_project: String, manifest: &Node) -> (r: Result<
        FuzzProject,
        ProjectError,
    >)
        ensures
            match project_of(root_project@, *manifest) {
                Some(project) => r matches Ok(p) && p@ == project,
                None => r matches Err(ProjectError::NotFuzzManifest { path }) && path@
                    == manifest_in(fuzz_dir(root_project@)),
            },
    {
        let mut project = FuzzProject::at(root_project);
        if !is_fuzz_manifest(manifest) {
            return Err(ProjectError::NotFuzzManifest { path: project.manifest_path() });
        }
        project.targets = collect_targets(manifest);
        Ok(project)
    }

    /// The project of the package at `root_project`, from the bytes of the
    /// manifest of its fuzz package. Bytes that are no document are
    /// refused, and so is a manifest that does not mark its package as a
    /// fuzz package; either error holds the path of the manifest.
    pub fn new(root_project: String, manifest: &[u8]) -> (r: Result<FuzzProject, ProjectError>)
        ensures
            match reading(manifest@) {
                Reading::Document(document) => match project_of(root_project@, document) {
                    Some(project) => r matches Ok(p) && p@ == project,
                    None => r matches Err(ProjectError::NotFuzzManifest { path }) && path@
                        == manifest_in(fuzz_dir(root_project@)),
                },
                _ => r matches Err(ProjectError::Undecodable { path, cause }) && path@
                    == manifest_in(fuzz_dir(root_project@)) && refuses(manifest@, cause),
            },
    {
        match parse(manifest) {
            Ok(document) => FuzzProject::from_manifest(root_project, &document),
            Err(cause) => {
                let project = FuzzProject::at(root_project);
                Err(ProjectError::Undecodable { path: project.manifest_path(), cause })
            },
        }
    }

    /// The directory of the package that is fuzzed.
    pub fn root(&self) -> (r: &str)
        ensures
            r@ == self@.root,
    {
        self.root_project.as_str()
    }

    /// The names of the fuzz targets.
    pub fn targets(&self) -> (r: &Vec<String>)
        ensures
            r.deep_view() == self@.targets,
    {
        &self.targets
    }

    /// The directory of the fuzz package.
    pub fn path(&self) -> (r: String)
        ensures
            r@ == fuzz_dir(self@.root),
    {
        join(self.root_project.as_str(), "fuzz")
    }

    /// The manifest of the fuzz package.
    pub fn manifest_path(&self) -> (r: String)
        ensures
            r@ == manifest_in(fuzz_dir(self@.root)),
    {
        join(self.path().as_str(), "Cargo.toml")
    }

    /// The directory of the scripts of the fuzz targets.
    pub fn fuzzers_path(&self) -> (r: String)
        ensures
            r@ == fuzzers_dir(self@.root),
    {
        join(self.path().as_str(), "fuzzers")
    }

    /// The file that tells version control what to leave alone in the fuzz
    /// package.
    pub fn gitignore_path(&self) -> (r: String)
        ensures
            r@ == joined(fuzz_dir(self@.root), ".gitignore"@),
    {
        join(self.path().as_str(), ".gitignore")
    }

    /// The manifest of the package that is fuzzed.
    pub fn root_manifest_path(&self) -> (r: String)
        ensures
            r@ == manifest_in(self@.root),
    {
        join(self.root_project.as_str(), "Cargo.toml")
    }

    /// The directory of the inputs that `target` has gathered.
    pub fn corpus_for(&self, target: &str) -> (r: String)
        ensures
            r@ == corpus_dir(self@.root, target@),
    {
        let corpus = join(self.path().as_str(), "corpus");
        join(corpus.as_str(), target)
    }

    /// The directory of the inputs on which `target` failed, with a
    /// separator at its end.
    pub fn artifacts_for(&self, target: &str) -> (r: String)
        ensures
            r@ == artifacts_dir(self@.root, target@),
    {
        let artifacts = join(self.path().as_str(), "artifacts");
        let of_target = join(artifacts.as_str(), target);
        join(of_target.as_str(), "")
    }

    /// The script of the fuzz target `target`.
    pub fn target_path(&self, target: &str) -> (r: String)
        ensures
            r@ == target_script(self@.root, target@),
    {
        let script = join(self.fuzzers_path().as_str(), target);
        proof {
            reveal_strlit("rs");
        }
        set_extension(script.as_str(), "rs")
    }

    /// Reads the manifest of the fuzz package from its bytes. Bytes that
    /// are no document are refused, with the path of the manifest.
    pub fn manifest(&self, data: &[u8]) -> (r: Result<Node, ProjectError>)
        ensures
            match reading(data@) {
                Reading::Document(document) => r == Ok::<Node, ProjectError>(document),
                _ => r matches Err(ProjectError::Undecodable { path, cause }) && path@
                    == manifest_in(fuzz_dir(self@.root)) && refuses(data@, cause),
            },
    {
        match parse(data) {
            Ok(document) => Ok(document),
            Err(cause) => Err(ProjectError::Undecodable { path: self.manifest_path(), cause }),
        }
    }

    /// The name of the package that is fuzzed, from the bytes of its
    /// manifest. Bytes that are no document are refused, and so is a
    /// manifest without a text under `package`, under `name`; that error
    /// holds the path of the manifest.
    pub fn root_project_name(&self, data: &[u8]) -> (r: Result<String, ProjectError>)
        ensures
            match reading(data@) {
                Reading::Document(document) => match spec_package_name(document) {
                    Some(name) => r matches Ok(found) && found@ == name,
                    None => r matches Err(ProjectError::NoPackageName { path }) && path@
                        == manifest_in(self@.root),
                },
                _ => r matches Err(ProjectError::Toml { cause }) && refuses(data@, cause),
            },
    {
        match parse(data) {
            Ok(document) => match package_name(&document) {
                Some(name) => Ok(name),
                None => Err(ProjectError::NoPackageName { path: self.root_manifest_path() }),
            },
            Err(cause) => Err(ProjectError::Toml { cause }),
        }
    }
}

/// The search for the package that is to be fuzzed: from a directory
/// upwards, for the first manifest that is not the manifest of a fuzz
/// package. The driver reads the files; the search says which file is next
/// and what follows from what was read.
pub struct PackageSearch {
    dir: String,
    data: Vec<u8>,
}

/// Where a search stands after a step.
pub enum Search {
    /// The package lies in this directory.
    Found(String),
    /// The search goes on, one directory up.
    Next(PackageSearch),
    /// The search has failed.
    Failed(ProjectError),
}

/// `extra` put behind what `data` holds.
fn append_bytes(data: &mut Vec<u8>, extra: &[u8])
    ensures
        final(data)@ == old(data)@ + extra@,
{
    let mut i: usize = 0;
    while i < extra.len()
        invariant
            i <= extra.len(),
            data@ == old(data)@ + extra@.take(i as int),
        decreases extra.len() - i,
    {
        data.push(extra[i]);
        assert(extra@.take(i + 1) =~= extra@.take(i as int).push(extra@[i as int]));
        i += 1;
    }
    assert(extra@.take(extra.len() as int) =~= extra@);
}

impl PackageSearch {
    /// The directory that the search has come to.
    pub closed spec fn dir(&self) -> Seq<char> {
        self.dir@
    }

    /// The bytes of the manifests that were read on the way, one behind the
    /// other.
    pub closed spec fn data(&self) -> Seq<u8> {
        self.data@
    }

    /// A search that starts in `start`.
    pub fn new(start: String) -> (r: PackageSearch)
        ensures
            r.dir() == start@,
            r.data() == Seq::<u8>::empty(),
    {
        PackageSearch { dir: start, data: Vec::new() }
    }

    /// The file that the driver is to read next: the manifest in the
    /// directory that the search has come to.
    pub fn manifest_path(&self) -> (r: String)
        ensures
            r@ == manifest_in(self.dir()),
    {
        join(self.dir.as_str(), "Cargo.toml")
    }

    /// What is read after `contents` were read: the bytes read so far, with
    /// those of the file behind them where there was a file.
    pub open spec fn read(&self, contents: Option<&[u8]>) -> Seq<u8> {
        match contents {
            Some(bytes) => self.data() + bytes@,
            None => self.data(),
        }
    }

    /// Takes what the driver found at `manifest_path`: the bytes of the
    /// file, or nothing where no file could be opened. The bytes are put
    /// behind all that was read before, and the whole is read as one
    /// manifest. Where it is no document the search fails. Where it is
    /// the manifest of a package that is not a fuzz package, the package is
    /// found. Otherwise, and where there was no file, the search goes one
    /// directory up, and fails where there is none. The directory above
    /// has the shorter path, so a search that is carried on comes to its
    /// end.
    pub fn advance(self, contents: Option<&[u8]>) -> (r: Search)
        ensures
            ({
                let document = reading(self.read(contents));
                if contents is Some && !(document is Document) {
                    r matches Search::Failed(ProjectError::Undecodable { path, cause }) && path@
                        == manifest_in(self.dir()) && refuses(self.read(contents), cause)
                } else if contents is Some && !spec_is_fuzz_manifest(document->Document_0) {
                    r matches Search::Found(dir) && dir@ == self.dir()
                } else {
                    match parent_of(self.dir()) {
                        Some(above) => r matches Search::Next(next) && next.dir() == above
                            && next.data() == self.read(contents) && next.dir().len()
                            < self.dir().len(),
                        None => r matches Search::Failed(ProjectError::NoProject),
                    }
                }
            }),
    {
        let mut search = self;
        match contents {
            Some(bytes) => {
                append_bytes(&mut search.data, bytes);
                match parse(search.data.as_slice()) {
                    Err(cause) => {
                        return Search::Failed(
                            ProjectError::Undecodable { path: search.manifest_path(), cause },
                        );
                    },
                    Ok(document) => {
                        if !is_fuzz_manifest(&document) {
                            return Search::Found(search.dir);
                        }
                    },
                }
            },
            None => {},
        }
        match parent(search.dir.as_str()) {
            Some(above) => Search::Next(PackageSearch { dir: above, data: search.data }),
            None => Search::Failed(ProjectError::NoProject),
        }
    }
}

} // verus!

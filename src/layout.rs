use vstd::prelude::*;
use crate::digest::{generate_md5, md5_hex_of};

verus! {

/// A filesystem path as its sequence of components.
pub struct InstallPath {
    pub parts: Vec<String>,
}

impl View for InstallPath {
    type V = Seq<Seq<char>>;

    open spec fn view(&self) -> Seq<Seq<char>> {
        self.parts@.map_values(|p: String| p@)
    }
}

/// `dir` is `p` itself or one of its ancestors (component-wise prefix).
pub open spec fn under_or_eq(dir: Seq<Seq<char>>, p: Seq<Seq<char>>) -> bool {
    dir.len() <= p.len() && p.take(dir.len() as int) == dir
}

/// `p` lies strictly below `dir`.
pub open spec fn strictly_under(dir: Seq<Seq<char>>, p: Seq<Seq<char>>) -> bool {
    under_or_eq(dir, p) && dir.len() < p.len()
}

impl InstallPath {
    pub fn from_parts(parts: Vec<String>) -> (r: InstallPath)
        ensures
            r.parts@ == parts@,
    {
        InstallPath { parts }
    }

    /// A copy of this path.
    pub fn duplicate(&self) -> (r: InstallPath)
        ensures
            r@ == self@,
    {
        let mut parts: Vec<String> = Vec::new();
        let mut i: usize = 0;
        while i < self.parts.len()
            invariant
                i <= self.parts@.len(),
                parts@.len() == i,
                forall|j: int| 0 <= j < i ==> #[trigger] parts@[j]@ == self.parts@[j]@,
            decreases self.parts@.len() - i,
        {
            let c = self.parts[i].clone();
            parts.push(c);
            i = i + 1;
        }
        let r = InstallPath { parts };
        proof {
            assert(r@ =~= self@);
        }
        r
    }

    /// This path with one more component.
    pub fn join(&self, name: &str) -> (r: InstallPath)
        ensures
            r@ == self@.push(name@),
    {
        let mut r = self.duplicate();
        r.parts.push(String::from_str(name));
        proof {
            assert(r@ =~= self@.push(name@));
        }
        r
    }

    /// Whether this path is `dir` or lies below it, compared by whole
    /// components.
    pub fn starts_with(&self, dir: &InstallPath) -> (r: bool)
        ensures
            r == under_or_eq(dir@, self@),
    {
        if dir.parts.len() > self.parts.len() {
            return false;
        }
        let mut i: usize = 0;
        while i < dir.parts.len()
            invariant
                dir.parts@.len() <= self.parts@.len(),
                i <= dir.parts@.len(),
                forall|j: int| 0 <= j < i ==> self@[j] == dir@[j],
            decreases dir.parts@.len() - i,
        {
            if self.parts[i] != dir.parts[i] {
                proof {
                    assert(self@.take(dir@.len() as int)[i as int] != dir@[i as int]);
                }
                return false;
            }
            i = i + 1;
        }
        proof {
            assert(self@.take(dir@.len() as int) =~= dir@);
        }
        true
    }
}

} // verus!

verus! {

/// The versions root under an install root.
pub open spec fn versions_dir_of(root: Seq<Seq<char>>) -> Seq<Seq<char>> {
    root.push("Versions"@)
}

/// The scratch directory that holds the downloads of one install pass.
pub open spec fn downloads_dir_of(root: Seq<Seq<char>>) -> Seq<Seq<char>> {
    root.push("Downloads"@)
}

/// The directory of one installed release.
pub open spec fn version_dir_of(root: Seq<Seq<char>>, version: Seq<char>) -> Seq<Seq<char>> {
    versions_dir_of(root).push(version)
}

/// The settings file whose presence marks a completed install.
pub open spec fn marker_of(vdir: Seq<Seq<char>>) -> Seq<Seq<char>> {
    vdir.push("AppSettings.xml"@)
}

/// The client executable at the top of a version directory.
pub open spec fn default_exe_of(vdir: Seq<Seq<char>>) -> Seq<Seq<char>> {
    vdir.push("SyntaxPlayerBeta.exe"@)
}

/// The file in which a user names the compatibility-layer binary.
pub open spec fn compat_override_of(root: Seq<Seq<char>>) -> Seq<Seq<char>> {
    root.push("winepath.txt"@)
}

/// Where the download of `url` is cached under `prefix`.
pub open spec fn cache_path_of(prefix: Seq<Seq<char>>, url: Seq<char>) -> Seq<Seq<char>> {
    prefix.push(md5_hex_of(url))
}

/// The directories of one installation, all derived from its root.
pub struct Layout {
    pub root: InstallPath,
}

impl Layout {
    pub fn new(root: InstallPath) -> (r: Layout)
        ensures
            r.root@ == root@,
    {
        Layout { root }
    }

    pub fn install_root(&self) -> (r: InstallPath)
        ensures
            r@ == self.root@,
    {
        self.root.duplicate()
    }

    pub fn versions_dir(&self) -> (r: InstallPath)
        ensures
            r@ == versions_dir_of(self.root@),
    {
        self.root.join("Versions")
    }

    pub fn downloads_dir(&self) -> (r: InstallPath)
        ensures
            r@ == downloads_dir_of(self.root@),
    {
        self.root.join("Downloads")
    }

    pub fn version_dir(&self, version: &str) -> (r: InstallPath)
        ensures
            r@ == version_dir_of(self.root@, version@),
    {
        self.versions_dir().join(version)
    }

    pub fn compat_override_file(&self) -> (r: InstallPath)
        ensures
            r@ == compat_override_of(self.root@),
    {
        self.root.join("winepath.txt")
    }
}

/// The settings marker inside a version directory.
pub fn marker_path(vdir: &InstallPath) -> (r: InstallPath)
    ensures
        r@ == marker_of(vdir@),
{
    vdir.join("AppSettings.xml")
}

/// The default client executable inside a version directory.
pub fn default_executable(vdir: &InstallPath) -> (r: InstallPath)
    ensures
        r@ == default_exe_of(vdir@),
{
    vdir.join("SyntaxPlayerBeta.exe")
}

/// The file under `prefix` into which `url` is downloaded: its name is the
/// MD5 digest of the URL, so that downloads of one pass never collide.
pub fn download_path(prefix: &InstallPath, url: &str) -> (r: InstallPath)
    ensures
        r@ == cache_path_of(prefix@, url@),
{
    let name = generate_md5(url);
    prefix.join(name.as_str())
}

} // verus!

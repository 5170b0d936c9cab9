use syntax_bootstrapper::digest::generate_md5;
use syntax_bootstrapper::layout::{default_executable, download_path, marker_path, InstallPath, Layout};

fn path(parts: &[&str]) -> InstallPath {
    InstallPath::from_parts(parts.iter().map(|p| p.to_string()).collect())
}

#[test]
fn md5_of_known_inputs() {
    assert_eq!(generate_md5(""), "d41d8cd98f00b204e9800998ecf8427e");
    assert_eq!(generate_md5("abc"), "900150983cd24fb0d6963f7d28e17f72");
}

#[test]
fn download_is_named_by_url_digest() {
    let p = download_path(&path(&["/", "root", "Downloads"]), "abc");
    assert_eq!(p.parts, vec!["/", "root", "Downloads", "900150983cd24fb0d6963f7d28e17f72"]);
}

#[test]
fn layout_directories() {
    let layout = Layout::new(path(&["/", "data", "Syntax"]));
    assert_eq!(layout.versions_dir().parts, vec!["/", "data", "Syntax", "Versions"]);
    assert_eq!(layout.downloads_dir().parts, vec!["/", "data", "Syntax", "Downloads"]);
    let vdir = layout.version_dir("v1");
    assert_eq!(vdir.parts, vec!["/", "data", "Syntax", "Versions", "v1"]);
    assert_eq!(marker_path(&vdir).parts, vec!["/", "data", "Syntax", "Versions", "v1", "AppSettings.xml"]);
    assert_eq!(
        default_executable(&vdir).parts,
        vec!["/", "data", "Syntax", "Versions", "v1", "SyntaxPlayerBeta.exe"]
    );
    assert_eq!(layout.compat_override_file().parts, vec!["/", "data", "Syntax", "winepath.txt"]);
    assert_eq!(layout.install_root().parts, vec!["/", "data", "Syntax"]);
}

#[test]
fn starts_with_compares_whole_components() {
    let dir = path(&["/", "a", "b"]);
    assert!(path(&["/", "a", "b"]).starts_with(&dir));
    assert!(path(&["/", "a", "b", "x"]).starts_with(&dir));
    assert!(!path(&["/", "a", "bc"]).starts_with(&dir));
    assert!(!path(&["/", "a"]).starts_with(&dir));
    assert!(path(&["/", "a"]).starts_with(&path(&[])));
}

#[test]
fn join_and_duplicate() {
    let p = path(&["x"]);
    assert_eq!(p.join("y").parts, vec!["x", "y"]);
    assert_eq!(p.duplicate().parts, vec!["x"]);
}

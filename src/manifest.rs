use vstd::prelude::*;

verus! {

/// One archive of a release and the directory, relative to the version
/// directory, into which it is extracted.
pub struct Package {
    pub archive: String,
    pub dest: Vec<String>,
}

impl View for Package {
    type V = (Seq<char>, Seq<Seq<char>>);

    open spec fn view(&self) -> (Seq<char>, Seq<Seq<char>>) {
        (self.archive@, self.dest@.map_values(|d: String| d@))
    }
}

/// The payload of one release, in the order in which it is installed.
pub open spec fn manifest_of() -> Seq<(Seq<char>, Seq<Seq<char>>)> {
    seq![
        ("SyntaxApp.zip"@, seq![]),
        ("NPSyntaxProxy.zip"@, seq![]),
        ("SyntaxProxy.zip"@, seq![]),
        ("Libraries.zip"@, seq![]),
        ("redist.zip"@, seq![]),
        ("content-textures.zip"@, seq!["content"@, "textures"@]),
        ("content-textures2.zip"@, seq!["content"@, "textures"@]),
        ("content-fonts.zip"@, seq!["content"@, "fonts"@]),
        ("content-sounds.zip"@, seq!["content"@, "sounds"@]),
        ("content-sky.zip"@, seq!["content"@, "sky"@]),
        ("content-music.zip"@, seq!["content"@, "music"@]),
        ("content-particles.zip"@, seq!["content"@, "particles"@]),
        ("content-scripts.zip"@, seq!["content"@, "scripts"@]),
        ("content-terrain.zip"@, seq!["PlatformContent"@, "pc"@, "terrain"@]),
        ("content-textures3.zip"@, seq!["PlatformContent"@, "pc"@, "textures"@]),
        ("shaders.zip"@, seq!["shaders"@]),
        ("2018client.zip"@, seq!["Client2018"@]),
        ("2020client.zip"@, seq!["Client2020"@]),
        ("2014client.zip"@, seq!["Client2014"@]),
    ]
}

fn at_top(archive: &str) -> (r: Package)
    ensures
        r@ == (archive@, Seq::<Seq<char>>::empty()),
{
    let r = Package { archive: String::from_str(archive), dest: Vec::new() };
    proof {
        assert(r@.1 =~= Seq::<Seq<char>>::empty());
    }
    r
}

impl Package {
    /// The same archive, extracted one directory further down.
    fn under(self, dir: &str) -> (r: Package)
        ensures
            r@ == (self@.0, self@.1.push(dir@)),
    {
        let mut r = self;
        r.dest.push(String::from_str(dir));
        proof {
            assert(r@.1 =~= self@.1.push(dir@));
        }
        r
    }
}

/// The packages that make up one release.
pub fn package_manifest() -> (r: Vec<Package>)
    ensures
        r@.map_values(|p: Package| p@) == manifest_of(),
{
    let mut r: Vec<Package> = Vec::new();
    r.push(at_top("SyntaxApp.zip"));
    r.push(at_top("NPSyntaxProxy.zip"));
    r.push(at_top("SyntaxProxy.zip"));
    r.push(at_top("Libraries.zip"));
    r.push(at_top("redist.zip"));
    r.push(at_top("content-textures.zip").under("content").under("textures"));
    r.push(at_top("content-textures2.zip").under("content").under("textures"));
    r.push(at_top("content-fonts.zip").under("content").under("fonts"));
    r.push(at_top("content-sounds.zip").under("content").under("sounds"));
    r.push(at_top("content-sky.zip").under("content").under("sky"));
    r.push(at_top("content-music.zip").under("content").under("music"));
    r.push(at_top("content-particles.zip").under("content").under("particles"));
    r.push(at_top("content-scripts.zip").under("content").under("scripts"));
    r.push(at_top("content-terrain.zip").under("PlatformContent").under("pc").under("terrain"));
    r.push(at_top("content-textures3.zip").under("PlatformContent").under("pc").under("textures"));
    r.push(at_top("shaders.zip").under("shaders"));
    r.push(at_top("2018client.zip").under("Client2018"));
    r.push(at_top("2020client.zip").under("Client2020"));
    r.push(at_top("2014client.zip").under("Client2014"));
    proof {
        let m = manifest_of();
        assert(r@.len() == m.len());
        assert(r@[0]@ == m[0] && r@[1]@ == m[1] && r@[2]@ == m[2] && r@[3]@ == m[3]);
        assert(r@[4]@ == m[4] && r@[5]@ == m[5] && r@[6]@ == m[6] && r@[7]@ == m[7]);
        assert(r@[8]@ == m[8] && r@[9]@ == m[9] && r@[10]@ == m[10] && r@[11]@ == m[11]);
        assert(r@[12]@ == m[12] && r@[13]@ == m[13] && r@[14]@ == m[14] && r@[15]@ == m[15]);
        assert(r@[16]@ == m[16] && r@[17]@ == m[17] && r@[18]@ == m[18]);
        assert(r@.map_values(|p: Package| p@) =~= manifest_of());
    }
    r
}

} // verus!

//! The manifest of a rendered preset and the files that go with it.
use crate::ieee::Double;
use vstd::prelude::*;
use vstd::string::StringExecFns;

verus! {

/// One of the binary files of a rendered preset.
#[derive(Debug, Clone, Copy, PartialEq, Eq, Structural)]
pub enum TextureFile {
    /// Order 0 positions.
    T1,
    /// Order 0 physics.
    T2,
    /// Order 1 positions.
    T3,
    /// Order 1 physics.
    T4,
    /// Order 2 and higher positions.
    T5,
    /// Order 2 and higher physics.
    T6,
    /// Emissivity lookup table.
    Flux,
}

impl TextureFile {
    pub open spec fn name_of(self) -> Seq<char> {
        match self {
            TextureFile::T1 => "t1_rgba32f.bin"@,
            TextureFile::T2 => "t2_rgba32f.bin"@,
            TextureFile::T3 => "t3_rgba32f.bin"@,
            TextureFile::T4 => "t4_rgba32f.bin"@,
            TextureFile::T5 => "t5_rgba32f.bin"@,
            TextureFile::T6 => "t6_rgba32f.bin"@,
            TextureFile::Flux => "flux_r32f.bin"@,
        }
    }

    /// The file is written for a render of `orders` orders: the order 1 pair
    /// with more than one order, the order 2 pair with more than two, the
    /// others always.
    pub open spec fn written(self, orders: u8) -> bool {
        match self {
            TextureFile::T3 | TextureFile::T4 => orders > 1,
            TextureFile::T5 | TextureFile::T6 => orders > 2,
            _ => true,
        }
    }

    pub fn file_name(self) -> (n: &'static str)
        ensures
            n@ == self.name_of(),
    {
        match self {
            TextureFile::T1 => "t1_rgba32f.bin",
            TextureFile::T2 => "t2_rgba32f.bin",
            TextureFile::T3 => "t3_rgba32f.bin",
            TextureFile::T4 => "t4_rgba32f.bin",
            TextureFile::T5 => "t5_rgba32f.bin",
            TextureFile::T6 => "t6_rgba32f.bin",
            TextureFile::Flux => "flux_r32f.bin",
        }
    }

    pub fn is_written(self, orders: u8) -> (b: bool)
        ensures
            b == self.written(orders),
    {
        match self {
            TextureFile::T3 | TextureFile::T4 => orders > 1,
            TextureFile::T5 | TextureFile::T6 => orders > 2,
            _ => true,
        }
    }
}

/// The address under which the front end fetches `file` of `preset`.
pub open spec fn url_of(preset: Seq<char>, file: TextureFile) -> Seq<char> {
    "/blackhole/"@ + preset + "/"@ + file.name_of()
}

fn make_url(preset: &String, file: TextureFile) -> (url: String)
    ensures
        url@ == url_of(preset@, file),
{
    String::from_str("/blackhole/").concat(preset.as_str()).concat("/").concat(file.file_name())
}

fn make_optional_url(preset: &String, file: TextureFile, orders: u8) -> (url: Option<String>)
    ensures
        url.is_some() == file.written(orders),
        url matches Some(u) ==> u@ == url_of(preset@, file),
{
    if file.is_written(orders) {
        Some(make_url(preset, file))
    } else {
        None
    }
}

/// What the front end needs to know of a rendered preset.
#[derive(Debug, Clone)]
pub struct Manifest {
    pub width: u32,
    pub height: u32,
    pub preset: String,
    pub inclination: Double,
    pub spin: Double,
    pub orders: u8,
    pub r_in: Double,
    pub r_out: Double,
    pub t1_url: String,
    pub t2_url: String,
    /// Order 1 positions, with more than one order.
    pub t3_url: Option<String>,
    /// Order 1 physics, with more than one order.
    pub t4_url: Option<String>,
    /// Order 2 and higher positions, with more than two orders.
    pub t5_url: Option<String>,
    /// Order 2 and higher physics, with more than two orders.
    pub t6_url: Option<String>,
    pub flux_url: String,
    pub disc_hits: usize,
    pub git_sha: Option<String>,
    pub rustc_version: Option<String>,
    pub build_timestamp: Option<String>,
}

impl Manifest {
    /// The address that the manifest gives for `file`, if it gives one.
    pub open spec fn url(self, file: TextureFile) -> Option<Seq<char>> {
        match file {
            TextureFile::T1 => Some(self.t1_url@),
            TextureFile::T2 => Some(self.t2_url@),
            TextureFile::T3 => match self.t3_url {
                Some(u) => Some(u@),
                None => None,
            },
            TextureFile::T4 => match self.t4_url {
                Some(u) => Some(u@),
                None => None,
            },
            TextureFile::T5 => match self.t5_url {
                Some(u) => Some(u@),
                None => None,
            },
            TextureFile::T6 => match self.t6_url {
                Some(u) => Some(u@),
                None => None,
            },
            TextureFile::Flux => Some(self.flux_url@),
        }
    }

    /// Every address is the one of its file under the preset, and is there
    /// exactly if the file is written.
    pub open spec fn wf(self) -> bool {
        forall|file: TextureFile|
            #[trigger] self.url(file) == if file.written(self.orders) {
                Some(url_of(self.preset@, file))
            } else {
                None
            }
    }

    pub fn new(
        width: u32,
        height: u32,
        preset: String,
        inclination: Double,
        spin: Double,
        orders: u8,
        r_in: Double,
        r_out: Double,
        disc_hits: usize,
    ) -> (m: Self)
        ensures
            m.wf(),
            m.width == width,
            m.height == height,
            m.preset@ == preset@,
            m.inclination == inclination,
            m.spin == spin,
            m.orders == orders,
            m.r_in == r_in,
            m.r_out == r_out,
            m.disc_hits == disc_hits,
            m.git_sha.is_none() && m.rustc_version.is_none() && m.build_timestamp.is_none(),
    {
        Manifest::with_provenance(
            width,
            height,
            preset,
            inclination,
            spin,
            orders,
            r_in,
            r_out,
            disc_hits,
            None,
            None,
            None,
        )
    }

    pub fn with_provenance(
        width: u32,
        height: u32,
        preset: String,
        inclination: Double,
        spin: Double,
        orders: u8,
        r_in: Double,
        r_out: Double,
        disc_hits: usize,
        git_sha: Option<String>,
        rustc_version: Option<String>,
        build_timestamp: Option<String>,
    ) -> (m: Self)
        ensures
            m.wf(),
            m.width == width,
            m.height == height,
            m.preset@ == preset@,
            m.inclination == inclination,
            m.spin == spin,
            m.orders == orders,
            m.r_in == r_in,
            m.r_out == r_out,
            m.disc_hits == disc_hits,
            m.git_sha == git_sha,
            m.rustc_version == rustc_version,
            m.build_timestamp == build_timestamp,
    {
        let t1_url = make_url(&preset, TextureFile::T1);
        let t2_url = make_url(&preset, TextureFile::T2);
        let t3_url = make_optional_url(&preset, TextureFile::T3, orders);
        let t4_url = make_optional_url(&preset, TextureFile::T4, orders);
        let t5_url = make_optional_url(&preset, TextureFile::T5, orders);
        let t6_url = make_optional_url(&preset, TextureFile::T6, orders);
        let flux_url = make_url(&preset, TextureFile::Flux);
        Manifest {
            width,
            height,
            preset,
            inclination,
            spin,
            orders,
            r_in,
            r_out,
            t1_url,
            t2_url,
            t3_url,
            t4_url,
            t5_url,
            t6_url,
            flux_url,
            disc_hits,
            git_sha,
            rustc_version,
            build_timestamp,
        }
    }
}

/// A manifest names a file exactly if that file is written for its number of
/// orders, and then under the file's own name.
pub proof fn lemma_urls_match_files(m: Manifest, file: TextureFile)
    requires
        m.wf(),
    ensures
        m.url(file).is_some() <==> file.written(m.orders),
        m.url(file) matches Some(u) ==> u == url_of(m.preset@, file),
{
    assert(m.url(file) == if file.written(m.orders) {
        Some(url_of(m.preset@, file))
    } else {
        None
    });
}

} // verus!

//! The files of a rendered preset, as bytes.
use crate::ieee::Single;
use crate::manifest::{Manifest, TextureFile};
use crate::transfer_maps::TransferMaps;
use vstd::prelude::*;

verus! {

/// The four bytes of a binary32 number, least significant first.
pub open spec fn le_bytes(bits: u32) -> Seq<u8> {
    seq![
        (bits % 256) as u8,
        (bits / 256 % 256) as u8,
        (bits / 65536 % 256) as u8,
        (bits / 16777216) as u8,
    ]
}

/// The number that four bytes stand for, least significant first.
pub open spec fn from_le_bytes(bytes: Seq<u8>) -> int {
    bytes[0] + bytes[1] * 256 + bytes[2] * 65536 + bytes[3] * 16777216
}

/// Reading the bytes of a number back gives the number.
pub proof fn lemma_le_bytes_round_trip(bits: u32)
    ensures
        le_bytes(bits).len() == 4,
        from_le_bytes(le_bytes(bits)) == bits,
{
}

/// The bytes of a texture: those of its numbers, one number after the other.
pub open spec fn encoded(values: Seq<Single>) -> Seq<u8> {
    Seq::new(values.len() * 4, |i: int| le_bytes(values[i / 4].bits)[i % 4])
}

/// Writes a texture out as bytes, each number as four bytes with the least
/// significant first.
pub fn encode_singles(values: &Vec<Single>) -> (bytes: Vec<u8>)
    ensures
        bytes@ == encoded(values@),
{
    let mut bytes: Vec<u8> = Vec::new();
    let n = values.len();
    let mut i: usize = 0;
    while i < n
        invariant
            i <= n,
            n == values@.len(),
            bytes@.len() == i * 4,
            forall|j: int|
                0 <= j < i * 4 ==> #[trigger] bytes@[j] == le_bytes(values@[j / 4].bits)[j % 4],
        decreases n - i,
    {
        let bits: u32 = values[i].bits;
        bytes.push((bits % 256) as u8);
        bytes.push((bits / 256 % 256) as u8);
        bytes.push((bits / 65536 % 256) as u8);
        bytes.push((bits / 16777216) as u8);
        i = i + 1;
    }
    assert(bytes@ =~= encoded(values@));
    bytes
}

/// A binary file of a rendered preset.
pub struct Artifact {
    pub file: TextureFile,
    pub bytes: Vec<u8>,
}

/// The files written for a render of `orders` orders, in the order in which
/// they are written.
pub open spec fn files_written(orders: u8) -> Seq<TextureFile> {
    seq![TextureFile::T1, TextureFile::T2] + if orders > 1 {
        seq![TextureFile::T3, TextureFile::T4]
    } else {
        Seq::empty()
    } + if orders > 2 {
        seq![TextureFile::T5, TextureFile::T6]
    } else {
        Seq::empty()
    } + seq![TextureFile::Flux]
}

/// The numbers that a file holds.
pub open spec fn contents(maps: TransferMaps, file: TextureFile) -> Seq<Single> {
    match file {
        TextureFile::T1 => maps.t1_rgba32f@,
        TextureFile::T2 => maps.t2_rgba32f@,
        TextureFile::T3 => maps.t3_rgba32f@,
        TextureFile::T4 => maps.t4_rgba32f@,
        TextureFile::T5 => maps.t5_rgba32f@,
        TextureFile::T6 => maps.t6_rgba32f@,
        TextureFile::Flux => maps.flux_r32f@,
    }
}

fn artifact_of(maps: &TransferMaps, file: TextureFile) -> (a: Artifact)
    ensures
        a.file == file,
        a.bytes@ == encoded(contents(*maps, file)),
{
    let bytes = match file {
        TextureFile::T1 => encode_singles(&maps.t1_rgba32f),
        TextureFile::T2 => encode_singles(&maps.t2_rgba32f),
        TextureFile::T3 => encode_singles(&maps.t3_rgba32f),
        TextureFile::T4 => encode_singles(&maps.t4_rgba32f),
        TextureFile::T5 => encode_singles(&maps.t5_rgba32f),
        TextureFile::T6 => encode_singles(&maps.t6_rgba32f),
        TextureFile::Flux => encode_singles(&maps.flux_r32f),
    };
    Artifact { file, bytes }
}

/// The binary files of a render: the order 0 textures, the order 1 textures
/// with more than one order, the textures of order 2 and higher with more
/// than two, and the lookup table; each with its numbers as bytes.
pub fn binary_artifacts(maps: &TransferMaps) -> (artifacts: Vec<Artifact>)
    ensures
        artifacts@.len() == files_written(maps.max_orders).len(),
        forall|i: int|
            0 <= i < artifacts@.len() ==> (#[trigger] artifacts@[i]).file == files_written(
                maps.max_orders,
            )[i] && artifacts@[i].bytes@ == encoded(contents(*maps, artifacts@[i].file)),
{
    let mut artifacts: Vec<Artifact> = Vec::new();
    artifacts.push(artifact_of(maps, TextureFile::T1));
    artifacts.push(artifact_of(maps, TextureFile::T2));
    if maps.max_orders > 1 {
        artifacts.push(artifact_of(maps, TextureFile::T3));
        artifacts.push(artifact_of(maps, TextureFile::T4));
    }
    if maps.max_orders > 2 {
        artifacts.push(artifact_of(maps, TextureFile::T5));
        artifacts.push(artifact_of(maps, TextureFile::T6));
    }
    artifacts.push(artifact_of(maps, TextureFile::Flux));
    artifacts
}

/// The manifest of a render names a file exactly if the file is among those
/// written for the render.
pub proof fn lemma_manifest_names_written_files(m: Manifest, file: TextureFile)
    requires
        m.wf(),
    ensures
        m.url(file).is_some() <==> files_written(m.orders).contains(file),
{
    crate::manifest::lemma_urls_match_files(m, file);
    let files = files_written(m.orders);
    assert(files[0] == TextureFile::T1 && files[1] == TextureFile::T2);
    assert(files[files.len() - 1] == TextureFile::Flux);
    if m.orders > 1 {
        assert(files[2] == TextureFile::T3 && files[3] == TextureFile::T4);
    }
    if m.orders > 2 {
        assert(files[4] == TextureFile::T5 && files[5] == TextureFile::T6);
    }
}

} // verus!

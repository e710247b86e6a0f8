//! The first bytes by which bitmap files are told apart.
use vstd::prelude::*;
use vstd::slice::*;

verus! {

/// Whether some bytes stand at an offset.
pub open spec fn stands_at(bytes: Seq<u8>, at: int, wanted: Seq<u8>) -> bool {
    at + wanted.len() <= bytes.len() && bytes.subrange(at, at + wanted.len()) == wanted
}

pub open spec fn is_png(bytes: Seq<u8>) -> bool {
    stands_at(bytes, 0, seq![137u8, 80, 78, 71, 13, 10, 26, 10])
}

pub open spec fn is_jpeg(bytes: Seq<u8>) -> bool {
    stands_at(bytes, 0, seq![0xffu8, 0xd8, 0xff])
}

/// `RIFF`, four bytes of length, `WEBP`.
pub open spec fn is_webp(bytes: Seq<u8>) -> bool {
    stands_at(bytes, 0, seq![0x52u8, 0x49, 0x46, 0x46]) && stands_at(
        bytes,
        8,
        seq![0x57u8, 0x45, 0x42, 0x50],
    )
}

/// `GIF87a` or `GIF89a`.
pub open spec fn is_gif(bytes: Seq<u8>) -> bool {
    stands_at(bytes, 0, seq![0x47u8, 0x49, 0x46, 0x38, 0x37, 0x61]) || stands_at(
        bytes,
        0,
        seq![0x47u8, 0x49, 0x46, 0x38, 0x39, 0x61],
    )
}

/// `BM`.
pub open spec fn is_bmp(bytes: Seq<u8>) -> bool {
    stands_at(bytes, 0, seq![0x42u8, 0x4d])
}

fn has_at(bytes: &[u8], at: usize, wanted: Vec<u8>) -> (answer: bool)
    ensures
        answer == stands_at(bytes@, at as int, wanted@),
{
    if at > bytes.len() || wanted.len() > bytes.len() - at {
        return false;
    }
    let ghost here = bytes@.subrange(at as int, at + wanted@.len());
    let mut i: usize = 0;
    while i < wanted.len()
        invariant
            i <= wanted@.len(),
            at + wanted@.len() <= bytes@.len(),
            bytes@.len() <= usize::MAX,
            here == bytes@.subrange(at as int, at + wanted@.len()),
            forall|j: int| 0 <= j < i ==> here[j] == #[trigger] wanted@[j],
        decreases wanted@.len() - i,
    {
        assert(here[i as int] == bytes@[at + i]);
        if bytes[at + i] != wanted[i] {
            return false;
        }
        i = i + 1;
    }
    assert(here =~= wanted@);
    true
}

pub(crate) fn png(bytes: &[u8]) -> (answer: bool)
    ensures
        answer == is_png(bytes@),
{
    let wanted: Vec<u8> = vec![137, 80, 78, 71, 13, 10, 26, 10];
    assert(wanted@ =~= seq![137u8, 80, 78, 71, 13, 10, 26, 10]);
    has_at(bytes, 0, wanted)
}

pub(crate) fn jpeg(bytes: &[u8]) -> (answer: bool)
    ensures
        answer == is_jpeg(bytes@),
{
    let wanted: Vec<u8> = vec![0xff, 0xd8, 0xff];
    assert(wanted@ =~= seq![0xffu8, 0xd8, 0xff]);
    has_at(bytes, 0, wanted)
}

pub(crate) fn webp(bytes: &[u8]) -> (answer: bool)
    ensures
        answer == is_webp(bytes@),
{
    let riff: Vec<u8> = vec![0x52, 0x49, 0x46, 0x46];
    let kind: Vec<u8> = vec![0x57, 0x45, 0x42, 0x50];
    assert(riff@ =~= seq![0x52u8, 0x49, 0x46, 0x46]);
    assert(kind@ =~= seq![0x57u8, 0x45, 0x42, 0x50]);
    has_at(bytes, 0, riff) && has_at(bytes, 8, kind)
}

pub(crate) fn gif(bytes: &[u8]) -> (answer: bool)
    ensures
        answer == is_gif(bytes@),
{
    let first: Vec<u8> = vec![0x47, 0x49, 0x46, 0x38, 0x37, 0x61];
    let second: Vec<u8> = vec![0x47, 0x49, 0x46, 0x38, 0x39, 0x61];
    assert(first@ =~= seq![0x47u8, 0x49, 0x46, 0x38, 0x37, 0x61]);
    assert(second@ =~= seq![0x47u8, 0x49, 0x46, 0x38, 0x39, 0x61]);
    has_at(bytes, 0, first) || has_at(bytes, 0, second)
}

pub(crate) fn bmp(bytes: &[u8]) -> (answer: bool)
    ensures
        answer == is_bmp(bytes@),
{
    let wanted: Vec<u8> = vec![0x42, 0x4d];
    assert(wanted@ =~= seq![0x42u8, 0x4d]);
    has_at(bytes, 0, wanted)
}

/// No bytes carry the signatures of two formats.
pub proof fn signatures_exclude_each_other(bytes: Seq<u8>)
    ensures
        is_png(bytes) ==> !is_jpeg(bytes) && !is_webp(bytes) && !is_gif(bytes) && !is_bmp(bytes),
        is_jpeg(bytes) ==> !is_webp(bytes) && !is_gif(bytes) && !is_bmp(bytes),
        is_webp(bytes) ==> !is_gif(bytes) && !is_bmp(bytes),
        is_gif(bytes) ==> !is_bmp(bytes),
{
    let png = seq![137u8, 80, 78, 71, 13, 10, 26, 10];
    let jpeg = seq![0xffu8, 0xd8, 0xff];
    let riff = seq![0x52u8, 0x49, 0x46, 0x46];
    let first = seq![0x47u8, 0x49, 0x46, 0x38, 0x37, 0x61];
    let second = seq![0x47u8, 0x49, 0x46, 0x38, 0x39, 0x61];
    let bm = seq![0x42u8, 0x4d];
    assert(is_png(bytes) ==> bytes.subrange(0, 8)[0] == png[0] && bytes[0] == 137);
    assert(is_jpeg(bytes) ==> bytes.subrange(0, 3)[0] == jpeg[0] && bytes[0] == 0xff);
    assert(is_webp(bytes) ==> bytes.subrange(0, 4)[0] == riff[0] && bytes[0] == 0x52);
    assert(stands_at(bytes, 0, first) ==> bytes.subrange(0, 6)[0] == first[0] && bytes[0] == 0x47);
    assert(stands_at(bytes, 0, second) ==> bytes.subrange(0, 6)[0] == second[0] && bytes[0]
        == 0x47);
    assert(is_bmp(bytes) ==> bytes.subrange(0, 2)[0] == bm[0] && bytes[0] == 0x42);
}

} // verus!

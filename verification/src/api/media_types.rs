//! The file extensions the server accepts, by kind of media.
use vstd::prelude::*;

use crate::config::string_views;

verus! {

broadcast use vstd::string::group_string_axioms;

/// The file extensions accepted as video, in the order they are announced.
pub open spec fn video_extensions() -> Seq<Seq<char>> {
    seq![
        ".3gp"@,
        ".3gpp"@,
        ".avi"@,
        ".flv"@,
        ".insv"@,
        ".m2t"@,
        ".m2ts"@,
        ".m4v"@,
        ".mkv"@,
        ".mov"@,
        ".mp4"@,
        ".mpe"@,
        ".mpeg"@,
        ".mpg"@,
        ".mts"@,
        ".vob"@,
        ".webm"@,
        ".wmv"@,
    ]
}

/// The file extensions accepted as images, in the order they are announced.
pub open spec fn image_extensions() -> Seq<Seq<char>> {
    seq![
        ".avif"@,
        ".bmp"@,
        ".gif"@,
        ".jpeg"@,
        ".jpg"@,
        ".png"@,
        ".webp"@,
        ".3fr"@,
        ".ari"@,
        ".arw"@,
        ".cap"@,
        ".cin"@,
        ".cr2"@,
        ".cr3"@,
        ".crw"@,
        ".dcr"@,
        ".dng"@,
        ".erf"@,
        ".fff"@,
        ".iiq"@,
        ".k25"@,
        ".kdc"@,
        ".mrw"@,
        ".nef"@,
        ".nrw"@,
        ".orf"@,
        ".ori"@,
        ".pef"@,
        ".psd"@,
        ".raf"@,
        ".raw"@,
        ".rw2"@,
        ".rwl"@,
        ".sr2"@,
        ".srf"@,
        ".srw"@,
        ".x3f"@,
        ".heic"@,
        ".heif"@,
        ".hif"@,
        ".insp"@,
        ".jp2"@,
        ".jpe"@,
        ".jxl"@,
        ".svg"@,
        ".tif"@,
        ".tiff"@,
    ]
}

/// The file extensions accepted as sidecar files.
pub open spec fn sidecar_extensions() -> Seq<Seq<char>> {
    seq![".xmp"@]
}

/// The common photo and video formats are announced: a camera's JPEG, PNG,
/// HEIC or raw photo is accepted as an image, an MP4 or QuickTime video as a
/// video, and XMP files as sidecars.
pub proof fn lemma_common_formats_announced()
    ensures
        image_extensions().contains(".jpg"@),
        image_extensions().contains(".jpeg"@),
        image_extensions().contains(".png"@),
        image_extensions().contains(".gif"@),
        image_extensions().contains(".webp"@),
        image_extensions().contains(".heic"@),
        image_extensions().contains(".heif"@),
        image_extensions().contains(".avif"@),
        image_extensions().contains(".bmp"@),
        image_extensions().contains(".tif"@),
        image_extensions().contains(".tiff"@),
        image_extensions().contains(".dng"@),
        image_extensions().contains(".cr2"@),
        image_extensions().contains(".nef"@),
        image_extensions().contains(".arw"@),
        image_extensions().contains(".raw"@),
        video_extensions().contains(".mp4"@),
        video_extensions().contains(".mov"@),
        video_extensions().contains(".m4v"@),
        video_extensions().contains(".avi"@),
        video_extensions().contains(".mkv"@),
        video_extensions().contains(".webm"@),
        video_extensions().contains(".3gp"@),
        video_extensions().contains(".mpg"@),
        video_extensions().contains(".mts"@),
        sidecar_extensions().contains(".xmp"@),
{
    assert(image_extensions()[4] == ".jpg"@);
    assert(image_extensions()[3] == ".jpeg"@);
    assert(image_extensions()[5] == ".png"@);
    assert(image_extensions()[2] == ".gif"@);
    assert(image_extensions()[6] == ".webp"@);
    assert(image_extensions()[37] == ".heic"@);
    assert(image_extensions()[38] == ".heif"@);
    assert(image_extensions()[0] == ".avif"@);
    assert(image_extensions()[1] == ".bmp"@);
    assert(image_extensions()[45] == ".tif"@);
    assert(image_extensions()[46] == ".tiff"@);
    assert(image_extensions()[16] == ".dng"@);
    assert(image_extensions()[12] == ".cr2"@);
    assert(image_extensions()[23] == ".nef"@);
    assert(image_extensions()[9] == ".arw"@);
    assert(image_extensions()[30] == ".raw"@);
    assert(video_extensions()[10] == ".mp4"@);
    assert(video_extensions()[9] == ".mov"@);
    assert(video_extensions()[7] == ".m4v"@);
    assert(video_extensions()[2] == ".avi"@);
    assert(video_extensions()[8] == ".mkv"@);
    assert(video_extensions()[16] == ".webm"@);
    assert(video_extensions()[0] == ".3gp"@);
    assert(video_extensions()[13] == ".mpg"@);
    assert(video_extensions()[14] == ".mts"@);
    assert(sidecar_extensions()[0] == ".xmp"@);
}

/// The media types the server accepts.
#[derive(Debug)]
pub struct Features {
    pub video: Vec<String>,
    pub image: Vec<String>,
    pub sidecar: Vec<String>,
}

fn video_list() -> (r: Vec<String>)
    ensures
        string_views(r@) == video_extensions(),
{
    let mut v: Vec<String> = Vec::new();
        v.push(".3gp".to_owned());
        v.push(".3gpp".to_owned());
        v.push(".avi".to_owned());
        v.push(".flv".to_owned());
        v.push(".insv".to_owned());
        v.push(".m2t".to_owned());
        v.push(".m2ts".to_owned());
        v.push(".m4v".to_owned());
        v.push(".mkv".to_owned());
        v.push(".mov".to_owned());
        v.push(".mp4".to_owned());
        v.push(".mpe".to_owned());
        v.push(".mpeg".to_owned());
        v.push(".mpg".to_owned());
        v.push(".mts".to_owned());
        v.push(".vob".to_owned());
        v.push(".webm".to_owned());
        v.push(".wmv".to_owned());
    assert(string_views(v@) =~= video_extensions());
    v
}

fn image_list() -> (r: Vec<String>)
    ensures
        string_views(r@) == image_extensions(),
{
    let mut v: Vec<String> = Vec::new();
        v.push(".avif".to_owned());
        v.push(".bmp".to_owned());
        v.push(".gif".to_owned());
        v.push(".jpeg".to_owned());
        v.push(".jpg".to_owned());
        v.push(".png".to_owned());
        v.push(".webp".to_owned());
        v.push(".3fr".to_owned());
        v.push(".ari".to_owned());
        v.push(".arw".to_owned());
        v.push(".cap".to_owned());
        v.push(".cin".to_owned());
        v.push(".cr2".to_owned());
        v.push(".cr3".to_owned());
        v.push(".crw".to_owned());
        v.push(".dcr".to_owned());
        v.push(".dng".to_owned());
        v.push(".erf".to_owned());
        v.push(".fff".to_owned());
        v.push(".iiq".to_owned());
        v.push(".k25".to_owned());
        v.push(".kdc".to_owned());
        v.push(".mrw".to_owned());
        v.push(".nef".to_owned());
        v.push(".nrw".to_owned());
        v.push(".orf".to_owned());
        v.push(".ori".to_owned());
        v.push(".pef".to_owned());
        v.push(".psd".to_owned());
        v.push(".raf".to_owned());
        v.push(".raw".to_owned());
        v.push(".rw2".to_owned());
        v.push(".rwl".to_owned());
        v.push(".sr2".to_owned());
        v.push(".srf".to_owned());
        v.push(".srw".to_owned());
        v.push(".x3f".to_owned());
        v.push(".heic".to_owned());
        v.push(".heif".to_owned());
        v.push(".hif".to_owned());
        v.push(".insp".to_owned());
        v.push(".jp2".to_owned());
        v.push(".jpe".to_owned());
        v.push(".jxl".to_owned());
        v.push(".svg".to_owned());
        v.push(".tif".to_owned());
        v.push(".tiff".to_owned());
    assert(string_views(v@) =~= image_extensions());
    v
}

impl Default for Features {
    fn default() -> (r: Self)
        ensures
            string_views(r.video@) == video_extensions(),
            string_views(r.image@) == image_extensions(),
            string_views(r.sidecar@) == sidecar_extensions(),
    {
        let mut sidecar: Vec<String> = Vec::new();
        sidecar.push(".xmp".to_owned());
        assert(string_views(sidecar@) =~= sidecar_extensions());
        Self { video: video_list(), image: image_list(), sidecar }
    }
}

} // verus!

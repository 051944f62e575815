//! What the server says about itself.
use vstd::prelude::*;

verus! {

broadcast use vstd::string::group_string_axioms;

/// The versions and sources the server reports.
#[derive(Debug)]
pub struct About {
    pub version: String,
    pub version_url: String,
    pub licensed: bool,
    pub build: String,
    pub build_url: String,
    pub build_image: String,
    pub build_image_url: String,
    pub repository: String,
    pub repository_url: String,
    pub source_ref: String,
    pub source_commit: String,
    pub source_url: String,
    pub nodejs: String,
    pub exiftool: String,
    pub ffmpeg: String,
    pub libvips: String,
    pub imagemagick: String,
}

/// The version and build information the server reports.
pub fn about() -> (r: About)
    ensures
        r.version@ == "v2.5.6"@,
        r.version_url@ == "https://github.com/immich-app/immich/releases/tag/v2.5.6"@,
        !r.licensed,
        r.build@ == "21878147967"@,
        r.build_url@ == "https://github.com/immich-app/immich/actions/runs/21878147967"@,
        r.build_image@ == "v2.5.6"@,
        r.build_image_url@ == "https://github.com/immich-app/immich/pkgs/container/immich-server"@,
        r.repository@ == "immich-app/immich"@,
        r.repository_url@ == "https://github.com/immich-app/immich"@,
        r.source_ref@ == "v2.5.6"@,
        r.source_commit@ == "3be8e265cd5bd6ca921ff9e665e274c5de45caa0"@,
        r.source_url@ == "https://github.com/immich-app/immich/commit/3be8e265cd5bd6ca921ff9e665e274c5de45caa0"@,
        r.nodejs@ == "v24.12.0"@,
        r.exiftool@ == "13.45"@,
        r.ffmpeg@ == "7.1.3-1"@,
        r.libvips@ == "8.17.3"@,
        r.imagemagick@ == "7.1.2-2"@,
{
    About {
        version: "v2.5.6".to_owned(),
        version_url: "https://github.com/immich-app/immich/releases/tag/v2.5.6".to_owned(),
        licensed: false,
        build: "21878147967".to_owned(),
        build_url: "https://github.com/immich-app/immich/actions/runs/21878147967".to_owned(),
        build_image: "v2.5.6".to_owned(),
        build_image_url: "https://github.com/immich-app/immich/pkgs/container/immich-server".to_owned(),
        repository: "immich-app/immich".to_owned(),
        repository_url: "https://github.com/immich-app/immich".to_owned(),
        source_ref: "v2.5.6".to_owned(),
        source_commit: "3be8e265cd5bd6ca921ff9e665e274c5de45caa0".to_owned(),
        source_url: "https://github.com/immich-app/immich/commit/3be8e265cd5bd6ca921ff9e665e274c5de45caa0".to_owned(),
        nodejs: "v24.12.0".to_owned(),
        exiftool: "13.45".to_owned(),
        ffmpeg: "7.1.3-1".to_owned(),
        libvips: "8.17.3".to_owned(),
        imagemagick: "7.1.2-2".to_owned(),
    }
}

} // verus!

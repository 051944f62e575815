//! The features the server announces to its clients.
use vstd::prelude::*;

verus! {

/// Which features the server offers.
#[derive(Debug, Clone, Copy, PartialEq, Eq, Structural)]
pub struct Features {
    pub smart_search: bool,
    pub facial_recognition: bool,
    pub duplicate_detection: bool,
    pub map: bool,
    pub reverse_geocoding: bool,
    pub import_faces: bool,
    pub sidecar: bool,
    pub search: bool,
    pub trash: bool,
    pub oauth: bool,
    pub oauth_auto_launch: bool,
    pub ocr: bool,
    pub password_login: bool,
    pub config_file: bool,
    pub email: bool,
}

impl Default for Features {
    /// Smart search, facial recognition, duplicate detection, the map,
    /// reverse geocoding, sidecars, search, the trash, OCR and password login
    /// are on; face import, OAuth and its auto launch, the config file and
    /// email are off.
    fn default() -> (r: Self)
        ensures
            r == (Features {
                smart_search: true,
                facial_recognition: true,
                duplicate_detection: true,
                map: true,
                reverse_geocoding: true,
                import_faces: false,
                sidecar: true,
                search: true,
                trash: true,
                oauth: false,
                oauth_auto_launch: false,
                ocr: true,
                password_login: true,
                config_file: false,
                email: false,
            }),
    {
        Self {
            smart_search: true,
            facial_recognition: true,
            duplicate_detection: true,
            map: true,
            reverse_geocoding: true,
            import_faces: false,
            sidecar: true,
            search: true,
            trash: true,
            oauth: false,
            oauth_auto_launch: false,
            ocr: true,
            password_login: true,
            config_file: false,
            email: false,
        }
    }
}

} // verus!

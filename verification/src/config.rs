//! The server's configuration records and their default values.
use vstd::prelude::*;

verus! {

broadcast use vstd::string::group_string_axioms;

/// The views of a list of strings.
pub open spec fn string_views(v: Seq<String>) -> Seq<Seq<char>> {
    v.map_values(|s: String| s@)
}

/// The global state of the server: whether its administrator is registered
/// and whether the onboarding is done.
#[derive(Debug, Clone, Copy, PartialEq, Eq, Structural)]
pub struct Config {
    pub is_initialized: bool,
    pub is_onboarded: bool,
}

impl Default for Config {
    /// A server with no administrator, not onboarded.
    fn default() -> (r: Self)
        ensures
            r == (Config { is_initialized: false, is_onboarded: false }),
    {
        Config { is_initialized: false, is_onboarded: false }
    }
}

impl Config {
    /// The configuration once the administrator is registered; the rest is
    /// kept.
    pub fn initialized(self) -> (r: Config)
        ensures
            r == (Config { is_initialized: true, ..self }),
    {
        Config { is_initialized: true, ..self }
    }

    /// The stored configuration, or the default one when none is stored.
    pub fn stored_or_default(stored: Option<Config>) -> (r: Config)
        ensures
            r == match stored {
                Some(c) => c,
                None => Config { is_initialized: false, is_onboarded: false },
            },
    {
        match stored {
            Some(c) => c,
            None => Config::default(),
        }
    }

    /// The configuration once the onboarding is finished; the rest is kept.
    pub fn onboarded(self) -> (r: Config)
        ensures
            r == (Config { is_onboarded: true, ..self }),
    {
        Config { is_onboarded: true, ..self }
    }
}

#[derive(Debug)]
pub struct StorageTemplate {
    pub enabled: bool,
    pub hash_verification_enabled: bool,
    pub template: String,
}

impl Default for StorageTemplate {
    fn default() -> (r: Self)
        ensures
            !r.enabled,
            r.hash_verification_enabled,
            r.template@ == "{{y}}/{{y}}-{{MM}}-{{dd}}/{{filename}}"@,
    {
        StorageTemplate {
            enabled: false,
            hash_verification_enabled: true,
            template: "{{y}}/{{y}}-{{MM}}-{{dd}}/{{filename}}".to_owned(),
        }
    }
}

#[derive(Debug)]
pub struct Backup {
    pub database: Database,
}

impl Default for Backup {
    fn default() -> (r: Self)
        ensures
            r.database.enabled,
            r.database.cron_expression@ == "0 02 * * *"@,
            r.database.keep_last_amount == 14,
    {
        Backup { database: Database::default() }
    }
}

#[derive(Debug)]
pub struct Database {
    pub enabled: bool,
    pub cron_expression: String,
    pub keep_last_amount: usize,
}

impl Default for Database {
    fn default() -> (r: Self)
        ensures
            r.enabled,
            r.cron_expression@ == "0 02 * * *"@,
            r.keep_last_amount == 14,
    {
        Database { enabled: true, cron_expression: "0 02 * * *".to_owned(), keep_last_amount: 14 }
    }
}

#[derive(Debug)]
pub struct Ffmpeg {
    pub crf: usize,
    pub threads: usize,
    pub preset: String,
    pub target_video_codec: String,
    pub accepted_video_codecs: Vec<String>,
    pub target_audio_codec: String,
    pub accepted_audio_codecs: Vec<String>,
    pub accepted_containers: Vec<String>,
    pub target_resolution: String,
    pub max_bitrate: String,
    pub bframes: isize,
    pub refs: usize,
    pub gop_size: usize,
    pub temporal_a_q: bool,
    pub cq_mode: String,
    pub two_pass: bool,
    pub preferred_hw_device: String,
    pub transcode: String,
    pub accel: String,
    pub accel_decode: bool,
    pub tonemap: String,
}

impl Default for Ffmpeg {
    fn default() -> (r: Self)
        ensures
            r.crf == 23,
            r.threads == 0,
            r.preset@ == "ultrafast"@,
            r.target_video_codec@ == "h264"@,
            string_views(r.accepted_video_codecs@) == seq!["h264"@],
            r.target_audio_codec@ == "aac"@,
            string_views(r.accepted_audio_codecs@) == seq!["aac"@, "mp3"@, "libopus"@],
            string_views(r.accepted_containers@) == seq!["mov"@, "ogg"@, "webm"@],
            r.target_resolution@ == "720"@,
            r.max_bitrate@ == "0"@,
            r.bframes == -1,
            r.refs == 0,
            r.gop_size == 0,
            !r.temporal_a_q,
            r.cq_mode@ == "auto"@,
            !r.two_pass,
            r.preferred_hw_device@ == "auto"@,
            r.transcode@ == "required"@,
            r.accel@ == "disabled"@,
            !r.accel_decode,
            r.tonemap@ == "hable"@,
    {
        let mut accepted_video_codecs: Vec<String> = Vec::new();
        accepted_video_codecs.push("h264".to_owned());
        let mut accepted_audio_codecs: Vec<String> = Vec::new();
        accepted_audio_codecs.push("aac".to_owned());
        accepted_audio_codecs.push("mp3".to_owned());
        accepted_audio_codecs.push("libopus".to_owned());
        let mut accepted_containers: Vec<String> = Vec::new();
        accepted_containers.push("mov".to_owned());
        accepted_containers.push("ogg".to_owned());
        accepted_containers.push("webm".to_owned());
        let r = Ffmpeg {
            crf: 23,
            threads: 0,
            preset: "ultrafast".to_owned(),
            target_video_codec: "h264".to_owned(),
            accepted_video_codecs,
            target_audio_codec: "aac".to_owned(),
            accepted_audio_codecs,
            accepted_containers,
            target_resolution: "720".to_owned(),
            max_bitrate: "0".to_owned(),
            bframes: -1,
            refs: 0,
            gop_size: 0,
            temporal_a_q: false,
            cq_mode: "auto".to_owned(),
            two_pass: false,
            preferred_hw_device: "auto".to_owned(),
            transcode: "required".to_owned(),
            accel: "disabled".to_owned(),
            accel_decode: false,
            tonemap: "hable".to_owned(),
        };
        assert(string_views(r.accepted_video_codecs@) =~= seq!["h264"@]);
        assert(string_views(r.accepted_audio_codecs@) =~= seq!["aac"@, "mp3"@, "libopus"@]);
        assert(string_views(r.accepted_containers@) =~= seq!["mov"@, "ogg"@, "webm"@]);
        r
    }
}

#[derive(Debug)]
pub struct Logging {
    pub enabled: bool,
    pub level: String,
}

impl Default for Logging {
    fn default() -> (r: Self)
        ensures
            r.enabled,
            r.level@ == "log"@,
    {
        Logging { enabled: true, level: "log".to_owned() }
    }
}

#[derive(Debug)]
pub struct AvailabilityChecks {
    pub enabled: bool,
    pub timeout: usize,
    pub interval: usize,
}

impl Default for AvailabilityChecks {
    fn default() -> (r: Self)
        ensures
            r.enabled,
            r.timeout == 2000,
            r.interval == 3000,
    {
        AvailabilityChecks { enabled: true, timeout: 2000, interval: 3000 }
    }
}

#[derive(Debug)]
pub struct Clip {
    pub enabled: bool,
    pub model_name: String,
}

impl Default for Clip {
    fn default() -> (r: Self)
        ensures
            r.enabled,
            r.model_name@ == "ViT-B-32__openai"@,
    {
        Clip { enabled: true, model_name: "ViT-B-32__openai".to_owned() }
    }
}

/// Registering the administrator and finishing the onboarding each set
/// their own flag only: doing either twice changes nothing more, and their
/// order does not matter.
pub proof fn lemma_config_steps(c: Config)
    ensures
        (Config { is_initialized: true, ..(Config { is_initialized: true, ..c }) }) == (Config {
            is_initialized: true,
            ..c
        }),
        (Config { is_onboarded: true, ..(Config { is_onboarded: true, ..c }) }) == (Config {
            is_onboarded: true,
            ..c
        }),
        (Config { is_onboarded: true, ..(Config { is_initialized: true, ..c }) }) == (Config {
            is_initialized: true,
            ..(Config { is_onboarded: true, ..c })
        }),
{
}

} // verus!

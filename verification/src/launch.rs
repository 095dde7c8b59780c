use vstd::prelude::*;
use crate::format::{decimal, decimal_spec};
use crate::player::{quality_format_spec, PlayMode, PlaybackQuality};
use crate::text::{concat_str, has_prefix};

verus! {

/// The configured player settings that shape how the player starts.
pub struct MpvSettings {
    /// Window geometry when no remembered geometry is given.
    pub geometry: String,
    pub ontop: bool,
    pub hwdec: String,
    pub cache_secs: u32,
    /// Seconds to wait when the cache runs dry, written as the
    /// configuration prints it.
    pub cache_pause_wait: String,
    pub force_seekable: bool,
    pub demuxer_max_bytes: String,
    pub demuxer_max_back_bytes: String,
}

/// The settings a fresh configuration holds.
pub open spec fn default_settings_spec(s: MpvSettings) -> bool {
    &&& s.geometry@ == "800x450+50%+50%"@
    &&& s.ontop
    &&& s.hwdec@ == "auto-safe"@
    &&& s.cache_secs == 45
    &&& s.cache_pause_wait@ == "1.5"@
    &&& s.force_seekable
    &&& s.demuxer_max_bytes@ == "128MiB"@
    &&& s.demuxer_max_back_bytes@ == "64MiB"@
}

impl Default for MpvSettings {
    /// A centred 800x450 window on top, safe hardware decoding, 45 s of
    /// cache with a 1.5 s pause when it runs dry, seekable streams, and
    /// 128 MiB ahead / 64 MiB behind of demuxer buffer.
    fn default() -> (s: Self)
        ensures
            default_settings_spec(s),
    {
        MpvSettings {
            geometry: String::from_str("800x450+50%+50%"),
            ontop: true,
            hwdec: String::from_str("auto-safe"),
            cache_secs: 45,
            cache_pause_wait: String::from_str("1.5"),
            force_seekable: true,
            demuxer_max_bytes: String::from_str("128MiB"),
            demuxer_max_back_bytes: String::from_str("64MiB"),
        }
    }
}

/// Window appearance options used on macOS.
pub open spec fn macos_args() -> Seq<Seq<char>> {
    seq![
        "--macos-title-bar-appearance=darkAqua"@,
        "--macos-title-bar-material=dark"@,
        "--corner-rounding=0.5"@,
        "--background=color"@,
        "--background-color=#000000"@,
        "--osd-font=SF Pro"@,
        "--osd-font-size=32"@,
        "--osd-color=#FFFFFFFF"@,
        "--osd-outline-size=1"@,
        "--osd-outline-color=#00000080"@,
        "--osd-shadow-offset=0"@,
        "--osd-bar-h=2"@,
        "--osd-bar-w=90"@,
        "--osd-bar-align-y=0.95"@,
    ]
}

/// The player's command line: IPC socket and log file, caching and decoding
/// options, the stream format for the quality; for video the window
/// geometry (the remembered one when given), on top when configured, and
/// the macOS appearance there; for audio no video; the cookie file when
/// given; and the URL last.
pub open spec fn launch_args_spec(
    socket_path: Seq<char>,
    url: Seq<char>,
    mode: PlayMode,
    quality: PlaybackQuality,
    s: MpvSettings,
    geometry_override: Option<Seq<char>>,
    log_path: Seq<char>,
    cookie_path: Option<Seq<char>>,
    macos: bool,
) -> Seq<Seq<char>> {
    let base = seq![
        "--input-ipc-server="@ + socket_path,
        "--log-file="@ + log_path,
        "--cache=yes"@,
        "--cache-pause=yes"@,
        "--hwdec="@ + s.hwdec@,
        "--cache-secs="@ + decimal_spec(s.cache_secs as nat),
        "--cache-pause-wait="@ + s.cache_pause_wait@,
        "--force-seekable="@ + if s.force_seekable {
            "yes"@
        } else {
            "no"@
        },
        "--demuxer-max-bytes="@ + s.demuxer_max_bytes@,
        "--demuxer-max-back-bytes="@ + s.demuxer_max_back_bytes@,
        "--ytdl-format="@ + quality_format_spec(quality),
    ];
    let mode_args = match mode {
        PlayMode::Video => {
            let geometry = match geometry_override {
                Some(g) => g,
                None => s.geometry@,
            };
            seq!["--geometry="@ + geometry] + (if s.ontop {
                seq!["--ontop"@]
            } else {
                Seq::empty()
            }) + (if macos {
                macos_args()
            } else {
                Seq::empty()
            })
        },
        PlayMode::AudioOnly => seq!["--no-video"@],
    };
    let cookie = match cookie_path {
        Some(c) => seq!["--ytdl-raw-options=cookies="@ + c],
        None => Seq::empty(),
    };
    base + mode_args + cookie + seq![url]
}

/// An argument that begins with an option name other than `--geometry=`
/// (its third character is not `g`) does not begin with `--geometry=`.
proof fn lemma_not_geometry(p: Seq<char>, x: Seq<char>)
    requires
        p.len() > 2,
        p[2] != 'g',
    ensures
        !has_prefix(p + x, "--geometry="@),
{
    reveal_strlit("--geometry=");
    if has_prefix(p + x, "--geometry="@) {
        assert((p + x).take(11)[2] == (p + x)[2]);
        assert((p + x)[2] == p[2]);
    }
}

/// Whatever follows one of the player's option names, the argument does not
/// begin with `--geometry=`.
spec fn never_geometry(p: Seq<char>) -> bool {
    forall|x: Seq<char>| !has_prefix(#[trigger] (p + x), "--geometry="@)
}

proof fn lemma_prefixed_not_geometry(p: Seq<char>)
    requires
        p.len() > 2,
        p[2] != 'g',
    ensures
        never_geometry(p),
{
    assert forall|x: Seq<char>| !has_prefix(#[trigger] (p + x), "--geometry="@) by {
        lemma_not_geometry(p, x);
    }
}

/// The shape of the player's command line: the stream format for the
/// quality is the eleventh argument and the URL the last; in video mode the
/// twelfth argument is the window geometry (the remembered one when given,
/// else the configured one), in audio mode it is `--no-video`. Unless the
/// URL itself begins with `--geometry=`, no other argument begins with
/// `--geometry=`: video mode has exactly one such argument, audio mode none.
pub proof fn lemma_launch_args_shape(
    socket_path: Seq<char>,
    url: Seq<char>,
    mode: PlayMode,
    quality: PlaybackQuality,
    s: MpvSettings,
    geometry_override: Option<Seq<char>>,
    log_path: Seq<char>,
    cookie_path: Option<Seq<char>>,
    macos: bool,
)
    ensures
        ({
            let args = launch_args_spec(
                socket_path,
                url,
                mode,
                quality,
                s,
                geometry_override,
                log_path,
                cookie_path,
                macos,
            );
            let geometry = match geometry_override {
                Some(g) => g,
                None => s.geometry@,
            };
            &&& args.len() > 12
            &&& args.last() == url
            &&& args[10] == "--ytdl-format="@ + quality_format_spec(quality)
            &&& mode == PlayMode::Video ==> args[11] == "--geometry="@ + geometry
            &&& mode == PlayMode::AudioOnly ==> args[11] == "--no-video"@
            &&& !has_prefix(url, "--geometry="@) ==> forall|i: int|
                0 <= i < args.len() && has_prefix(#[trigger] args[i], "--geometry="@) ==> mode
                    == PlayMode::Video && i == 11
        }),
{
    reveal_strlit("--input-ipc-server=");
    reveal_strlit("--log-file=");
    reveal_strlit("--hwdec=");
    reveal_strlit("--cache-secs=");
    reveal_strlit("--cache-pause-wait=");
    reveal_strlit("--force-seekable=");
    reveal_strlit("--demuxer-max-bytes=");
    reveal_strlit("--demuxer-max-back-bytes=");
    reveal_strlit("--ytdl-format=");
    reveal_strlit("--ytdl-raw-options=cookies=");
    reveal_strlit("--cache=yes");
    reveal_strlit("--cache-pause=yes");
    reveal_strlit("--ontop");
    reveal_strlit("--no-video");
    reveal_strlit("--macos-title-bar-appearance=darkAqua");
    reveal_strlit("--macos-title-bar-material=dark");
    reveal_strlit("--corner-rounding=0.5");
    reveal_strlit("--background=color");
    reveal_strlit("--background-color=#000000");
    reveal_strlit("--osd-font=SF Pro");
    reveal_strlit("--osd-font-size=32");
    reveal_strlit("--osd-color=#FFFFFFFF");
    reveal_strlit("--osd-outline-size=1");
    reveal_strlit("--osd-outline-color=#00000080");
    reveal_strlit("--osd-shadow-offset=0");
    reveal_strlit("--osd-bar-h=2");
    reveal_strlit("--osd-bar-w=90");
    reveal_strlit("--osd-bar-align-y=0.95");
    reveal_strlit("--geometry=");
    lemma_prefixed_not_geometry("--input-ipc-server="@);
    lemma_prefixed_not_geometry("--log-file="@);
    lemma_prefixed_not_geometry("--hwdec="@);
    lemma_prefixed_not_geometry("--cache-secs="@);
    lemma_prefixed_not_geometry("--cache-pause-wait="@);
    lemma_prefixed_not_geometry("--force-seekable="@);
    lemma_prefixed_not_geometry("--demuxer-max-bytes="@);
    lemma_prefixed_not_geometry("--demuxer-max-back-bytes="@);
    lemma_prefixed_not_geometry("--ytdl-format="@);
    lemma_prefixed_not_geometry("--ytdl-raw-options=cookies="@);
    lemma_prefixed_not_geometry("--cache=yes"@);
    assert(!has_prefix("--cache=yes"@, "--geometry="@)) by {
        assert("--cache=yes"@ + Seq::<char>::empty() =~= "--cache=yes"@);
    }
    lemma_prefixed_not_geometry("--cache-pause=yes"@);
    assert(!has_prefix("--cache-pause=yes"@, "--geometry="@)) by {
        assert("--cache-pause=yes"@ + Seq::<char>::empty() =~= "--cache-pause=yes"@);
    }
    lemma_prefixed_not_geometry("--ontop"@);
    assert(!has_prefix("--ontop"@, "--geometry="@)) by {
        assert("--ontop"@ + Seq::<char>::empty() =~= "--ontop"@);
    }
    lemma_prefixed_not_geometry("--no-video"@);
    assert(!has_prefix("--no-video"@, "--geometry="@)) by {
        assert("--no-video"@ + Seq::<char>::empty() =~= "--no-video"@);
    }
    lemma_prefixed_not_geometry("--macos-title-bar-appearance=darkAqua"@);
    assert(!has_prefix("--macos-title-bar-appearance=darkAqua"@, "--geometry="@)) by {
        assert("--macos-title-bar-appearance=darkAqua"@ + Seq::<char>::empty() =~= "--macos-title-bar-appearance=darkAqua"@);
    }
    lemma_prefixed_not_geometry("--macos-title-bar-material=dark"@);
    assert(!has_prefix("--macos-title-bar-material=dark"@, "--geometry="@)) by {
        assert("--macos-title-bar-material=dark"@ + Seq::<char>::empty() =~= "--macos-title-bar-material=dark"@);
    }
    lemma_prefixed_not_geometry("--corner-rounding=0.5"@);
    assert(!has_prefix("--corner-rounding=0.5"@, "--geometry="@)) by {
        assert("--corner-rounding=0.5"@ + Seq::<char>::empty() =~= "--corner-rounding=0.5"@);
    }
    lemma_prefixed_not_geometry("--background=color"@);
    assert(!has_prefix("--background=color"@, "--geometry="@)) by {
        assert("--background=color"@ + Seq::<char>::empty() =~= "--background=color"@);
    }
    lemma_prefixed_not_geometry("--background-color=#000000"@);
    assert(!has_prefix("--background-color=#000000"@, "--geometry="@)) by {
        assert("--background-color=#000000"@ + Seq::<char>::empty() =~= "--background-color=#000000"@);
    }
    lemma_prefixed_not_geometry("--osd-font=SF Pro"@);
    assert(!has_prefix("--osd-font=SF Pro"@, "--geometry="@)) by {
        assert("--osd-font=SF Pro"@ + Seq::<char>::empty() =~= "--osd-font=SF Pro"@);
    }
    lemma_prefixed_not_geometry("--osd-font-size=32"@);
    assert(!has_prefix("--osd-font-size=32"@, "--geometry="@)) by {
        assert("--osd-font-size=32"@ + Seq::<char>::empty() =~= "--osd-font-size=32"@);
    }
    lemma_prefixed_not_geometry("--osd-color=#FFFFFFFF"@);
    assert(!has_prefix("--osd-color=#FFFFFFFF"@, "--geometry="@)) by {
        assert("--osd-color=#FFFFFFFF"@ + Seq::<char>::empty() =~= "--osd-color=#FFFFFFFF"@);
    }
    lemma_prefixed_not_geometry("--osd-outline-size=1"@);
    assert(!has_prefix("--osd-outline-size=1"@, "--geometry="@)) by {
        assert("--osd-outline-size=1"@ + Seq::<char>::empty() =~= "--osd-outline-size=1"@);
    }
    lemma_prefixed_not_geometry("--osd-outline-color=#00000080"@);
    assert(!has_prefix("--osd-outline-color=#00000080"@, "--geometry="@)) by {
        assert("--osd-outline-color=#00000080"@ + Seq::<char>::empty() =~= "--osd-outline-color=#00000080"@);
    }
    lemma_prefixed_not_geometry("--osd-shadow-offset=0"@);
    assert(!has_prefix("--osd-shadow-offset=0"@, "--geometry="@)) by {
        assert("--osd-shadow-offset=0"@ + Seq::<char>::empty() =~= "--osd-shadow-offset=0"@);
    }
    lemma_prefixed_not_geometry("--osd-bar-h=2"@);
    assert(!has_prefix("--osd-bar-h=2"@, "--geometry="@)) by {
        assert("--osd-bar-h=2"@ + Seq::<char>::empty() =~= "--osd-bar-h=2"@);
    }
    lemma_prefixed_not_geometry("--osd-bar-w=90"@);
    assert(!has_prefix("--osd-bar-w=90"@, "--geometry="@)) by {
        assert("--osd-bar-w=90"@ + Seq::<char>::empty() =~= "--osd-bar-w=90"@);
    }
    lemma_prefixed_not_geometry("--osd-bar-align-y=0.95"@);
    assert(!has_prefix("--osd-bar-align-y=0.95"@, "--geometry="@)) by {
        assert("--osd-bar-align-y=0.95"@ + Seq::<char>::empty() =~= "--osd-bar-align-y=0.95"@);
    }
    let args = launch_args_spec(
        socket_path,
        url,
        mode,
        quality,
        s,
        geometry_override,
        log_path,
        cookie_path,
        macos,
    );
    let base = seq![
        "--input-ipc-server="@ + socket_path,
        "--log-file="@ + log_path,
        "--cache=yes"@,
        "--cache-pause=yes"@,
        "--hwdec="@ + s.hwdec@,
        "--cache-secs="@ + decimal_spec(s.cache_secs as nat),
        "--cache-pause-wait="@ + s.cache_pause_wait@,
        "--force-seekable="@ + if s.force_seekable {
            "yes"@
        } else {
            "no"@
        },
        "--demuxer-max-bytes="@ + s.demuxer_max_bytes@,
        "--demuxer-max-back-bytes="@ + s.demuxer_max_back_bytes@,
        "--ytdl-format="@ + quality_format_spec(quality),
    ];
    let mode_args = match mode {
        PlayMode::Video => {
            let geometry = match geometry_override {
                Some(g) => g,
                None => s.geometry@,
            };
            seq!["--geometry="@ + geometry] + (if s.ontop {
                seq!["--ontop"@]
            } else {
                Seq::empty()
            }) + (if macos {
                macos_args()
            } else {
                Seq::empty()
            })
        },
        PlayMode::AudioOnly => seq!["--no-video"@],
    };
    let cookie = match cookie_path {
        Some(c) => seq!["--ytdl-raw-options=cookies="@ + c],
        None => Seq::empty(),
    };
    assert(args == base + mode_args + cookie + seq![url]);
    assert(forall|i: int| 0 <= i < base.len() ==> !has_prefix(#[trigger] base[i], "--geometry="@));
    let tail = mode_args.drop_first();
    assert forall|i: int| 0 <= i < tail.len() implies !has_prefix(#[trigger] tail[i], "--geometry="@) by {
        if mode == PlayMode::Video {
            let on = if s.ontop {
                seq!["--ontop"@]
            } else {
                Seq::<Seq<char>>::empty()
            };
            let mac = if macos {
                macos_args()
            } else {
                Seq::<Seq<char>>::empty()
            };
            assert(tail =~= on + mac);
            if i < on.len() {
                assert(tail[i] == on[i]);
            } else {
                assert(tail[i] == mac[i - on.len()]);
            }
        }
    }
    assert forall|i: int| 0 <= i < cookie.len() implies !has_prefix(#[trigger] cookie[i], "--geometry="@) by {
    }
    if !has_prefix(url, "--geometry="@) {
        assert forall|i: int|
            0 <= i < args.len() && has_prefix(#[trigger] args[i], "--geometry="@) implies mode
                == PlayMode::Video && i == 11 by {
            if i < 11 {
                assert(args[i] == base[i]);
            } else if i == 11 {
                assert(args[i] == mode_args[0]);
            } else if i < 11 + mode_args.len() {
                assert(args[i] == mode_args[i - 11]);
                assert(mode_args[i - 11] == tail[i - 12]);
            } else if i < 11 + mode_args.len() + cookie.len() {
                assert(args[i] == cookie[i - 11 - mode_args.len()]);
            } else {
                assert(args[i] == url);
            }
        }
    }
}

/// The views of a list of strings.
pub open spec fn views(v: Seq<String>) -> Seq<Seq<char>> {
    v.map_values(|s: String| s@)
}

fn push_arg(args: &mut Vec<String>, a: String)
    ensures
        views(final(args)@) == views(old(args)@).push(a@),
{
    args.push(a);
    proof {
        assert(views(final(args)@) =~= views(old(args)@).push(a@));
    }
}

fn push_lit(args: &mut Vec<String>, a: &str)
    ensures
        views(final(args)@) == views(old(args)@).push(a@),
{
    push_arg(args, String::from_str(a));
}

fn push_macos_args(args: &mut Vec<String>)
    ensures
        views(final(args)@) == views(old(args)@) + macos_args(),
{
    let ghost start = views(args@);
    push_lit(args, "--macos-title-bar-appearance=darkAqua");
    push_lit(args, "--macos-title-bar-material=dark");
    push_lit(args, "--corner-rounding=0.5");
    push_lit(args, "--background=color");
    push_lit(args, "--background-color=#000000");
    push_lit(args, "--osd-font=SF Pro");
    push_lit(args, "--osd-font-size=32");
    push_lit(args, "--osd-color=#FFFFFFFF");
    push_lit(args, "--osd-outline-size=1");
    push_lit(args, "--osd-outline-color=#00000080");
    push_lit(args, "--osd-shadow-offset=0");
    push_lit(args, "--osd-bar-h=2");
    push_lit(args, "--osd-bar-w=90");
    push_lit(args, "--osd-bar-align-y=0.95");
    proof {
        assert(views(args@) =~= start + macos_args());
    }
}

/// The player's command line (see `launch_args_spec`). `cookie_path` is
/// given only for a cookie file that exists; `macos` tells whether this
/// runs on macOS.
pub fn build_launch_args(
    socket_path: &str,
    url: &str,
    mode: PlayMode,
    quality: PlaybackQuality,
    settings: &MpvSettings,
    geometry_override: Option<&str>,
    log_path: &str,
    cookie_path: Option<&str>,
    macos: bool,
) -> (args: Vec<String>)
    ensures
        views(args@) == launch_args_spec(
            socket_path@,
            url@,
            mode,
            quality,
            *settings,
            match geometry_override {
                Some(g) => Some(g@),
                None => None,
            },
            log_path@,
            match cookie_path {
                Some(c) => Some(c@),
                None => None,
            },
            macos,
        ),
{
    let mut args: Vec<String> = Vec::new();
    push_arg(&mut args, concat_str("--input-ipc-server=", socket_path));
    push_arg(&mut args, concat_str("--log-file=", log_path));
    push_lit(&mut args, "--cache=yes");
    push_lit(&mut args, "--cache-pause=yes");
    push_arg(&mut args, concat_str("--hwdec=", settings.hwdec.as_str()));
    let secs = decimal(settings.cache_secs as u128);
    push_arg(&mut args, concat_str("--cache-secs=", secs.as_str()));
    push_arg(&mut args, concat_str("--cache-pause-wait=", settings.cache_pause_wait.as_str()));
    let seekable = if settings.force_seekable {
        "yes"
    } else {
        "no"
    };
    push_arg(&mut args, concat_str("--force-seekable=", seekable));
    push_arg(&mut args, concat_str("--demuxer-max-bytes=", settings.demuxer_max_bytes.as_str()));
    push_arg(
        &mut args,
        concat_str("--demuxer-max-back-bytes=", settings.demuxer_max_back_bytes.as_str()),
    );
    push_arg(&mut args, concat_str("--ytdl-format=", quality.ytdl_format()));
    let ghost base = views(args@);
    match mode {
        PlayMode::Video => {
            let geometry = match geometry_override {
                Some(g) => g,
                None => settings.geometry.as_str(),
            };
            push_arg(&mut args, concat_str("--geometry=", geometry));
            if settings.ontop {
                push_lit(&mut args, "--ontop");
            }
            if macos {
                push_macos_args(&mut args);
            }
        },
        PlayMode::AudioOnly => {
            push_lit(&mut args, "--no-video");
        },
    }
    let ghost with_mode = views(args@);
    match cookie_path {
        Some(c) => {
            push_arg(&mut args, concat_str("--ytdl-raw-options=cookies=", c));
        },
        None => {},
    }
    let ghost with_cookie = views(args@);
    push_lit(&mut args, url);
    proof {
        let spec = launch_args_spec(
            socket_path@,
            url@,
            mode,
            quality,
            *settings,
            match geometry_override {
                Some(g) => Some(g@),
                None => None,
            },
            log_path@,
            match cookie_path {
                Some(c) => Some(c@),
                None => None,
            },
            macos,
        );
        assert(views(args@) =~= spec);
    }
    args
}

} // verus!

//! The argument lists handed to the external player, downloader and muxer.

use vstd::prelude::*;
use crate::download::{texts, Fetch, Merge};
use crate::media::{join, opt_view, Vid};

verus! {

/// `s` as a one-element list where it is there, empty otherwise.
pub open spec fn opt_arg(s: Option<Seq<char>>) -> Seq<Seq<char>> {
    match s {
        Some(v) => seq![v],
        None => Seq::empty(),
    }
}

/// The player arguments: the target, the forced title, user agent and
/// referrer, then the speed where one is set, looping, the extra audio
/// track and the chapter file, each where it applies.
pub open spec fn player_args_of(
    vid: Vid,
    target: Seq<char>,
    audio_file: Option<Seq<char>>,
    speed: Option<Seq<char>>,
    loop_file: bool,
) -> Seq<Seq<char>> {
    seq![
        target,
        "--force-media-title="@ + vid.title@,
        "--user-agent="@ + vid.user_agent@,
        "--referrer="@ + vid.referrer@,
    ] + opt_arg(
        match speed {
            Some(s) => Some("--speed="@ + s),
            None => None,
        },
    ) + (if loop_file {
        seq!["--loop-file"@]
    } else {
        Seq::empty()
    }) + opt_arg(
        match audio_file {
            Some(a) => Some("--audio-file="@ + a),
            None => None,
        },
    ) + opt_arg(
        match vid.chapter_file {
            Some(c) => Some("--chapters-file="@ + c@),
            None => None,
        },
    )
}

fn push_opt(out: &mut Vec<String>, flag: &str, value: &Option<String>)
    ensures
        texts(final(out)@) == texts(old(out)@) + opt_arg(
            match opt_view(*value) {
                Some(v) => Some(flag@ + v),
                None => None,
            },
        ),
{
    let ghost before = texts(out@);
    match value {
        Some(v) => {
            out.push(join(flag, v.as_str()));
            assert(texts(out@) =~= before + seq![flag@ + v@]);
        },
        None => {
            assert(texts(out@) =~= before + Seq::empty());
        },
    }
}

/// The arguments of a player invocation. `speed` is the speed as it is to
/// be passed, or `None` for the default speed.
pub fn player_args(
    vid: &Vid,
    target: &str,
    audio_file: &Option<String>,
    speed: &Option<String>,
    loop_file: bool,
) -> (r: Vec<String>)
    ensures
        texts(r@) == player_args_of(*vid, target@, opt_view(*audio_file), opt_view(*speed), loop_file),
{
    let mut out: Vec<String> = Vec::new();
    out.push(target.to_owned());
    out.push(join("--force-media-title=", vid.title.as_str()));
    out.push(join("--user-agent=", vid.user_agent.as_str()));
    out.push(join("--referrer=", vid.referrer.as_str()));
    assert(texts(out@) =~= seq![
        target@,
        "--force-media-title="@ + vid.title@,
        "--user-agent="@ + vid.user_agent@,
        "--referrer="@ + vid.referrer@,
    ]);
    push_opt(&mut out, "--speed=", speed);
    let ghost mid = texts(out@);
    if loop_file {
        out.push("--loop-file".to_owned());
        assert(texts(out@) =~= mid + seq!["--loop-file"@]);
    } else {
        assert(texts(out@) =~= mid + Seq::empty());
    }
    push_opt(&mut out, "--audio-file=", audio_file);
    push_opt(&mut out, "--chapters-file=", &vid.chapter_file);
    out
}

/// How the player is started.
#[derive(Clone, Copy, Debug, PartialEq, Eq, Structural)]
pub enum Launch {
    /// Through the mobile OS's activity launcher; a failure to start is fatal.
    Intent,
    /// As a windowed process that is not waited for.
    Window,
    /// Without video, waited for, its failure reported.
    Background,
}

/// Whether the choice of launcher depends on a player binary being present:
/// only for audio-only playback on a mobile platform.
pub fn needs_player_probe(mobile: bool, audio_only: bool) -> (r: bool)
    ensures
        r == (mobile && audio_only),
{
    mobile && audio_only
}

/// On a mobile platform the activity launcher is used, unless audio-only
/// playback is asked for and a player binary is at hand; elsewhere, audio-only
/// playback runs in the background and video in a window.
pub fn launcher(mobile: bool, audio_only: bool, player_present: bool) -> (r: Launch)
    ensures
        r == (if mobile && (!audio_only || !player_present) {
            Launch::Intent
        } else if audio_only {
            Launch::Background
        } else {
            Launch::Window
        }),
{
    if mobile && (!audio_only || !player_present) {
        Launch::Intent
    } else if audio_only {
        Launch::Background
    } else {
        Launch::Window
    }
}

/// The arguments that follow the player arguments for a launch.
pub fn launch_tail(launch: Launch) -> (r: Vec<String>)
    ensures
        texts(r@) == (match launch {
            Launch::Window => seq!["--no-terminal"@, "--force-window=immediate"@],
            Launch::Background => seq!["--no-video"@],
            Launch::Intent => Seq::<Seq<char>>::empty(),
        }),
{
    let mut out: Vec<String> = Vec::new();
    match launch {
        Launch::Window => {
            out.push("--no-terminal".to_owned());
            out.push("--force-window=immediate".to_owned());
        },
        Launch::Background => {
            out.push("--no-video".to_owned());
        },
        Launch::Intent => {},
    }
    assert(texts(out@) =~= (match launch {
        Launch::Window => seq!["--no-terminal"@, "--force-window=immediate"@],
        Launch::Background => seq!["--no-video"@],
        Launch::Intent => Seq::<Seq<char>>::empty(),
    }));
    out
}

/// The activity-launcher arguments that open `target` in the player app.
pub fn intent_args(target: &str) -> (r: Vec<String>)
    ensures
        texts(r@) == seq![
            "start"@,
            "--user"@,
            "0"@,
            "-a"@,
            "android.intent.action.VIEW"@,
            "-d"@,
            target@,
            "-n"@,
            "is.xyz.mpv/.MPVActivity"@,
        ],
{
    let out = vec![
        "start".to_owned(),
        "--user".to_owned(),
        "0".to_owned(),
        "-a".to_owned(),
        "android.intent.action.VIEW".to_owned(),
        "-d".to_owned(),
        target.to_owned(),
        "-n".to_owned(),
        "is.xyz.mpv/.MPVActivity".to_owned(),
    ];
    assert(texts(out@) =~= seq![
        "start"@,
        "--user"@,
        "0"@,
        "-a"@,
        "android.intent.action.VIEW"@,
        "-d"@,
        target@,
        "-n"@,
        "is.xyz.mpv/.MPVActivity"@,
    ]);
    out
}

/// The player binary's name on the given platform.
pub fn player_binary(windows: bool) -> (r: &'static str)
    ensures
        r@ == (if windows {
            "mpv.exe"@
        } else {
            "mpv"@
        }),
{
    if windows {
        "mpv.exe"
    } else {
        "mpv"
    }
}

/// The downloader arguments for one fetch: the link, sixteen connections
/// and splits, no certificate check, quiet output, the artifact name, then
/// the user agent and referrer headers.
pub fn downloader_args(vid: &Vid, fetch: &Fetch) -> (r: Vec<String>)
    ensures
        texts(r@) == seq![
            fetch.link@,
            "--max-connection-per-server=16"@,
            "--max-concurrent-downloads=16"@,
            "--split=16"@,
            "--min-split-size=1M"@,
            "--check-certificate=false"@,
            "--summary-interval=0"@,
            "--download-result=hide"@,
            "--out="@ + fetch.out_name@,
            "--user-agent"@,
            vid.user_agent@,
            "--referer"@,
            vid.referrer@,
        ],
{
    let out = vec![
        fetch.link.clone(),
        "--max-connection-per-server=16".to_owned(),
        "--max-concurrent-downloads=16".to_owned(),
        "--split=16".to_owned(),
        "--min-split-size=1M".to_owned(),
        "--check-certificate=false".to_owned(),
        "--summary-interval=0".to_owned(),
        "--download-result=hide".to_owned(),
        join("--out=", fetch.out_name.as_str()),
        "--user-agent".to_owned(),
        vid.user_agent.clone(),
        "--referer".to_owned(),
        vid.referrer.clone(),
    ];
    assert(texts(out@) =~= seq![
        fetch.link@,
        "--max-connection-per-server=16"@,
        "--max-concurrent-downloads=16"@,
        "--split=16"@,
        "--min-split-size=1M"@,
        "--check-certificate=false"@,
        "--summary-interval=0"@,
        "--download-result=hide"@,
        "--out="@ + fetch.out_name@,
        "--user-agent"@,
        vid.user_agent@,
        "--referer"@,
        vid.referrer@,
    ]);
    out
}

/// Each input preceded by `-i`.
pub open spec fn input_args(inputs: Seq<Seq<char>>) -> Seq<Seq<char>>
    decreases inputs.len(),
{
    if inputs.len() == 0 {
        Seq::empty()
    } else {
        input_args(inputs.drop_last()) + seq!["-i"@, inputs.last()]
    }
}

/// The muxer arguments of a merge: every input after `-i`, then stream copy,
/// overwrite allowed, and the output.
pub fn muxer_args(merge: &Merge) -> (r: Vec<String>)
    ensures
        texts(r@) == input_args(texts(merge.inputs@)) + seq!["-c"@, "copy"@, "-y"@, merge.output@],
{
    let mut out: Vec<String> = Vec::new();
    let mut i: usize = 0;
    while i < merge.inputs.len()
        invariant
            i <= merge.inputs@.len(),
            texts(out@) == input_args(texts(merge.inputs@.subrange(0, i as int))),
        decreases merge.inputs.len() - i,
    {
        let ghost before = texts(out@);
        out.push("-i".to_owned());
        out.push(merge.inputs[i].clone());
        assert(texts(merge.inputs@.subrange(0, i + 1)).drop_last() =~= texts(
            merge.inputs@.subrange(0, i as int),
        ));
        assert(texts(out@) =~= before + seq!["-i"@, merge.inputs@[i as int]@]);
        i += 1;
    }
    assert(merge.inputs@.subrange(0, merge.inputs@.len() as int) == merge.inputs@);
    let ghost before = texts(out@);
    out.push("-c".to_owned());
    out.push("copy".to_owned());
    out.push("-y".to_owned());
    out.push(merge.output.clone());
    assert(texts(out@) =~= before + seq!["-c"@, "copy"@, "-y"@, merge.output@]);
    out
}

} // verus!

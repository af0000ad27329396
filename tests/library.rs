use titans::args::{exit_code, parse_args, request_for, Stop, Todo};
use titans::download::{audio_extension, download_plan, merge_ready, video_extension, MergeKind};
use titans::invoke::{
    downloader_args, intent_args, launch_tail, launcher, muxer_args, needs_player_probe,
    player_args, player_binary, Launch,
};
use titans::media::{get_link_lines, playback, some_codec_matches, Vid};
use titans::site::{classify, patterns, sites_in_order, starts, strip_scheme, Pattern, Site};
use titans::title::{
    file_stem_of, is_space_char, remove_emojis, remove_multiple_spaces, truncate_title,
};

fn args_of(list: &[&str]) -> Vec<String> {
    list.iter().map(|s| s.to_string()).collect()
}

fn both_links() -> Vid {
    Vid {
        title: "Some Title".to_string(),
        vid_link: "https://v.example/video".to_string(),
        audio_link: Some("https://v.example/audio".to_string()),
        audio_codec: Some("opus".to_string()),
        vid_codec: Some("avc1.640028".to_string()),
        ..Vid::default()
    }
}

#[test]
fn default_descriptor_is_empty() {
    let v = Vid::default();
    assert_eq!(v.user_agent, "uwu");
    assert!(v.vid_link.is_empty() && v.title.is_empty() && v.referrer.is_empty());
    assert!(v.audio_link.is_none() && v.chapter_file.is_none() && v.resolution.is_none());
    assert!(!v.has_any_link());
    assert!(both_links().has_any_link());
}

#[test]
fn collapses_whitespace_runs() {
    assert_eq!(remove_multiple_spaces("  a \t b\n\nc  "), "a b c");
    assert_eq!(remove_multiple_spaces("   "), "   ");
    assert_eq!(remove_multiple_spaces(""), "");
    assert!(is_space_char('\u{3000}') && !is_space_char('x'));
}

#[test]
fn emoji_are_removed() {
    assert_eq!(remove_emojis("\u{1F3B5}Song\u{1F3B5}"), "Song");
    assert_eq!(remove_emojis("Party \u{1F389} time  \u{1F44D}\u{1F3FD}"), "Party time");
}

#[test]
fn sanitize_twice_is_sanitize_once() {
    for t in ["  Hello \u{1F600}  world \n", "\u{1F600}", "a\u{1F600}b", "   ", "x  y"] {
        let once = remove_emojis(t);
        assert_eq!(remove_emojis(&once), once);
    }
}

#[test]
fn long_title_is_cut_at_a_space() {
    let title = "word ".repeat(60);
    let cut = truncate_title(&title);
    assert!(cut.chars().count() < 201);
    assert!(title.starts_with(&cut));
    assert_eq!(title.chars().nth(cut.chars().count()), Some(' '));
    assert_eq!(cut.chars().count(), 199);
}

#[test]
fn long_title_without_space_keeps_budget() {
    let title = "a".repeat(300);
    assert_eq!(truncate_title(&title), "a".repeat(201));
    assert_eq!(truncate_title("short title"), "short title");
}

#[test]
fn file_stem_is_file_safe() {
    assert_eq!(file_stem_of("a/b\nc..."), "a|b c");
    assert_eq!(file_stem_of("plain"), "plain");
}

#[test]
fn scheme_and_www_are_stripped() {
    assert_eq!(strip_scheme("https://youtu.be/abc123"), "youtu.be/abc123");
    assert_eq!(strip_scheme("http://www.rumble.com/v1"), "rumble.com/v1");
    assert_eq!(strip_scheme("https://https://x.com/a"), "x.com/a");
}

#[test]
fn canonical_domains_route_to_their_site() {
    assert_eq!(classify("youtu.be/abc123"), Some(Site::Youtube));
    assert_eq!(classify("m.youtube.com/watch?v=1"), Some(Site::Youtube));
    assert_eq!(classify("old.reddit.com/r/a"), Some(Site::Reddit));
    assert_eq!(classify("x.com/a/status/1"), Some(Site::Twatter));
    assert_eq!(classify("odysee.com/@a/b"), Some(Site::Odysee));
    assert_eq!(classify("blog.substack.com/p/post"), Some(Site::Substack));
    assert_eq!(classify("rokfin.com/post/1"), Some(Site::Rokfin));
    assert_eq!(classify("open.spotify.com/episode/1"), Some(Site::Spotify));
}

#[test]
fn mirrors_route_like_canonical_domains() {
    for m in ["yewtu.be/watch?v=1", "inv.example/watch?v=1", "piped.video/watch?v=1"] {
        assert_eq!(classify(m), classify("youtu.be/1"));
    }
    for m in ["safereddit.com/r/a", "teddit.net/r/a", "lr.example/r/a"] {
        assert_eq!(classify(m), classify("old.reddit.com/r/a"));
    }
    for m in ["nitter.net/a", "xcancel.com/a", "n.example/a", "a.unofficialbird.com/b"] {
        assert_eq!(classify(m), classify("twitter.com/a"));
    }
    for m in ["dood.la/e/1", "ds2play.com/e/1"] {
        assert_eq!(classify(m), Some(Site::Doodstream));
    }
}

#[test]
fn unmatched_links_are_unsupported() {
    assert_eq!(classify("example.com/video"), None);
    assert_eq!(classify(""), None);
}

#[test]
fn prefix_lists_match() {
    assert!(starts(&["ab", "cd"], "cde"));
    assert!(!starts(&["ab", "cd"], "xcd"));
    assert!(!starts(&[], "a"));
}

#[test]
fn get_link_prints_video_then_audio() {
    assert_eq!(
        get_link_lines(&both_links(), false),
        vec!["https://v.example/video".to_string(), "https://v.example/audio".to_string()]
    );
}

#[test]
fn get_link_audio_only_prints_audio() {
    assert_eq!(get_link_lines(&both_links(), true), vec!["https://v.example/audio".to_string()]);
    let v = Vid { vid_link: "https://v".to_string(), ..Vid::default() };
    assert_eq!(get_link_lines(&v, true), vec!["https://v".to_string()]);
}

#[test]
fn audio_only_playback_targets_audio() {
    let (target, extra) = playback(&both_links(), true);
    assert_eq!(target, "https://v.example/audio");
    assert!(extra.is_none());
    let (target, extra) = playback(&both_links(), false);
    assert_eq!(target, "https://v.example/video");
    assert_eq!(extra.as_deref(), Some("https://v.example/audio"));
}

#[test]
fn codec_matching() {
    assert!(some_codec_matches(&Some("vp9.2".to_string()), "vp9", true));
    assert!(!some_codec_matches(&Some("vp9.2".to_string()), "vp9", false));
    assert!(some_codec_matches(&Some("opus".to_string()), "opus", false));
    assert!(!some_codec_matches(&None, "opus", false));
}

#[test]
fn video_codec_picks_container() {
    assert_eq!(video_extension(&Some("vp9".to_string())), "mkv");
    assert_eq!(video_extension(&Some("avc".to_string())), "mp4");
    assert_eq!(video_extension(&None), "mp4");
    assert_eq!(audio_extension(&Some("opus".to_string())), "opus");
    assert_eq!(audio_extension(&Some("mp4a.40.2".to_string())), "m4a");
    assert_eq!(audio_extension(&None), "mp3");
}

#[test]
fn single_stream_without_chapters_is_not_merged() {
    let v = Vid {
        title: "Clip".to_string(),
        vid_link: "https://v".to_string(),
        vid_codec: Some("vp9".to_string()),
        ..Vid::default()
    };
    let plan = download_plan(&v, false);
    assert_eq!(plan.fetches.len(), 1);
    assert_eq!(plan.fetches[0].out_name, "Clip.mkv");
    assert_eq!(plan.fetches[0].label, " video");
    assert!(plan.merge.is_none());
}

#[test]
fn both_links_with_chapters_merge_into_title() {
    let v = Vid {
        title: "My \u{1F600} Show".to_string(),
        chapter_file: Some("chapters.txt".to_string()),
        ..both_links()
    };
    let plan = download_plan(&v, false);
    assert_eq!(plan.fetches.len(), 2);
    assert_eq!(plan.fetches[0].out_name, "My Show video without chapters.mp4");
    assert_eq!(plan.fetches[1].out_name, "My Show audio without chapters.opus");
    let merge = plan.merge.clone().unwrap();
    assert_eq!(merge.kind, MergeKind::VideoAudioChapters);
    assert_eq!(merge.output, "My \u{1F600} Show.mp4");
    assert_eq!(
        merge.inputs,
        vec![
            "My Show video without chapters.mp4".to_string(),
            "My Show audio without chapters.opus".to_string(),
            "chapters.txt".to_string()
        ]
    );
    assert_eq!(merge.cleanup, vec![plan.fetches[0].out_name.clone(), plan.fetches[1].out_name.clone()]);
    assert_eq!(
        muxer_args(&merge),
        args_of(&[
            "-i",
            "My Show video without chapters.mp4",
            "-i",
            "My Show audio without chapters.opus",
            "-i",
            "chapters.txt",
            "-c",
            "copy",
            "-y",
            "My \u{1F600} Show.mp4"
        ])
    );
    assert!(merge_ready(&plan, &vec![true, true]));
    assert!(!merge_ready(&plan, &vec![true, false]));
}

#[test]
fn both_links_merge_without_chapters() {
    let plan = download_plan(&both_links(), false);
    assert_eq!(plan.fetches[0].out_name, "Some Title video.mp4");
    assert_eq!(plan.fetches[1].out_name, "Some Title audio.opus");
    let merge = plan.merge.unwrap();
    assert_eq!(merge.kind, MergeKind::VideoAudio);
    assert_eq!(merge.output, "Some Title.mp4");
}

#[test]
fn audio_only_download() {
    let plan = download_plan(&both_links(), true);
    assert_eq!(plan.fetches.len(), 1);
    assert_eq!(plan.fetches[0].link, "https://v.example/audio");
    assert_eq!(plan.fetches[0].out_name, "Some Title.opus");
    assert!(plan.merge.is_none());
    assert!(!merge_ready(&plan, &vec![true]));
    let v = Vid { chapter_file: Some("c.txt".to_string()), ..both_links() };
    let plan = download_plan(&v, true);
    assert_eq!(plan.fetches[0].out_name, "Some Title audio without chapters.opus");
    let merge = plan.merge.unwrap();
    assert_eq!(merge.kind, MergeKind::AudioChapters);
    assert_eq!(merge.output, "Some Title.opus");
}

#[test]
fn player_arguments() {
    let v = Vid { chapter_file: Some("c.txt".to_string()), ..both_links() };
    let (target, extra) = playback(&v, false);
    let got = player_args(&v, &target, &extra, &Some("1.5".to_string()), true);
    assert_eq!(
        got,
        args_of(&[
            "https://v.example/video",
            "--force-media-title=Some Title",
            "--user-agent=uwu",
            "--referrer=",
            "--speed=1.5",
            "--loop-file",
            "--audio-file=https://v.example/audio",
            "--chapters-file=c.txt"
        ])
    );
    assert_eq!(launch_tail(Launch::Background), args_of(&["--no-video"]));
    assert_eq!(launch_tail(Launch::Window), args_of(&["--no-terminal", "--force-window=immediate"]));
    assert_eq!(intent_args("u")[6], "u");
    assert_eq!(player_binary(true), "mpv.exe");
}

#[test]
fn launcher_choice() {
    assert_eq!(launcher(true, false, true), Launch::Intent);
    assert_eq!(launcher(true, true, false), Launch::Intent);
    assert_eq!(launcher(true, true, true), Launch::Background);
    assert_eq!(launcher(false, true, false), Launch::Background);
    assert_eq!(launcher(false, false, false), Launch::Window);
    assert!(needs_player_probe(true, true) && !needs_player_probe(false, true));
}

#[test]
fn downloader_arguments() {
    let v = both_links();
    let plan = download_plan(&v, false);
    let a = downloader_args(&v, &plan.fetches[0]);
    assert_eq!(a[0], "https://v.example/video");
    assert_eq!(a[8], "--out=Some Title video.mp4");
    assert_eq!(a[9..], args_of(&["--user-agent", "uwu", "--referer", ""])[..]);
}

#[test]
fn no_args_is_an_error() {
    let r = parse_args(&Vec::new());
    assert!(matches!(r, Err(Stop::NoArgs)));
    assert_eq!(exit_code(Stop::NoArgs), 1);
}

#[test]
fn second_link_is_refused() {
    let c = parse_args(&args_of(&["https://youtu.be/abc123", "https://youtu.be/zzz"])).unwrap();
    assert_eq!(c.link.as_deref(), Some("https://youtu.be/abc123"));
    assert!(c.multiple_links);
    let c = parse_args(&args_of(&["https://youtu.be/abc123"])).unwrap();
    assert!(!c.multiple_links);
}

#[test]
fn flags_fold_into_config() {
    let c = parse_args(&args_of(&["-g", "https://youtu.be/abc123"])).unwrap();
    assert_eq!(c.todo, Todo::GetLink);
    assert!(!c.audio_only);
    let c = parse_args(&args_of(&["-g", "-a", "https://youtu.be/abc123"])).unwrap();
    assert!(c.audio_only && c.todo == Todo::GetLink);
    let c = parse_args(&args_of(&["-q=720p", "--video-codec=vp9", "-d", "http://x.com/a"])).unwrap();
    assert_eq!(c.resolution, 720);
    assert_eq!(c.vid_codec, "vp9");
    assert_eq!(c.audio_codec, "opus");
    assert_eq!(c.todo, Todo::Download);
    assert!(!c.streaming_link);
    let c = parse_args(&args_of(&["--speed=1.5"])).unwrap();
    assert_eq!(c.speed.as_deref(), Some("1.5"));
    assert_eq!(c.todo, Todo::Play);
    let c = parse_args(&args_of(&["-m", "-c"])).unwrap();
    assert!(c.audio_only && c.loop_file && !c.is_dash);
    assert_eq!(c.speed.as_deref(), Some("1"));
    let c = parse_args(&args_of(&["-q=+1080"])).unwrap();
    assert_eq!(c.resolution, 1080);
}

#[test]
fn bad_arguments_stop() {
    assert!(matches!(parse_args(&args_of(&["-q=abc"])), Err(Stop::BadNumber(0))));
    assert!(matches!(parse_args(&args_of(&["-g", "-q=70000"])), Err(Stop::BadNumber(1))));
    assert!(matches!(parse_args(&args_of(&["-g", "--nope"])), Err(Stop::Invalid(1))));
    assert!(matches!(parse_args(&args_of(&["-h", "--nope"])), Err(Stop::Help)));
    assert!(matches!(parse_args(&args_of(&["-V"])), Err(Stop::Version)));
    assert_eq!(exit_code(Stop::Help), 0);
    assert_eq!(exit_code(Stop::Invalid(3)), 1);
}

#[test]
fn requests_carry_site_hints() {
    let c = parse_args(&args_of(&["-q=480", "https://youtu.be/abc123"])).unwrap();
    let r = request_for(Site::Youtube, "youtu.be/abc123", &c);
    assert_eq!(r.resolution, Some(480));
    assert_eq!(r.vid_codec.as_deref(), Some("avc"));
    assert_eq!(r.is_dash, Some(true));
    assert_eq!(r.streaming_link, None);
    let r = request_for(Site::Streamtape, "streamtape.com/v/1", &c);
    assert_eq!(r.resolution, None);
    assert_eq!(r.streaming_link, Some(true));
}

#[test]
fn get_link_scenario_end_to_end() {
    let c = parse_args(&args_of(&["-g", "https://youtu.be/abc123"])).unwrap();
    let fragment = strip_scheme(c.link.as_deref().unwrap());
    assert_eq!(classify(&fragment), Some(Site::Youtube));
    assert_eq!(get_link_lines(&both_links(), c.audio_only).len(), 2);
    let c = parse_args(&args_of(&["-g", "-a", "https://youtu.be/abc123"])).unwrap();
    assert_eq!(get_link_lines(&both_links(), c.audio_only), vec!["https://v.example/audio".to_string()]);
    assert_eq!(both_links(), both_links());
}

#[test]
fn cleanup_never_removes_the_output() {
    let title = format!("{} video without chapters", "a".repeat(201));
    let v = Vid { title: title.clone(), chapter_file: Some("c.txt".to_string()), ..both_links() };
    let plan = download_plan(&v, false);
    let merge = plan.merge.clone().unwrap();
    assert_eq!(merge.output, format!("{title}.mp4"));
    assert_eq!(plan.fetches[0].out_name, format!("{title}.mp4"));
    assert_eq!(merge.inputs[0], plan.fetches[0].out_name);
    assert_eq!(merge.cleanup, vec![plan.fetches[1].out_name.clone()]);
    let title = format!("{} video", "a".repeat(196));
    let v = Vid { title: title.clone(), ..both_links() };
    let plan = download_plan(&v, false);
    assert_eq!(plan.fetches[0].out_name, format!("{title}.mp4"));
    assert_eq!(plan.fetches[1].out_name, format!("{} audio.opus", "a".repeat(196)));
    assert_eq!(plan.merge.unwrap().cleanup, vec![plan.fetches[1].out_name.clone()]);
}

#[test]
fn every_alias_routes_to_its_own_site() {
    for site in sites_in_order() {
        for pat in patterns(site) {
            let text = match pat {
                Pattern::Prefix(p) => p,
                Pattern::Within(p) => p,
            };
            assert_eq!(classify(text), Some(site), "{text}");
            assert_eq!(classify(&format!("{text}watch/1")), Some(site), "{text}");
        }
    }
}

#[test]
fn unknown_site_is_unsupported() {
    let fragment = strip_scheme("https://example.com/v");
    assert_eq!(fragment, "example.com/v");
    assert_eq!(classify(&fragment), None);
}

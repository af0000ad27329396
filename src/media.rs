//! The media descriptor that every resolver produces, and the decisions
//! taken on it: printed links, playback target and player arguments.

use vstd::prelude::*;
use vstd::string::StringExecFns;
use crate::site::has_prefix;
use crate::title::chars_of;

verus! {

/// The normalized result of resolving one link.
#[derive(Debug, Clone, PartialEq)]
pub struct Vid {
    /// A fixed identifier sent to the player and the downloader.
    pub user_agent: String,
    /// Empty where no referrer header is wanted.
    pub referrer: String,
    pub title: String,
    /// Empty for audio-only content.
    pub vid_link: String,
    pub vid_codec: Option<String>,
    pub resolution: Option<u16>,
    /// Present where audio comes as a stream of its own.
    pub audio_link: Option<String>,
    pub audio_codec: Option<String>,
    /// A local chapter-marker file.
    pub chapter_file: Option<String>,
}

/// The text of an optional string.
pub open spec fn opt_view(o: Option<String>) -> Option<Seq<char>> {
    match o {
        Some(s) => Some(s@),
        None => None,
    }
}

impl Vid {
    /// At least one of the two links is there.
    pub open spec fn has_link(&self) -> bool {
        self.vid_link@.len() > 0 || self.audio_link.is_some()
    }

    /// Whether the descriptor holds a link to act on.
    pub fn has_any_link(&self) -> (r: bool)
        ensures
            r == self.has_link(),
    {
        self.vid_link.as_str().unicode_len() > 0 || self.audio_link.is_some()
    }
}

impl Default for Vid {
    fn default() -> (r: Self)
        ensures
            r.user_agent@ == "uwu"@,
            r.referrer@.len() == 0,
            r.title@.len() == 0,
            r.vid_link@.len() == 0,
            r.vid_codec.is_none(),
            r.resolution.is_none(),
            r.audio_link.is_none(),
            r.audio_codec.is_none(),
            r.chapter_file.is_none(),
    {
        Self {
            user_agent: String::from_str("uwu"),
            referrer: String::new(),
            title: String::new(),
            vid_link: String::new(),
            vid_codec: None,
            resolution: None,
            audio_link: None,
            audio_codec: None,
            chapter_file: None,
        }
    }
}

/// `a` followed by `b`.
pub fn join(a: &str, b: &str) -> (r: String)
    ensures
        r@ == a@ + b@,
{
    let mut s = a.to_owned();
    s.append(b);
    s
}

/// Whether a codec is given and equals `matches`, or, with `starts`,
/// begins with it.
pub open spec fn codec_matches(codec: Option<Seq<char>>, matches: Seq<char>, starts: bool) -> bool {
    match codec {
        Some(c) => if starts {
            matches.is_prefix_of(c)
        } else {
            c == matches
        },
        None => false,
    }
}

/// Whether a codec is given and equals `matches`, or, with `starts`,
/// begins with it.
pub fn some_codec_matches(codec: &Option<String>, matches: &str, starts: bool) -> (r: bool)
    ensures
        r == codec_matches(opt_view(*codec), matches@, starts),
{
    match codec {
        Some(c) => {
            let cs = chars_of(c.as_str());
            let hit = has_prefix(&cs, matches);
            if starts {
                hit
            } else {
                assert(cs@.subrange(0, cs@.len() as int) == cs@);
                hit && cs.len() == matches.unicode_len()
            }
        },
        None => false,
    }
}

/// The lines that link printing shows: the video link then the audio link;
/// the audio link alone in audio-only mode; the video link where there is
/// no separate audio.
pub open spec fn link_lines(vid: Vid, audio_only: bool) -> Seq<Seq<char>> {
    match vid.audio_link {
        Some(a) => if audio_only {
            seq![a@]
        } else {
            seq![vid.vid_link@, a@]
        },
        None => seq![vid.vid_link@],
    }
}

/// The lines to print for the get-link action.
pub fn get_link_lines(vid: &Vid, audio_only: bool) -> (r: Vec<String>)
    ensures
        r@.map_values(|s: String| s@) == link_lines(*vid, audio_only),
{
    let mut out: Vec<String> = Vec::new();
    match &vid.audio_link {
        Some(a) => {
            if !audio_only {
                out.push(vid.vid_link.clone());
            }
            out.push(a.clone());
        },
        None => {
            out.push(vid.vid_link.clone());
        },
    }
    assert(out@.map_values(|s: String| s@) =~= link_lines(*vid, audio_only));
    out
}

/// What the player is handed: the primary target, and a separate audio
/// track where there is one to add.
pub open spec fn playback_of(vid: Vid, audio_only: bool) -> (Seq<char>, Option<Seq<char>>) {
    if (audio_only && vid.audio_link.is_some()) || vid.vid_link@.len() == 0 {
        (vid.audio_link.unwrap()@, None)
    } else {
        (vid.vid_link@, opt_view(vid.audio_link))
    }
}

/// In audio-only mode with an audio link, or without a video link, the audio
/// link is the sole target; otherwise the video link is, with the audio link
/// as a secondary track where there is one.
pub fn playback(vid: &Vid, audio_only: bool) -> (r: (String, Option<String>))
    requires
        vid.has_link(),
    ensures
        (r.0@, opt_view(r.1)) == playback_of(*vid, audio_only),
        audio_only && vid.audio_link.is_some() ==> r.0@ == vid.audio_link.unwrap()@ && r.1.is_none(),
{
    let no_video = vid.vid_link.as_str().unicode_len() == 0;
    match &vid.audio_link {
        Some(a) => {
            if audio_only || no_video {
                (a.clone(), None)
            } else {
                (vid.vid_link.clone(), Some(a.clone()))
            }
        },
        None => (vid.vid_link.clone(), None),
    }
}

} // verus!

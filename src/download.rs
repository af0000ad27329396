//! Download planning: container extensions, artifact names, the fetches to
//! run, and the stream-copy merge with its cleanup.

use vstd::prelude::*;
use crate::media::{codec_matches, join, opt_view, some_codec_matches, Vid};
use crate::title::{file_stem, file_stem_of, remove_emojis, sanitized};

verus! {

/// The container for the video stream: Matroska for VP9, MP4 otherwise.
pub open spec fn video_ext(codec: Option<Seq<char>>) -> Seq<char> {
    if codec_matches(codec, "vp9"@, true) {
        "mkv"@
    } else {
        "mp4"@
    }
}

/// The container for the audio stream: Opus for an exact `opus`, M4A for an
/// `mp4a` family codec, MP3 otherwise.
pub open spec fn audio_ext(codec: Option<Seq<char>>) -> Seq<char> {
    if codec_matches(codec, "opus"@, false) {
        "opus"@
    } else if codec_matches(codec, "mp4a"@, true) {
        "m4a"@
    } else {
        "mp3"@
    }
}

/// The container extension for a video codec.
pub fn video_extension(codec: &Option<String>) -> (r: &'static str)
    ensures
        r@ == video_ext(opt_view(*codec)),
{
    if some_codec_matches(codec, "vp9", true) {
        "mkv"
    } else {
        "mp4"
    }
}

/// The container extension for an audio codec.
pub fn audio_extension(codec: &Option<String>) -> (r: &'static str)
    ensures
        r@ == audio_ext(opt_view(*codec)),
{
    if some_codec_matches(codec, "opus", false) {
        "opus"
    } else if some_codec_matches(codec, "mp4a", true) {
        "m4a"
    } else {
        "mp3"
    }
}

/// The marker that an artifact carries while its chapters are still apart.
pub open spec fn chapter_marker(vid: Vid) -> Seq<char> {
    if vid.chapter_file.is_some() {
        " without chapters"@
    } else {
        Seq::empty()
    }
}

/// The name of a stream artifact: the file-safe stem of the sanitized title,
/// the stream kind where it is kept, the chapter marker and the extension.
pub open spec fn artifact_name(vid: Vid, kind: Seq<char>, keep_kind: bool, ext: Seq<char>) -> Seq<
    char,
> {
    let k = if keep_kind || vid.chapter_file.is_some() {
        kind
    } else {
        Seq::empty()
    };
    file_stem(sanitized(vid.title@)) + k + chapter_marker(vid) + "."@ + ext
}

/// The final output: the title as it came, with the extension.
pub open spec fn output_name(vid: Vid, ext: Seq<char>) -> Seq<char> {
    vid.title@ + "."@ + ext
}

/// One external download: a link, the stream kind shown to the user, and
/// the artifact file it writes.
#[derive(Debug, Clone)]
pub struct Fetch {
    pub link: String,
    pub label: String,
    pub out_name: String,
}

/// What a merge combines.
#[derive(Clone, Copy, Debug, PartialEq, Eq, Structural)]
pub enum MergeKind {
    AudioChapters,
    VideoChapters,
    VideoAudio,
    VideoAudioChapters,
}

/// A stream-copy merge: its inputs in order, its output, and the artifacts
/// removed once it has succeeded.
#[derive(Debug, Clone)]
pub struct Merge {
    pub kind: MergeKind,
    pub inputs: Vec<String>,
    pub output: String,
    pub cleanup: Vec<String>,
}

/// The fetches to run in order, then the merge, if any.
#[derive(Debug, Clone)]
pub struct DownloadPlan {
    pub fetches: Vec<Fetch>,
    pub merge: Option<Merge>,
}

/// A fetch as text.
pub ghost struct FetchView {
    pub link: Seq<char>,
    pub label: Seq<char>,
    pub out_name: Seq<char>,
}

/// A merge as text.
pub ghost struct MergeView {
    pub kind: MergeKind,
    pub inputs: Seq<Seq<char>>,
    pub output: Seq<char>,
    pub cleanup: Seq<Seq<char>>,
}

/// A plan as text.
pub ghost struct PlanView {
    pub fetches: Seq<FetchView>,
    pub merge: Option<MergeView>,
}

/// The text of a list of strings.
pub open spec fn texts(v: Seq<String>) -> Seq<Seq<char>> {
    v.map_values(|s: String| s@)
}

impl Fetch {
    pub open spec fn view(&self) -> FetchView {
        FetchView { link: self.link@, label: self.label@, out_name: self.out_name@ }
    }
}

impl Merge {
    pub open spec fn view(&self) -> MergeView {
        MergeView {
            kind: self.kind,
            inputs: texts(self.inputs@),
            output: self.output@,
            cleanup: texts(self.cleanup@),
        }
    }
}

impl DownloadPlan {
    pub open spec fn view(&self) -> PlanView {
        PlanView {
            fetches: self.fetches@.map_values(|f: Fetch| f.view()),
            merge: match self.merge {
                Some(m) => Some(m.view()),
                None => None,
            },
        }
    }
}

/// The fetch of one stream.
pub open spec fn fetch_of(vid: Vid, link: Seq<char>, kind: Seq<char>, keep_kind: bool, ext: Seq<
    char,
>) -> FetchView {
    FetchView { link, label: kind, out_name: artifact_name(vid, kind, keep_kind, ext) }
}

/// `name` as an artifact to remove after a merge into `out`: never the
/// output itself.
pub open spec fn removable(name: Seq<char>, out: Seq<char>) -> Seq<Seq<char>> {
    if name == out {
        Seq::empty()
    } else {
        seq![name]
    }
}

/// What a download does with a descriptor. With a separate audio link and
/// audio-only mode, the audio alone is fetched, and merged with the chapter
/// file where there is one. With a separate audio link otherwise, video then
/// audio are fetched and merged, with the chapter file where there is one.
/// Without one, the video is fetched, and merged with the chapter file where
/// there is one. A merge removes its artifacts afterwards, all but one that
/// bears the output's own name.
pub open spec fn plan_of(vid: Vid, audio_only: bool) -> PlanView {
    let ve = video_ext(opt_view(vid.vid_codec));
    let ae = audio_ext(opt_view(vid.audio_codec));
    match vid.audio_link {
        Some(a) => if audio_only {
            let f = fetch_of(vid, a@, " audio"@, false, ae);
            PlanView {
                fetches: seq![f],
                merge: match vid.chapter_file {
                    Some(ch) => Some(
                        MergeView {
                            kind: MergeKind::AudioChapters,
                            inputs: seq![f.out_name, ch@],
                            output: output_name(vid, ae),
                            cleanup: removable(f.out_name, output_name(vid, ae)),
                        },
                    ),
                    None => None,
                },
            }
        } else {
            let fv = fetch_of(vid, vid.vid_link@, " video"@, true, ve);
            let fa = fetch_of(vid, a@, " audio"@, true, ae);
            let out = output_name(vid, ve);
            PlanView {
                fetches: seq![fv, fa],
                merge: Some(
                    match vid.chapter_file {
                        Some(ch) => MergeView {
                            kind: MergeKind::VideoAudioChapters,
                            inputs: seq![fv.out_name, fa.out_name, ch@],
                            output: out,
                            cleanup: removable(fv.out_name, out) + removable(fa.out_name, out),
                        },
                        None => MergeView {
                            kind: MergeKind::VideoAudio,
                            inputs: seq![fv.out_name, fa.out_name],
                            output: out,
                            cleanup: removable(fv.out_name, out) + removable(fa.out_name, out),
                        },
                    },
                ),
            }
        },
        None => {
            let f = fetch_of(vid, vid.vid_link@, " video"@, false, ve);
            PlanView {
                fetches: seq![f],
                merge: match vid.chapter_file {
                    Some(ch) => Some(
                        MergeView {
                            kind: MergeKind::VideoChapters,
                            inputs: seq![f.out_name, ch@],
                            output: output_name(vid, ve),
                            cleanup: removable(f.out_name, output_name(vid, ve)),
                        },
                    ),
                    None => None,
                },
            }
        },
    }
}

/// The artifact name for one stream, from the file-safe stem.
fn artifact(vid: &Vid, stem: &str, kind: &str, keep_kind: bool, ext: &str) -> (r: String)
    requires
        stem@ == file_stem(sanitized(vid.title@)),
    ensures
        r@ == artifact_name(*vid, kind@, keep_kind, ext@),
{
    let with_kind = if keep_kind || vid.chapter_file.is_some() {
        join(stem, kind)
    } else {
        stem.to_owned()
    };
    let marked = if vid.chapter_file.is_some() {
        join(with_kind.as_str(), " without chapters")
    } else {
        with_kind
    };
    let dotted = join(marked.as_str(), ".");
    let r = join(dotted.as_str(), ext);
    assert(r@ == artifact_name(*vid, kind@, keep_kind, ext@));
    r
}

/// The fetch of one stream.
fn make_fetch(vid: &Vid, stem: &str, link: &String, kind: &str, keep_kind: bool, ext: &str) -> (r:
    Fetch)
    requires
        stem@ == file_stem(sanitized(vid.title@)),
    ensures
        r.view() == fetch_of(*vid, link@, kind@, keep_kind, ext@),
{
    Fetch {
        link: link.clone(),
        label: kind.to_owned(),
        out_name: artifact(vid, stem, kind, keep_kind, ext),
    }
}

/// The final output name.
fn output(vid: &Vid, ext: &str) -> (r: String)
    ensures
        r@ == output_name(*vid, ext@),
{
    let dotted = join(vid.title.as_str(), ".");
    join(dotted.as_str(), ext)
}

proof fn lemma_removable(a: Seq<char>, b: Seq<char>, out: Seq<char>)
    ensures
        !removable(a, out).contains(out),
        !(removable(a, out) + removable(b, out)).contains(out),
{
    let s = removable(a, out) + removable(b, out);
    if s.contains(out) {
        let i = choose|i: int| 0 <= i < s.len() && s[i] == out;
        if i < removable(a, out).len() {
            assert(removable(a, out)[i] == out);
        } else {
            assert(removable(b, out)[i - removable(a, out).len()] == out);
        }
    }
}

/// Appends `name` to the removal list unless it is the output itself.
fn push_removable(cleanup: &mut Vec<String>, name: &String, out: &String)
    ensures
        texts(final(cleanup)@) == texts(old(cleanup)@) + removable(name@, out@),
{
    let ghost before = texts(cleanup@);
    if *name != *out {
        cleanup.push(name.clone());
        assert(texts(cleanup@) =~= before + seq![name@]);
    } else {
        assert(texts(cleanup@) =~= before + Seq::empty());
    }
}

/// Plans the download of a descriptor: the title is sanitized once and its
/// file-safe stem names every artifact; the merge writes the title as it
/// came, and removes the artifacts once it has succeeded, never the output.
pub fn download_plan(vid: &Vid, audio_only: bool) -> (r: DownloadPlan)
    ensures
        r.view() == plan_of(*vid, audio_only),
        vid.audio_link.is_none() ==> r.fetches@.len() == 1 && r.fetches@[0].out_name@
            == artifact_name(*vid, " video"@, false, video_ext(opt_view(vid.vid_codec))),
        vid.audio_link.is_none() && vid.chapter_file.is_none() ==> r.merge.is_none(),
        r.merge.is_some() ==> !r.merge.unwrap().view().cleanup.contains(r.merge.unwrap().output@),
{
    let no_emoji = remove_emojis(vid.title.as_str());
    let stem = file_stem_of(no_emoji.as_str());
    let ve = video_extension(&vid.vid_codec);
    let ae = audio_extension(&vid.audio_codec);
    let ghost pv = plan_of(*vid, audio_only);
    proof {
        let ve_s = video_ext(opt_view(vid.vid_codec));
        let ae_s = audio_ext(opt_view(vid.audio_codec));
        lemma_removable(
            artifact_name(*vid, " video"@, true, ve_s),
            artifact_name(*vid, " audio"@, true, ae_s),
            output_name(*vid, ve_s),
        );
        lemma_removable(
            artifact_name(*vid, " audio"@, false, ae_s),
            artifact_name(*vid, " audio"@, false, ae_s),
            output_name(*vid, ae_s),
        );
        lemma_removable(
            artifact_name(*vid, " video"@, false, ve_s),
            artifact_name(*vid, " video"@, false, ve_s),
            output_name(*vid, ve_s),
        );
    }
    match &vid.audio_link {
        Some(a) => {
            if audio_only {
                let f = make_fetch(vid, stem.as_str(), a, " audio", false, ae);
                let merge = match &vid.chapter_file {
                    Some(ch) => {
                        let out = output(vid, ae);
                        let inputs = vec![f.out_name.clone(), ch.clone()];
                        let mut cleanup: Vec<String> = Vec::new();
                        push_removable(&mut cleanup, &f.out_name, &out);
                        assert(texts(inputs@) =~= pv.merge.unwrap().inputs);
                        assert(texts(cleanup@) =~= pv.merge.unwrap().cleanup);
                        Some(Merge { kind: MergeKind::AudioChapters, inputs, output: out, cleanup })
                    },
                    None => None,
                };
                let r = DownloadPlan { fetches: vec![f], merge };
                assert(r.view().fetches =~= pv.fetches);
                r
            } else {
                let fv = make_fetch(vid, stem.as_str(), &vid.vid_link, " video", true, ve);
                let fa = make_fetch(vid, stem.as_str(), a, " audio", true, ae);
                let out = output(vid, ve);
                let mut cleanup: Vec<String> = Vec::new();
                push_removable(&mut cleanup, &fv.out_name, &out);
                push_removable(&mut cleanup, &fa.out_name, &out);
                assert(texts(cleanup@) =~= pv.merge.unwrap().cleanup);
                let merge = match &vid.chapter_file {
                    Some(ch) => {
                        let inputs = vec![fv.out_name.clone(), fa.out_name.clone(), ch.clone()];
                        assert(texts(inputs@) =~= pv.merge.unwrap().inputs);
                        Merge { kind: MergeKind::VideoAudioChapters, inputs, output: out, cleanup }
                    },
                    None => {
                        let inputs = vec![fv.out_name.clone(), fa.out_name.clone()];
                        assert(texts(inputs@) =~= pv.merge.unwrap().inputs);
                        Merge { kind: MergeKind::VideoAudio, inputs, output: out, cleanup }
                    },
                };
                let r = DownloadPlan { fetches: vec![fv, fa], merge: Some(merge) };
                assert(r.view().fetches =~= pv.fetches);
                r
            }
        },
        None => {
            let f = make_fetch(vid, stem.as_str(), &vid.vid_link, " video", false, ve);
            let merge = match &vid.chapter_file {
                Some(ch) => {
                    let out = output(vid, ve);
                    let inputs = vec![f.out_name.clone(), ch.clone()];
                    let mut cleanup: Vec<String> = Vec::new();
                    push_removable(&mut cleanup, &f.out_name, &out);
                    assert(texts(inputs@) =~= pv.merge.unwrap().inputs);
                    assert(texts(cleanup@) =~= pv.merge.unwrap().cleanup);
                    Some(Merge { kind: MergeKind::VideoChapters, inputs, output: out, cleanup })
                },
                None => None,
            };
            let r = DownloadPlan { fetches: vec![f], merge };
            assert(r.view().fetches =~= pv.fetches);
            r
        },
    }
}

/// With both links and a chapter file, a download that is not audio-only
/// fetches two distinct artifacts and merges them once, with the chapters,
/// into the title as it came with the video extension. Where neither
/// artifact bears the output's name, it then removes both.
pub proof fn lemma_full_merge(vid: Vid)
    requires
        vid.audio_link.is_some(),
        vid.chapter_file.is_some(),
        plan_of(vid, false).fetches[0].out_name != plan_of(vid, false).merge.unwrap().output,
        plan_of(vid, false).fetches[1].out_name != plan_of(vid, false).merge.unwrap().output,
    ensures
        plan_of(vid, false).fetches.len() == 2,
        plan_of(vid, false).fetches[0].out_name != plan_of(vid, false).fetches[1].out_name,
        plan_of(vid, false).merge.is_some(),
        plan_of(vid, false).merge.unwrap().output == vid.title@ + "."@ + video_ext(
            opt_view(vid.vid_codec),
        ),
        plan_of(vid, false).merge.unwrap().inputs == seq![
            plan_of(vid, false).fetches[0].out_name,
            plan_of(vid, false).fetches[1].out_name,
            vid.chapter_file.unwrap()@,
        ],
        plan_of(vid, false).merge.unwrap().cleanup == seq![
            plan_of(vid, false).fetches[0].out_name,
            plan_of(vid, false).fetches[1].out_name,
        ],
{
    let p = plan_of(vid, false);
    let stem = file_stem(sanitized(vid.title@));
    reveal_strlit(" video");
    reveal_strlit(" audio");
    let k: int = stem.len() as int + 1;
    assert(p.fetches[0].out_name[k] == 'v');
    assert(p.fetches[1].out_name[k] == 'a');
    assert(removable(p.fetches[0].out_name, p.merge.unwrap().output) + removable(
        p.fetches[1].out_name,
        p.merge.unwrap().output,
    ) =~= seq![p.fetches[0].out_name, p.fetches[1].out_name]);
}

/// Whether the merge of a plan may run, given which fetches succeeded: it
/// runs only where the plan has one and every artifact was fetched.
pub fn merge_ready(plan: &DownloadPlan, fetched: &Vec<bool>) -> (r: bool)
    ensures
        r == (plan.merge.is_some() && fetched@.len() == plan.fetches@.len() && forall|i: int|
            0 <= i < fetched@.len() ==> #[trigger] fetched@[i]),
{
    if plan.merge.is_none() || fetched.len() != plan.fetches.len() {
        return false;
    }
    let mut i: usize = 0;
    while i < fetched.len()
        invariant
            i <= fetched@.len(),
            forall|j: int| 0 <= j < i ==> #[trigger] fetched@[j],
        decreases fetched.len() - i,
    {
        if !fetched[i] {
            return false;
        }
        i += 1;
    }
    true
}

} // verus!

//! The run configuration: command-line arguments folded, in order, into one
//! immutable value that selects the action.

use vstd::prelude::*;
use crate::site::{has_prefix, Site};
use crate::title::{chars_of, string_of};

verus! {

/// The terminal action of a run.
#[derive(Clone, Copy, Debug, PartialEq, Eq, Structural)]
pub enum Todo {
    Play,
    Download,
    GetLink,
    Debug,
}

/// Why argument handling ends without a configuration. An index names the
/// offending argument.
#[derive(Clone, Copy, Debug, PartialEq, Eq, Structural)]
pub enum Stop {
    Help,
    Version,
    NoArgs,
    Invalid(usize),
    BadNumber(usize),
}

/// The run configuration.
#[derive(Debug, Clone)]
pub struct Config {
    pub todo: Todo,
    pub audio_only: bool,
    pub loop_file: bool,
    /// A streaming link rather than a download link is asked of the resolver.
    pub streaming_link: bool,
    /// Separate video and audio streams rather than a combined one.
    pub is_dash: bool,
    /// The wanted vertical resolution; 0 for the best.
    pub resolution: u16,
    pub vid_codec: String,
    pub audio_codec: String,
    /// The playback speed as written; `None` for the default.
    pub speed: Option<String>,
    /// The first link given.
    pub link: Option<String>,
    /// A second link was given and refused.
    pub multiple_links: bool,
}

/// A configuration as text.
pub ghost struct ConfigView {
    pub todo: Todo,
    pub audio_only: bool,
    pub loop_file: bool,
    pub streaming_link: bool,
    pub is_dash: bool,
    pub resolution: u16,
    pub vid_codec: Seq<char>,
    pub audio_codec: Seq<char>,
    pub speed: Option<Seq<char>>,
    pub link: Option<Seq<char>>,
    pub multiple_links: bool,
}

impl Config {
    pub open spec fn view(&self) -> ConfigView {
        ConfigView {
            todo: self.todo,
            audio_only: self.audio_only,
            loop_file: self.loop_file,
            streaming_link: self.streaming_link,
            is_dash: self.is_dash,
            resolution: self.resolution,
            vid_codec: self.vid_codec@,
            audio_codec: self.audio_codec@,
            speed: match self.speed {
                Some(s) => Some(s@),
                None => None,
            },
            link: match self.link {
                Some(s) => Some(s@),
                None => None,
            },
            multiple_links: self.multiple_links,
        }
    }
}

/// The configuration before any argument: inspect, streaming links, separate
/// streams, best resolution, AVC video and Opus audio.
pub open spec fn initial_config() -> ConfigView {
    ConfigView {
        todo: Todo::Debug,
        audio_only: false,
        loop_file: false,
        streaming_link: true,
        is_dash: true,
        resolution: 0,
        vid_codec: "avc"@,
        audio_codec: "opus"@,
        speed: None,
        link: None,
        multiple_links: false,
    }
}

/// The configuration before any argument.
pub fn initial() -> (r: Config)
    ensures
        r.view() == initial_config(),
{
    Config {
        todo: Todo::Debug,
        audio_only: false,
        loop_file: false,
        streaming_link: true,
        is_dash: true,
        resolution: 0,
        vid_codec: "avc".to_owned(),
        audio_codec: "opus".to_owned(),
        speed: None,
        link: None,
        multiple_links: false,
    }
}

pub open spec fn is_digit(c: char) -> bool {
    '0' <= c && c <= '9'
}

/// The number that a string of decimal digits writes.
pub open spec fn digits_value(s: Seq<char>) -> int
    decreases s.len(),
{
    if s.len() == 0 {
        0
    } else {
        digits_value(s.drop_last()) * 10 + (s.last() as u32 - '0' as u32)
    }
}

/// `s` without one leading `+`.
pub open spec fn unsigned_part(s: Seq<char>) -> Seq<char> {
    if s.len() > 0 && s[0] == '+' {
        s.drop_first()
    } else {
        s
    }
}

pub open spec fn all_digits(t: Seq<char>) -> bool {
    forall|i: int| 0 <= i < t.len() ==> is_digit(#[trigger] t[i])
}

/// A `u16` read in decimal, with an optional leading `+`.
pub open spec fn u16_of(s: Seq<char>) -> Option<u16> {
    let t = unsigned_part(s);
    if t.len() > 0 && all_digits(t) && digits_value(t) <= 65535 {
        Some(digits_value(t) as u16)
    } else {
        None
    }
}

proof fn lemma_digits_nonneg(s: Seq<char>)
    requires
        forall|i: int| 0 <= i < s.len() ==> is_digit(#[trigger] s[i]),
    ensures
        digits_value(s) >= 0,
    decreases s.len(),
{
    if s.len() > 0 {
        lemma_digits_nonneg(s.drop_last());
    }
}

/// Reads a `u16` in decimal, with an optional leading `+`.
pub fn parse_u16(s: &Vec<char>) -> (r: Option<u16>)
    ensures
        r == u16_of(s@),
{
    let start: usize = if s.len() > 0 && s[0] == '+' {
        1
    } else {
        0
    };
    let ghost t = s@.subrange(start as int, s@.len() as int);
    assert(start == 1 ==> t == s@.drop_first());
    assert(start == 0 ==> t == s@);
    if start == s.len() {
        return None;
    }
    let mut acc: u32 = 0;
    let mut over = false;
    let mut i: usize = start;
    while i < s.len()
        invariant
            start <= i <= s.len(),
            t == s@.subrange(start as int, s@.len() as int),
            t == unsigned_part(s@),
            forall|j: int| start <= j < i ==> is_digit(#[trigger] s@[j]),
            !over ==> acc == digits_value(s@.subrange(start as int, i as int)) && acc <= 65535,
            over ==> digits_value(s@.subrange(start as int, i as int)) > 65535,
        decreases s.len() - i,
    {
        let c = s[i];
        if !('0' <= c && c <= '9') {
            assert(t[i - start] == c);
            assert(!is_digit(t[i - start]));
            return None;
        }
        let ghost p = s@.subrange(start as int, i as int);
        assert(s@.subrange(start as int, i + 1).drop_last() == p);
        let d = (c as u32) - ('0' as u32);
        proof {
            assert forall|j: int| 0 <= j < p.len() implies is_digit(#[trigger] p[j]) by {
                assert(p[j] == s@[start + j]);
            }
            lemma_digits_nonneg(p);
        }
        if !over {
            acc = acc * 10 + d;
            if acc > 65535 {
                over = true;
            }
        } else {
            assert(digits_value(p) * 10 + d > 65535) by (nonlinear_arith)
                requires
                    digits_value(p) > 65535,
                    d >= 0,
            ;
        }
        i += 1;
    }
    assert(s@.subrange(start as int, s@.len() as int) == t);
    assert(forall|j: int| 0 <= j < t.len() ==> #[trigger] t[j] == s@[start + j]);
    if over {
        None
    } else {
        Some(acc as u16)
    }
}

/// `a` is the short or the long form of a flag.
pub open spec fn is_flag(a: Seq<char>, short: &str, long: &str) -> bool {
    a == short@ || a == long@
}

/// `a` starts with the short or the long form of a flag that takes a value.
pub open spec fn has_flag(a: Seq<char>, short: &str, long: &str) -> bool {
    short@.is_prefix_of(a) || long@.is_prefix_of(a)
}

/// The text after the flag's `=`.
pub open spec fn flag_value(a: Seq<char>, short: &str, long: &str) -> Seq<char> {
    if short@.is_prefix_of(a) {
        a.subrange(short@.len() as int, a.len() as int)
    } else {
        a.subrange(long@.len() as int, a.len() as int)
    }
}

/// The index of the last `=` in `h`, or -1 where it has none.
pub open spec fn last_eq(h: Seq<char>) -> int
    decreases h.len(),
{
    if h.len() == 0 {
        -1
    } else if h.last() == '=' {
        h.len() - 1
    } else {
        last_eq(h.drop_last())
    }
}

/// `s` without its trailing `p` characters.
pub open spec fn trim_p(s: Seq<char>) -> Seq<char>
    decreases s.len(),
{
    if s.len() > 0 && s.last() == 'p' {
        trim_p(s.drop_last())
    } else {
        s
    }
}

/// What one argument does to the configuration, or why handling stops at it
/// (the argument at index `i`).
pub open spec fn arg_step(c: ConfigView, a: Seq<char>, i: usize) -> Result<ConfigView, Stop> {
    if is_flag(a, "-h", "--help") {
        Err(Stop::Help)
    } else if is_flag(a, "-V", "--version") {
        Err(Stop::Version)
    } else if is_flag(a, "-g", "--get") {
        Ok(ConfigView { todo: Todo::GetLink, ..c })
    } else if is_flag(a, "-p", "--play") {
        Ok(ConfigView { todo: Todo::Play, ..c })
    } else if has_flag(a, "-sp=", "--speed=") {
        Ok(
            ConfigView {
                speed: Some(a.subrange(last_eq(a) + 1, a.len() as int)),
                todo: Todo::Play,
                ..c
            },
        )
    } else if is_flag(a, "-a", "--audio-only") {
        Ok(ConfigView { audio_only: true, ..c })
    } else if is_flag(a, "-l", "--loop") {
        Ok(ConfigView { loop_file: true, ..c })
    } else if is_flag(a, "-m", "--music") {
        Ok(
            ConfigView {
                audio_only: true,
                loop_file: true,
                speed: Some("1"@),
                todo: Todo::Play,
                ..c
            },
        )
    } else if is_flag(a, "-d", "--download") {
        Ok(ConfigView { todo: Todo::Download, streaming_link: false, ..c })
    } else if is_flag(a, "-D", "--dl_link") {
        Ok(ConfigView { streaming_link: false, ..c })
    } else if is_flag(a, "-s", "--stream_link") {
        Ok(ConfigView { streaming_link: true, ..c })
    } else if is_flag(a, "-c", "--combined") {
        Ok(ConfigView { is_dash: false, ..c })
    } else if is_flag(a, "-b", "--best") {
        Ok(ConfigView { resolution: 0, ..c })
    } else if has_flag(a, "-q=", "--quality=") {
        match u16_of(trim_p(flag_value(a, "-q=", "--quality="))) {
            Some(q) => Ok(ConfigView { resolution: q, ..c }),
            None => Err(Stop::BadNumber(i)),
        }
    } else if has_flag(a, "-vc=", "--video-codec=") {
        Ok(ConfigView { vid_codec: flag_value(a, "-vc=", "--video-codec="), ..c })
    } else if has_flag(a, "-ac=", "--audio-codec=") {
        Ok(ConfigView { audio_codec: flag_value(a, "-ac=", "--audio-codec="), ..c })
    } else if has_flag(a, "https://", "http://") {
        if c.link.is_none() {
            Ok(ConfigView { link: Some(a), ..c })
        } else {
            Ok(ConfigView { multiple_links: true, ..c })
        }
    } else {
        Err(Stop::Invalid(i))
    }
}

/// Folds the arguments from index `i` on into `c`.
pub open spec fn run_from(c: ConfigView, args: Seq<Seq<char>>, i: int) -> Result<ConfigView, Stop>
    decreases args.len() - i,
{
    if i < 0 || i >= args.len() || i >= usize::MAX {
        Ok(c)
    } else {
        match arg_step(c, args[i], i as usize) {
            Ok(c2) => run_from(c2, args, i + 1),
            Err(e) => Err(e),
        }
    }
}

/// The configuration that the arguments give, folded in order from the
/// initial one; no argument at all is an error of its own.
pub open spec fn config_of(args: Seq<Seq<char>>) -> Result<ConfigView, Stop> {
    if args.len() == 0 {
        Err(Stop::NoArgs)
    } else {
        run_from(initial_config(), args, 0)
    }
}

/// Whether `a` is the literal `lit`.
pub fn text_is(a: &Vec<char>, lit: &str) -> (r: bool)
    ensures
        r == (a@ == lit@),
{
    let p = has_prefix(a, lit);
    assert(p && a.len() == lit@.len() ==> a@.subrange(0, a@.len() as int) == a@);
    p && a.len() == lit.unicode_len()
}

fn is_flag_exec(a: &Vec<char>, short: &str, long: &str) -> (r: bool)
    ensures
        r == is_flag(a@, short, long),
{
    text_is(a, short) || text_is(a, long)
}

fn has_flag_exec(a: &Vec<char>, short: &str, long: &str) -> (r: bool)
    ensures
        r == has_flag(a@, short, long),
{
    has_prefix(a, short) || has_prefix(a, long)
}

fn copy_tail(v: &Vec<char>, k: usize) -> (r: Vec<char>)
    requires
        k <= v.len(),
    ensures
        r@ == v@.subrange(k as int, v@.len() as int),
{
    let mut out: Vec<char> = Vec::new();
    let mut i: usize = k;
    while i < v.len()
        invariant
            k <= i <= v.len(),
            out@ == v@.subrange(k as int, i as int),
        decreases v.len() - i,
    {
        out.push(v[i]);
        i += 1;
    }
    out
}

fn flag_value_exec(a: &Vec<char>, short: &str, long: &str) -> (r: Vec<char>)
    requires
        has_flag(a@, short, long),
    ensures
        r@ == flag_value(a@, short, long),
{
    if has_prefix(a, short) {
        copy_tail(a, short.unicode_len())
    } else {
        copy_tail(a, long.unicode_len())
    }
}

fn after_last_eq(a: &Vec<char>) -> (r: Vec<char>)
    ensures
        r@ == a@.subrange(last_eq(a@) + 1, a@.len() as int),
{
    let mut k: usize = a.len();
    assert(a@.subrange(0, a@.len() as int) == a@);
    while k > 0 && a[k - 1] != '='
        invariant
            k <= a.len(),
            last_eq(a@) == last_eq(a@.subrange(0, k as int)),
        decreases k,
    {
        assert(a@.subrange(0, k as int).drop_last() == a@.subrange(0, k - 1));
        k -= 1;
    }
    assert(a@.subrange(0, a@.len() as int) == a@);
    copy_tail(a, k)
}

fn trim_p_exec(v: &Vec<char>) -> (r: Vec<char>)
    ensures
        r@ == trim_p(v@),
{
    let mut out = copy_tail(v, 0);
    assert(v@.subrange(0, v@.len() as int) == v@);
    while out.len() > 0 && out[out.len() - 1] == 'p'
        invariant
            trim_p(out@) == trim_p(v@),
        decreases out.len(),
    {
        out.pop();
    }
    out
}

/// Applies the argument at index `i` to the configuration.
pub fn apply_arg(cfg: Config, arg: &str, i: usize) -> (r: Result<Config, Stop>)
    ensures
        match r {
            Ok(c) => arg_step(cfg.view(), arg@, i) == Ok::<ConfigView, Stop>(c.view()),
            Err(e) => arg_step(cfg.view(), arg@, i) == Err::<ConfigView, Stop>(e),
        },
{
    let a = chars_of(arg);
    let mut c = cfg;
    if is_flag_exec(&a, "-h", "--help") {
        Err(Stop::Help)
    } else if is_flag_exec(&a, "-V", "--version") {
        Err(Stop::Version)
    } else if is_flag_exec(&a, "-g", "--get") {
        c.todo = Todo::GetLink;
        Ok(c)
    } else if is_flag_exec(&a, "-p", "--play") {
        c.todo = Todo::Play;
        Ok(c)
    } else if has_flag_exec(&a, "-sp=", "--speed=") {
        let v = after_last_eq(&a);
        c.speed = Some(string_of(&v));
        c.todo = Todo::Play;
        Ok(c)
    } else if is_flag_exec(&a, "-a", "--audio-only") {
        c.audio_only = true;
        Ok(c)
    } else if is_flag_exec(&a, "-l", "--loop") {
        c.loop_file = true;
        Ok(c)
    } else if is_flag_exec(&a, "-m", "--music") {
        c.audio_only = true;
        c.loop_file = true;
        c.speed = Some("1".to_owned());
        c.todo = Todo::Play;
        Ok(c)
    } else if is_flag_exec(&a, "-d", "--download") {
        c.todo = Todo::Download;
        c.streaming_link = false;
        Ok(c)
    } else if is_flag_exec(&a, "-D", "--dl_link") {
        c.streaming_link = false;
        Ok(c)
    } else if is_flag_exec(&a, "-s", "--stream_link") {
        c.streaming_link = true;
        Ok(c)
    } else if is_flag_exec(&a, "-c", "--combined") {
        c.is_dash = false;
        Ok(c)
    } else if is_flag_exec(&a, "-b", "--best") {
        c.resolution = 0;
        Ok(c)
    } else if has_flag_exec(&a, "-q=", "--quality=") {
        let v = flag_value_exec(&a, "-q=", "--quality=");
        let t = trim_p_exec(&v);
        match parse_u16(&t) {
            Some(q) => {
                c.resolution = q;
                Ok(c)
            },
            None => Err(Stop::BadNumber(i)),
        }
    } else if has_flag_exec(&a, "-vc=", "--video-codec=") {
        let v = flag_value_exec(&a, "-vc=", "--video-codec=");
        c.vid_codec = string_of(&v);
        Ok(c)
    } else if has_flag_exec(&a, "-ac=", "--audio-codec=") {
        let v = flag_value_exec(&a, "-ac=", "--audio-codec=");
        c.audio_codec = string_of(&v);
        Ok(c)
    } else if has_flag_exec(&a, "https://", "http://") {
        if c.link.is_none() {
            c.link = Some(arg.to_owned());
        } else {
            c.multiple_links = true;
        }
        Ok(c)
    } else {
        Err(Stop::Invalid(i))
    }
}

/// Folds the arguments, in order, into the run configuration. Help and
/// version requests, an unknown argument and an unreadable number stop the
/// fold where they stand; a second link is refused and marked, and the first
/// one is kept.
pub fn parse_args(args: &Vec<String>) -> (r: Result<Config, Stop>)
    ensures
        match r {
            Ok(c) => config_of(args@.map_values(|s: String| s@)) == Ok::<ConfigView, Stop>(
                c.view(),
            ),
            Err(e) => config_of(args@.map_values(|s: String| s@)) == Err::<ConfigView, Stop>(e),
        },
{
    let ghost texts = args@.map_values(|s: String| s@);
    if args.len() == 0 {
        return Err(Stop::NoArgs);
    }
    let mut cfg = initial();
    let mut i: usize = 0;
    while i < args.len()
        invariant
            texts == args@.map_values(|s: String| s@),
            args@.len() > 0,
            i <= args.len(),
            run_from(cfg.view(), texts, i as int) == run_from(initial_config(), texts, 0),
        decreases args.len() - i,
    {
        assert(texts[i as int] == args@[i as int]@);
        match apply_arg(cfg, args[i].as_str(), i) {
            Ok(c) => {
                cfg = c;
            },
            Err(e) => {
                return Err(e);
            },
        }
        i += 1;
    }
    Ok(cfg)
}

/// The process exit status for a stop: 0 for help and version, 1 otherwise.
pub fn exit_code(stop: Stop) -> (r: i32)
    ensures
        r == (match stop {
            Stop::Help | Stop::Version => 0i32,
            _ => 1i32,
        }),
{
    match stop {
        Stop::Help | Stop::Version => 0,
        _ => 1,
    }
}

/// What a resolver is handed: the fragment, and the hints that its site
/// takes; a hint the site does not take is `None`.
#[derive(Debug, Clone)]
pub struct Request {
    pub site: Site,
    pub fragment: String,
    pub resolution: Option<u16>,
    pub vid_codec: Option<String>,
    pub audio_codec: Option<String>,
    pub streaming_link: Option<bool>,
    pub is_dash: Option<bool>,
}

/// The sites whose resolver takes a resolution hint.
pub open spec fn takes_resolution(site: Site) -> bool {
    site == Site::Rumble || site == Site::Youtube || site == Site::Twatter || site == Site::Rokfin
}

/// The sites whose resolver takes the streaming-or-download preference.
pub open spec fn takes_link_kind(site: Site) -> bool {
    site == Site::Streamhub || site == Site::Streamvid || site == Site::Streamtape || site
        == Site::Twatter || site == Site::Doodstream || site == Site::Vtube
}

/// Builds the request for the resolver of `site`: the codec and
/// separate-stream hints go to the video site that offers them, the
/// resolution and link-kind hints to the sites that take them.
pub fn request_for(site: Site, fragment: &str, cfg: &Config) -> (r: Request)
    ensures
        r.site == site,
        r.fragment@ == fragment@,
        r.resolution == (if takes_resolution(site) {
            Some(cfg.resolution)
        } else {
            None
        }),
        r.streaming_link == (if takes_link_kind(site) {
            Some(cfg.streaming_link)
        } else {
            None
        }),
        site == Site::Youtube ==> r.vid_codec.is_some() && r.vid_codec.unwrap()@ == cfg.vid_codec@
            && r.audio_codec.is_some() && r.audio_codec.unwrap()@ == cfg.audio_codec@ && r.is_dash
            == Some(cfg.is_dash),
        site != Site::Youtube ==> r.vid_codec.is_none() && r.audio_codec.is_none() && r.is_dash.is_none(),
{
    let res = match site {
        Site::Rumble | Site::Youtube | Site::Twatter | Site::Rokfin => Some(cfg.resolution),
        _ => None,
    };
    let kind = match site {
        Site::Streamhub | Site::Streamvid | Site::Streamtape | Site::Twatter | Site::Doodstream
        | Site::Vtube => Some(cfg.streaming_link),
        _ => None,
    };
    let yt = match site {
        Site::Youtube => true,
        _ => false,
    };
    Request {
        site,
        fragment: fragment.to_owned(),
        resolution: res,
        vid_codec: if yt {
            Some(cfg.vid_codec.clone())
        } else {
            None
        },
        audio_codec: if yt {
            Some(cfg.audio_codec.clone())
        } else {
            None
        },
        streaming_link: kind,
        is_dash: if yt {
            Some(cfg.is_dash)
        } else {
            None
        },
    }
}

} // verus!

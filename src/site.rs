//! Site classification: which resolver a link fragment is routed to.

use crate::title::chars_of;
use crate::title::string_of;
use vstd::prelude::*;

verus! {

/// The sites whose links can be resolved, one resolver each.
#[derive(Clone, Copy, Debug, PartialEq, Eq, Structural)]
pub enum Site {
    Substack,
    Streamhub,
    Streamvid,
    Streamtape,
    Streamdav,
    Wolfstream,
    Spotify,
    Bitchute,
    Rumble,
    Odysee,
    Youtube,
    Reddit,
    Twatter,
    Doodstream,
    Vtube,
    Libsyn,
    Mp4upload,
    Rokfin,
}

/// One alias of a site: a prefix of the fragment, or a substring anywhere in it.
#[derive(Clone, Copy, Debug)]
pub enum Pattern {
    Prefix(&'static str),
    Within(&'static str),
}

/// The aliases of each site: its canonical domain first, then mirrors and
/// alternative front-ends.
pub open spec fn site_patterns(site: Site) -> Seq<Pattern> {
    match site {
        Site::Substack => seq![
            Pattern::Within(".substack.com/p/"),
        ],
        Site::Streamhub => seq![
            Pattern::Prefix("streamhub."),
        ],
        Site::Streamvid => seq![
            Pattern::Prefix("streamvid."),
        ],
        Site::Streamtape => seq![
            Pattern::Prefix("streamtape."),
        ],
        Site::Streamdav => seq![
            Pattern::Prefix("streamdav.com/"),
        ],
        Site::Wolfstream => seq![
            Pattern::Prefix("wolfstream.tv/"),
        ],
        Site::Spotify => seq![
            Pattern::Prefix("open.spotify.com/episode/"),
            Pattern::Prefix("open.spotify.com/embed/episode/"),
        ],
        Site::Bitchute => seq![
            Pattern::Prefix("bitchute.com/"),
        ],
        Site::Rumble => seq![
            Pattern::Prefix("rumble.com/"),
        ],
        Site::Odysee => seq![
            Pattern::Prefix("odysee.com/"),
            Pattern::Prefix("lbry."),
            Pattern::Prefix("librarian."),
            Pattern::Prefix("odysee.076.ne.jp/"),
        ],
        Site::Youtube => seq![
            Pattern::Within("youtube.com/"),
            Pattern::Prefix("youtu.be/"),
            Pattern::Prefix("hyperpipe."),
            Pattern::Prefix("music."),
            Pattern::Prefix("listen."),
            Pattern::Prefix("hp."),
            Pattern::Prefix("piped."),
            Pattern::Prefix("watch.leptons.xyz/"),
            Pattern::Prefix("pi.ggtyler.dev"),
            Pattern::Prefix("invidious."),
            Pattern::Prefix("inv."),
            Pattern::Prefix("iv."),
            Pattern::Prefix("yt."),
            Pattern::Prefix("yewtu.be/"),
            Pattern::Prefix("vid.puffyan.us/"),
            Pattern::Prefix("vid.priv.au/"),
            Pattern::Prefix("onion.tube/"),
            Pattern::Prefix("anontube.lvkaszus.pl/"),
        ],
        Site::Reddit => seq![
            Pattern::Prefix("old.reddit.com/"),
            Pattern::Prefix("redd.it/"),
            Pattern::Prefix("reddit."),
            Pattern::Prefix("libreddit."),
            Pattern::Prefix("lr."),
            Pattern::Prefix("safereddit.com/"),
            Pattern::Prefix("r.walkx.fyi/"),
            Pattern::Prefix("l.opnxng.com/"),
            Pattern::Prefix("snoo.habedieeh.re/"),
            Pattern::Prefix("teddit."),
            Pattern::Prefix("snoo.ioens.is/"),
            Pattern::Prefix("incogsnoo.com/"),
            Pattern::Prefix("rdt.trom.tf/"),
            Pattern::Prefix("i.opnxng.com/"),
            Pattern::Prefix("td.vern.cc/"),
            Pattern::Prefix("t.sneed.network/"),
        ],
        Site::Twatter => seq![
            Pattern::Prefix("x.com/"),
            Pattern::Prefix("mobile.x.com/"),
            Pattern::Prefix("twitter.com/"),
            Pattern::Prefix("mobile.twitter.com/"),
            Pattern::Prefix("nitter."),
            Pattern::Prefix("nt."),
            Pattern::Prefix("n."),
            Pattern::Prefix("twiiit.com/"),
            Pattern::Prefix("tweet.lambda.dance/"),
            Pattern::Prefix("bird.habedieeh.re/"),
            Pattern::Prefix("t.com.sb/"),
            Pattern::Prefix("xcancel.com/"),
            Pattern::Within("unofficialbird.com/"),
        ],
        Site::Doodstream => seq![
            Pattern::Prefix("doodstream.com/"),
            Pattern::Prefix("d0o0d.com/"),
            Pattern::Prefix("d0000d.com/"),
            Pattern::Prefix("ds2play.com/"),
            Pattern::Prefix("dooood.com/"),
            Pattern::Prefix("doods.pro/"),
            Pattern::Prefix("dood."),
        ],
        Site::Vtube => seq![
            Pattern::Prefix("vtbe.to/"),
            Pattern::Prefix("vtube.network/"),
        ],
        Site::Libsyn => seq![
            Pattern::Prefix("play.libsyn.com"),
            Pattern::Prefix("html5-player.libsyn.com"),
        ],
        Site::Mp4upload => seq![
            Pattern::Prefix("mp4upload.com/"),
        ],
        Site::Rokfin => seq![
            Pattern::Prefix("rokfin.com/post/"),
        ],
    }
}

/// The aliases of `site`, in table order.
pub fn patterns(site: Site) -> (r: Vec<Pattern>)
    ensures
        r@ == site_patterns(site),
{
    match site {
        Site::Substack => vec![
            Pattern::Within(".substack.com/p/"),
        ],
        Site::Streamhub => vec![
            Pattern::Prefix("streamhub."),
        ],
        Site::Streamvid => vec![
            Pattern::Prefix("streamvid."),
        ],
        Site::Streamtape => vec![
            Pattern::Prefix("streamtape."),
        ],
        Site::Streamdav => vec![
            Pattern::Prefix("streamdav.com/"),
        ],
        Site::Wolfstream => vec![
            Pattern::Prefix("wolfstream.tv/"),
        ],
        Site::Spotify => vec![
            Pattern::Prefix("open.spotify.com/episode/"),
            Pattern::Prefix("open.spotify.com/embed/episode/"),
        ],
        Site::Bitchute => vec![
            Pattern::Prefix("bitchute.com/"),
        ],
        Site::Rumble => vec![
            Pattern::Prefix("rumble.com/"),
        ],
        Site::Odysee => vec![
            Pattern::Prefix("odysee.com/"),
            Pattern::Prefix("lbry."),
            Pattern::Prefix("librarian."),
            Pattern::Prefix("odysee.076.ne.jp/"),
        ],
        Site::Youtube => vec![
            Pattern::Within("youtube.com/"),
            Pattern::Prefix("youtu.be/"),
            Pattern::Prefix("hyperpipe."),
            Pattern::Prefix("music."),
            Pattern::Prefix("listen."),
            Pattern::Prefix("hp."),
            Pattern::Prefix("piped."),
            Pattern::Prefix("watch.leptons.xyz/"),
            Pattern::Prefix("pi.ggtyler.dev"),
            Pattern::Prefix("invidious."),
            Pattern::Prefix("inv."),
            Pattern::Prefix("iv."),
            Pattern::Prefix("yt."),
            Pattern::Prefix("yewtu.be/"),
            Pattern::Prefix("vid.puffyan.us/"),
            Pattern::Prefix("vid.priv.au/"),
            Pattern::Prefix("onion.tube/"),
            Pattern::Prefix("anontube.lvkaszus.pl/"),
        ],
        Site::Reddit => vec![
            Pattern::Prefix("old.reddit.com/"),
            Pattern::Prefix("redd.it/"),
            Pattern::Prefix("reddit."),
            Pattern::Prefix("libreddit."),
            Pattern::Prefix("lr."),
            Pattern::Prefix("safereddit.com/"),
            Pattern::Prefix("r.walkx.fyi/"),
            Pattern::Prefix("l.opnxng.com/"),
            Pattern::Prefix("snoo.habedieeh.re/"),
            Pattern::Prefix("teddit."),
            Pattern::Prefix("snoo.ioens.is/"),
            Pattern::Prefix("incogsnoo.com/"),
            Pattern::Prefix("rdt.trom.tf/"),
            Pattern::Prefix("i.opnxng.com/"),
            Pattern::Prefix("td.vern.cc/"),
            Pattern::Prefix("t.sneed.network/"),
        ],
        Site::Twatter => vec![
            Pattern::Prefix("x.com/"),
            Pattern::Prefix("mobile.x.com/"),
            Pattern::Prefix("twitter.com/"),
            Pattern::Prefix("mobile.twitter.com/"),
            Pattern::Prefix("nitter."),
            Pattern::Prefix("nt."),
            Pattern::Prefix("n."),
            Pattern::Prefix("twiiit.com/"),
            Pattern::Prefix("tweet.lambda.dance/"),
            Pattern::Prefix("bird.habedieeh.re/"),
            Pattern::Prefix("t.com.sb/"),
            Pattern::Prefix("xcancel.com/"),
            Pattern::Within("unofficialbird.com/"),
        ],
        Site::Doodstream => vec![
            Pattern::Prefix("doodstream.com/"),
            Pattern::Prefix("d0o0d.com/"),
            Pattern::Prefix("d0000d.com/"),
            Pattern::Prefix("ds2play.com/"),
            Pattern::Prefix("dooood.com/"),
            Pattern::Prefix("doods.pro/"),
            Pattern::Prefix("dood."),
        ],
        Site::Vtube => vec![
            Pattern::Prefix("vtbe.to/"),
            Pattern::Prefix("vtube.network/"),
        ],
        Site::Libsyn => vec![
            Pattern::Prefix("play.libsyn.com"),
            Pattern::Prefix("html5-player.libsyn.com"),
        ],
        Site::Mp4upload => vec![
            Pattern::Prefix("mp4upload.com/"),
        ],
        Site::Rokfin => vec![
            Pattern::Prefix("rokfin.com/post/"),
        ],
    }
}

/// The order in which sites are tried: longer, more specific site families
/// come before the looser ones.
pub open spec fn priority() -> Seq<Site> {
    seq![
        Site::Substack,
        Site::Streamhub,
        Site::Streamvid,
        Site::Streamtape,
        Site::Streamdav,
        Site::Wolfstream,
        Site::Spotify,
        Site::Bitchute,
        Site::Rumble,
        Site::Odysee,
        Site::Youtube,
        Site::Reddit,
        Site::Twatter,
        Site::Doodstream,
        Site::Vtube,
        Site::Libsyn,
        Site::Mp4upload,
        Site::Rokfin,
    ]
}

/// The place of `site` in the priority order.
pub open spec fn rank(site: Site) -> int {
    match site {
        Site::Substack => 0,
        Site::Streamhub => 1,
        Site::Streamvid => 2,
        Site::Streamtape => 3,
        Site::Streamdav => 4,
        Site::Wolfstream => 5,
        Site::Spotify => 6,
        Site::Bitchute => 7,
        Site::Rumble => 8,
        Site::Odysee => 9,
        Site::Youtube => 10,
        Site::Reddit => 11,
        Site::Twatter => 12,
        Site::Doodstream => 13,
        Site::Vtube => 14,
        Site::Libsyn => 15,
        Site::Mp4upload => 16,
        Site::Rokfin => 17,
    }
}

/// The sites in priority order.
pub fn sites_in_order() -> (r: Vec<Site>)
    ensures
        r@ == priority(),
{
    vec![
        Site::Substack,
        Site::Streamhub,
        Site::Streamvid,
        Site::Streamtape,
        Site::Streamdav,
        Site::Wolfstream,
        Site::Spotify,
        Site::Bitchute,
        Site::Rumble,
        Site::Odysee,
        Site::Youtube,
        Site::Reddit,
        Site::Twatter,
        Site::Doodstream,
        Site::Vtube,
        Site::Libsyn,
        Site::Mp4upload,
        Site::Rokfin,
    ]
}

/// `p` stands somewhere inside `s`.
pub open spec fn occurs_in(p: Seq<char>, s: Seq<char>) -> bool {
    exists|k: int| 0 <= k && k + p.len() <= s.len() && #[trigger] s.subrange(k, k + p.len()) == p
}

/// Whether the fragment `s` shows the alias `pat`.
pub open spec fn pattern_matches(pat: Pattern, s: Seq<char>) -> bool {
    match pat {
        Pattern::Prefix(p) => p@.is_prefix_of(s),
        Pattern::Within(p) => occurs_in(p@, s),
    }
}

/// Whether any alias of `site` matches the fragment `s`.
pub open spec fn site_matches(site: Site, s: Seq<char>) -> bool {
    exists|i: int|
        0 <= i < site_patterns(site).len() && pattern_matches(#[trigger] site_patterns(site)[i], s)
}

/// The first site of `order` that matches `s`.
pub open spec fn first_match(order: Seq<Site>, s: Seq<char>) -> Option<Site>
    decreases order.len(),
{
    if order.len() == 0 {
        None
    } else if site_matches(order[0], s) {
        Some(order[0])
    } else {
        first_match(order.drop_first(), s)
    }
}

/// The resolver that a fragment is routed to; `None` where it is unsupported.
pub open spec fn site_of(s: Seq<char>) -> Option<Site> {
    first_match(priority(), s)
}

/// Whether `p` is a prefix of `s`.
pub fn has_prefix(s: &Vec<char>, p: &str) -> (r: bool)
    ensures
        r == p@.is_prefix_of(s@),
{
    let n = p.unicode_len();
    if n > s.len() {
        return false;
    }
    let mut i: usize = 0;
    while i < n
        invariant
            n == p@.len() <= s.len(),
            i <= n,
            forall|j: int| 0 <= j < i ==> s@[j] == p@[j],
        decreases n - i,
    {
        if s[i] != p.get_char(i) {
            assert(s@.subrange(0, n as int)[i as int] != p@[i as int]);
            return false;
        }
        i += 1;
    }
    assert(p@ =~= s@.subrange(0, n as int));
    true
}

/// Whether `p` stands at position `k` of `s`.
fn occurs_at(s: &Vec<char>, p: &Vec<char>, k: usize) -> (r: bool)
    requires
        k + p.len() <= s.len(),
    ensures
        r == (s@.subrange(k as int, k + p.len()) == p@),
{
    let mut i: usize = 0;
    while i < p.len()
        invariant
            k + p.len() <= s.len(),
            i <= p.len(),
            forall|j: int| 0 <= j < i ==> s@[k + j] == p@[j],
        decreases p.len() - i,
    {
        if s[k + i] != p[i] {
            assert(s@.subrange(k as int, k + p.len())[i as int] != p@[i as int]);
            return false;
        }
        i += 1;
    }
    assert(s@.subrange(k as int, k + p.len()) =~= p@);
    true
}

/// Whether `p` stands somewhere inside `s`.
pub fn occurs(s: &Vec<char>, p: &str) -> (r: bool)
    ensures
        r == occurs_in(p@, s@),
{
    let pc = chars_of(p);
    if pc.len() > s.len() {
        return false;
    }
    let last = s.len() - pc.len();
    let mut k: usize = 0;
    loop
        invariant
            pc@ == p@,
            last + pc.len() == s.len(),
            k <= last,
            forall|j: int| 0 <= j < k ==> #[trigger] s@.subrange(j, j + p@.len()) != p@,
        decreases last - k,
    {
        if occurs_at(s, &pc, k) {
            return true;
        }
        if k == last {
            return false;
        }
        k += 1;
    }
}

/// Whether the fragment `s` shows the alias `pat`.
pub fn pattern_hit(pat: Pattern, s: &Vec<char>) -> (r: bool)
    ensures
        r == pattern_matches(pat, s@),
{
    match pat {
        Pattern::Prefix(p) => has_prefix(s, p),
        Pattern::Within(p) => occurs(s, p),
    }
}

/// Whether `arg` starts with one of `prefixes`.
pub fn starts(prefixes: &[&str], arg: &str) -> (r: bool)
    ensures
        r == exists|i: int| 0 <= i < prefixes@.len() && (#[trigger] prefixes@[i])@.is_prefix_of(arg@),
{
    let s = chars_of(arg);
    let mut i: usize = 0;
    while i < prefixes.len()
        invariant
            s@ == arg@,
            i <= prefixes@.len(),
            forall|j: int| 0 <= j < i ==> !(#[trigger] prefixes@[j])@.is_prefix_of(arg@),
        decreases prefixes.len() - i,
    {
        if has_prefix(&s, prefixes[i]) {
            return true;
        }
        i += 1;
    }
    false
}

/// Whether any alias of `site` matches the fragment `s`.
pub fn site_hit(site: Site, s: &Vec<char>) -> (r: bool)
    ensures
        r == site_matches(site, s@),
{
    let pats = patterns(site);
    let mut i: usize = 0;
    while i < pats.len()
        invariant
            pats@ == site_patterns(site),
            i <= pats.len(),
            forall|j: int| 0 <= j < i ==> !pattern_matches(#[trigger] site_patterns(site)[j], s@),
        decreases pats.len() - i,
    {
        if pattern_hit(pats[i], s) {
            return true;
        }
        i += 1;
    }
    false
}

proof fn lemma_first_match_none(order: Seq<Site>, s: Seq<char>)
    ensures
        first_match(order, s).is_none() <==> forall|j: int|
            0 <= j < order.len() ==> !site_matches(#[trigger] order[j], s),
        first_match(order, s).is_some() ==> site_matches(first_match(order, s).unwrap(), s),
    decreases order.len(),
{
    if order.len() > 0 {
        lemma_first_match_none(order.drop_first(), s);
        if !site_matches(order[0], s) && first_match(order, s).is_some() {
            let j = choose|j: int| 0 <= j < order.len() - 1 && site_matches(order.drop_first()[j], s);
            assert(order[j + 1] == order.drop_first()[j]);
        }
        if first_match(order, s).is_none() {
            assert forall|j: int| 0 <= j < order.len() implies !site_matches(#[trigger] order[j], s) by {
                if j > 0 {
                    assert(order[j] == order.drop_first()[j - 1]);
                }
            }
        }
    }
}

/// Routes a link fragment to its site: the first site in priority order
/// with an alias that matches, or `None` where no site matches.
pub fn classify(fragment: &str) -> (r: Option<Site>)
    ensures
        r == site_of(fragment@),
        r.is_none() <==> forall|j: int|
            0 <= j < priority().len() ==> !site_matches(#[trigger] priority()[j], fragment@),
        r.is_some() ==> site_matches(r.unwrap(), fragment@),
{
    let s = chars_of(fragment);
    let order = sites_in_order();
    let mut i: usize = 0;
    proof {
        lemma_first_match_none(priority(), fragment@);
    }
    assert(order@.subrange(0, order@.len() as int) == order@);
    while i < order.len()
        invariant
            s@ == fragment@,
            order@ == priority(),
            i <= order.len(),
            first_match(order@.subrange(i as int, order@.len() as int), fragment@) == site_of(fragment@),
        decreases order.len() - i,
    {
        let ghost rest = order@.subrange(i as int, order@.len() as int);
        assert(rest.drop_first() == order@.subrange(i + 1, order@.len() as int));
        if site_hit(order[i], &s) {
            return Some(order[i]);
        }
        i += 1;
    }
    None
}

proof fn lemma_first_match_at(order: Seq<Site>, k: int, s: Seq<char>)
    requires
        0 <= k < order.len(),
        site_matches(order[k], s),
        forall|j: int| 0 <= j < k ==> !site_matches(#[trigger] order[j], s),
    ensures
        first_match(order, s) == Some(order[k]),
    decreases k,
{
    if k > 0 {
        assert(!site_matches(order[0], s));
        assert forall|j: int| 0 <= j < k - 1 implies !site_matches(
            #[trigger] order.drop_first()[j],
            s,
        ) by {
            assert(order.drop_first()[j] == order[j + 1]);
        }
        lemma_first_match_at(order.drop_first(), k - 1, s);
    }
}

proof fn lemma_rank(site: Site)
    ensures
        0 <= rank(site) < priority().len(),
        priority()[rank(site)] == site,
{
}

/// Mirror equivalence: two fragments that each show an alias of `site` (its
/// canonical domain or any mirror), and no alias of a site tried before it,
/// are routed to the same resolver, the one of `site`.
pub proof fn lemma_aliases_route_alike(site: Site, f: Seq<char>, g: Seq<char>)
    requires
        site_matches(site, f),
        site_matches(site, g),
        forall|j: int| 0 <= j < rank(site) ==> !site_matches(#[trigger] priority()[j], f),
        forall|j: int| 0 <= j < rank(site) ==> !site_matches(#[trigger] priority()[j], g),
    ensures
        site_of(f) == Some(site),
        site_of(g) == site_of(f),
{
    lemma_rank(site);
    lemma_first_match_at(priority(), rank(site), f);
    lemma_first_match_at(priority(), rank(site), g);
}

/// A fragment that no site claims is unsupported: `example.com/v` starts
/// like no alias and holds no alias marker.
pub proof fn lemma_unknown_site_unsupported()
    ensures
        site_of("example.com/v"@) == None::<Site>,
{
    let s = "example.com/v"@;
    reveal_strlit("example.com/v");
    assert forall|i: int| 0 <= i < site_patterns(Site::Substack).len() implies !pattern_matches(
        #[trigger] site_patterns(Site::Substack)[i],
        s,
    ) by {
        if i == 0 {
            reveal_strlit(".substack.com/p/");
            assert forall|k: int| 0 <= k && k + ".substack.com/p/"@.len() <= s.len() implies #[trigger] s.subrange(k, k + ".substack.com/p/"@.len()) != ".substack.com/p/"@ by {
                assert(s.subrange(k, k + ".substack.com/p/"@.len())[0] == s[k]);
            }
        }
    }
    assert forall|i: int| 0 <= i < site_patterns(Site::Streamhub).len() implies !pattern_matches(
        #[trigger] site_patterns(Site::Streamhub)[i],
        s,
    ) by {
        if i == 0 {
            reveal_strlit("streamhub.");
            if "streamhub."@.len() <= s.len() {
                assert(s.subrange(0, "streamhub."@.len() as int)[0] == s[0]);
            }
        }
    }
    assert forall|i: int| 0 <= i < site_patterns(Site::Streamvid).len() implies !pattern_matches(
        #[trigger] site_patterns(Site::Streamvid)[i],
        s,
    ) by {
        if i == 0 {
            reveal_strlit("streamvid.");
            if "streamvid."@.len() <= s.len() {
                assert(s.subrange(0, "streamvid."@.len() as int)[0] == s[0]);
            }
        }
    }
    assert forall|i: int| 0 <= i < site_patterns(Site::Streamtape).len() implies !pattern_matches(
        #[trigger] site_patterns(Site::Streamtape)[i],
        s,
    ) by {
        if i == 0 {
            reveal_strlit("streamtape.");
            if "streamtape."@.len() <= s.len() {
                assert(s.subrange(0, "streamtape."@.len() as int)[0] == s[0]);
            }
        }
    }
    assert forall|i: int| 0 <= i < site_patterns(Site::Streamdav).len() implies !pattern_matches(
        #[trigger] site_patterns(Site::Streamdav)[i],
        s,
    ) by {
        if i == 0 {
            reveal_strlit("streamdav.com/");
            if "streamdav.com/"@.len() <= s.len() {
                assert(s.subrange(0, "streamdav.com/"@.len() as int)[0] == s[0]);
            }
        }
    }
    assert forall|i: int| 0 <= i < site_patterns(Site::Wolfstream).len() implies !pattern_matches(
        #[trigger] site_patterns(Site::Wolfstream)[i],
        s,
    ) by {
        if i == 0 {
            reveal_strlit("wolfstream.tv/");
            if "wolfstream.tv/"@.len() <= s.len() {
                assert(s.subrange(0, "wolfstream.tv/"@.len() as int)[0] == s[0]);
            }
        }
    }
    assert forall|i: int| 0 <= i < site_patterns(Site::Spotify).len() implies !pattern_matches(
        #[trigger] site_patterns(Site::Spotify)[i],
        s,
    ) by {
        if i == 0 {
            reveal_strlit("open.spotify.com/episode/");
            if "open.spotify.com/episode/"@.len() <= s.len() {
                assert(s.subrange(0, "open.spotify.com/episode/"@.len() as int)[0] == s[0]);
            }
        } else if i == 1 {
            reveal_strlit("open.spotify.com/embed/episode/");
            if "open.spotify.com/embed/episode/"@.len() <= s.len() {
                assert(s.subrange(0, "open.spotify.com/embed/episode/"@.len() as int)[0] == s[0]);
            }
        }
    }
    assert forall|i: int| 0 <= i < site_patterns(Site::Bitchute).len() implies !pattern_matches(
        #[trigger] site_patterns(Site::Bitchute)[i],
        s,
    ) by {
        if i == 0 {
            reveal_strlit("bitchute.com/");
            if "bitchute.com/"@.len() <= s.len() {
                assert(s.subrange(0, "bitchute.com/"@.len() as int)[0] == s[0]);
            }
        }
    }
    assert forall|i: int| 0 <= i < site_patterns(Site::Rumble).len() implies !pattern_matches(
        #[trigger] site_patterns(Site::Rumble)[i],
        s,
    ) by {
        if i == 0 {
            reveal_strlit("rumble.com/");
            if "rumble.com/"@.len() <= s.len() {
                assert(s.subrange(0, "rumble.com/"@.len() as int)[0] == s[0]);
            }
        }
    }
    assert forall|i: int| 0 <= i < site_patterns(Site::Odysee).len() implies !pattern_matches(
        #[trigger] site_patterns(Site::Odysee)[i],
        s,
    ) by {
        if i == 0 {
            reveal_strlit("odysee.com/");
            if "odysee.com/"@.len() <= s.len() {
                assert(s.subrange(0, "odysee.com/"@.len() as int)[0] == s[0]);
            }
        } else if i == 1 {
            reveal_strlit("lbry.");
            if "lbry."@.len() <= s.len() {
                assert(s.subrange(0, "lbry."@.len() as int)[0] == s[0]);
            }
        } else if i == 2 {
            reveal_strlit("librarian.");
            if "librarian."@.len() <= s.len() {
                assert(s.subrange(0, "librarian."@.len() as int)[0] == s[0]);
            }
        } else if i == 3 {
            reveal_strlit("odysee.076.ne.jp/");
            if "odysee.076.ne.jp/"@.len() <= s.len() {
                assert(s.subrange(0, "odysee.076.ne.jp/"@.len() as int)[0] == s[0]);
            }
        }
    }
    assert forall|i: int| 0 <= i < site_patterns(Site::Youtube).len() implies !pattern_matches(
        #[trigger] site_patterns(Site::Youtube)[i],
        s,
    ) by {
        if i == 0 {
            reveal_strlit("youtube.com/");
            assert forall|k: int| 0 <= k && k + "youtube.com/"@.len() <= s.len() implies #[trigger] s.subrange(k, k + "youtube.com/"@.len()) != "youtube.com/"@ by {
                assert(s.subrange(k, k + "youtube.com/"@.len())[0] == s[k]);
            }
        } else if i == 1 {
            reveal_strlit("youtu.be/");
            if "youtu.be/"@.len() <= s.len() {
                assert(s.subrange(0, "youtu.be/"@.len() as int)[0] == s[0]);
            }
        } else if i == 2 {
            reveal_strlit("hyperpipe.");
            if "hyperpipe."@.len() <= s.len() {
                assert(s.subrange(0, "hyperpipe."@.len() as int)[0] == s[0]);
            }
        } else if i == 3 {
            reveal_strlit("music.");
            if "music."@.len() <= s.len() {
                assert(s.subrange(0, "music."@.len() as int)[0] == s[0]);
            }
        } else if i == 4 {
            reveal_strlit("listen.");
            if "listen."@.len() <= s.len() {
                assert(s.subrange(0, "listen."@.len() as int)[0] == s[0]);
            }
        } else if i == 5 {
            reveal_strlit("hp.");
            if "hp."@.len() <= s.len() {
                assert(s.subrange(0, "hp."@.len() as int)[0] == s[0]);
            }
        } else if i == 6 {
            reveal_strlit("piped.");
            if "piped."@.len() <= s.len() {
                assert(s.subrange(0, "piped."@.len() as int)[0] == s[0]);
            }
        } else if i == 7 {
            reveal_strlit("watch.leptons.xyz/");
            if "watch.leptons.xyz/"@.len() <= s.len() {
                assert(s.subrange(0, "watch.leptons.xyz/"@.len() as int)[0] == s[0]);
            }
        } else if i == 8 {
            reveal_strlit("pi.ggtyler.dev");
            if "pi.ggtyler.dev"@.len() <= s.len() {
                assert(s.subrange(0, "pi.ggtyler.dev"@.len() as int)[0] == s[0]);
            }
        } else if i == 9 {
            reveal_strlit("invidious.");
            if "invidious."@.len() <= s.len() {
                assert(s.subrange(0, "invidious."@.len() as int)[0] == s[0]);
            }
        } else if i == 10 {
            reveal_strlit("inv.");
            if "inv."@.len() <= s.len() {
                assert(s.subrange(0, "inv."@.len() as int)[0] == s[0]);
            }
        } else if i == 11 {
            reveal_strlit("iv.");
            if "iv."@.len() <= s.len() {
                assert(s.subrange(0, "iv."@.len() as int)[0] == s[0]);
            }
        } else if i == 12 {
            reveal_strlit("yt.");
            if "yt."@.len() <= s.len() {
                assert(s.subrange(0, "yt."@.len() as int)[0] == s[0]);
            }
        } else if i == 13 {
            reveal_strlit("yewtu.be/");
            if "yewtu.be/"@.len() <= s.len() {
                assert(s.subrange(0, "yewtu.be/"@.len() as int)[0] == s[0]);
            }
        } else if i == 14 {
            reveal_strlit("vid.puffyan.us/");
            if "vid.puffyan.us/"@.len() <= s.len() {
                assert(s.subrange(0, "vid.puffyan.us/"@.len() as int)[0] == s[0]);
            }
        } else if i == 15 {
            reveal_strlit("vid.priv.au/");
            if "vid.priv.au/"@.len() <= s.len() {
                assert(s.subrange(0, "vid.priv.au/"@.len() as int)[0] == s[0]);
            }
        } else if i == 16 {
            reveal_strlit("onion.tube/");
            if "onion.tube/"@.len() <= s.len() {
                assert(s.subrange(0, "onion.tube/"@.len() as int)[0] == s[0]);
            }
        } else if i == 17 {
            reveal_strlit("anontube.lvkaszus.pl/");
            if "anontube.lvkaszus.pl/"@.len() <= s.len() {
                assert(s.subrange(0, "anontube.lvkaszus.pl/"@.len() as int)[0] == s[0]);
            }
        }
    }
    assert forall|i: int| 0 <= i < site_patterns(Site::Reddit).len() implies !pattern_matches(
        #[trigger] site_patterns(Site::Reddit)[i],
        s,
    ) by {
        if i == 0 {
            reveal_strlit("old.reddit.com/");
            if "old.reddit.com/"@.len() <= s.len() {
                assert(s.subrange(0, "old.reddit.com/"@.len() as int)[0] == s[0]);
            }
        } else if i == 1 {
            reveal_strlit("redd.it/");
            if "redd.it/"@.len() <= s.len() {
                assert(s.subrange(0, "redd.it/"@.len() as int)[0] == s[0]);
            }
        } else if i == 2 {
            reveal_strlit("reddit.");
            if "reddit."@.len() <= s.len() {
                assert(s.subrange(0, "reddit."@.len() as int)[0] == s[0]);
            }
        } else if i == 3 {
            reveal_strlit("libreddit.");
            if "libreddit."@.len() <= s.len() {
                assert(s.subrange(0, "libreddit."@.len() as int)[0] == s[0]);
            }
        } else if i == 4 {
            reveal_strlit("lr.");
            if "lr."@.len() <= s.len() {
                assert(s.subrange(0, "lr."@.len() as int)[0] == s[0]);
            }
        } else if i == 5 {
            reveal_strlit("safereddit.com/");
            if "safereddit.com/"@.len() <= s.len() {
                assert(s.subrange(0, "safereddit.com/"@.len() as int)[0] == s[0]);
            }
        } else if i == 6 {
            reveal_strlit("r.walkx.fyi/");
            if "r.walkx.fyi/"@.len() <= s.len() {
                assert(s.subrange(0, "r.walkx.fyi/"@.len() as int)[0] == s[0]);
            }
        } else if i == 7 {
            reveal_strlit("l.opnxng.com/");
            if "l.opnxng.com/"@.len() <= s.len() {
                assert(s.subrange(0, "l.opnxng.com/"@.len() as int)[0] == s[0]);
            }
        } else if i == 8 {
            reveal_strlit("snoo.habedieeh.re/");
            if "snoo.habedieeh.re/"@.len() <= s.len() {
                assert(s.subrange(0, "snoo.habedieeh.re/"@.len() as int)[0] == s[0]);
            }
        } else if i == 9 {
            reveal_strlit("teddit.");
            if "teddit."@.len() <= s.len() {
                assert(s.subrange(0, "teddit."@.len() as int)[0] == s[0]);
            }
        } else if i == 10 {
            reveal_strlit("snoo.ioens.is/");
            if "snoo.ioens.is/"@.len() <= s.len() {
                assert(s.subrange(0, "snoo.ioens.is/"@.len() as int)[0] == s[0]);
            }
        } else if i == 11 {
            reveal_strlit("incogsnoo.com/");
            if "incogsnoo.com/"@.len() <= s.len() {
                assert(s.subrange(0, "incogsnoo.com/"@.len() as int)[0] == s[0]);
            }
        } else if i == 12 {
            reveal_strlit("rdt.trom.tf/");
            if "rdt.trom.tf/"@.len() <= s.len() {
                assert(s.subrange(0, "rdt.trom.tf/"@.len() as int)[0] == s[0]);
            }
        } else if i == 13 {
            reveal_strlit("i.opnxng.com/");
            if "i.opnxng.com/"@.len() <= s.len() {
                assert(s.subrange(0, "i.opnxng.com/"@.len() as int)[0] == s[0]);
            }
        } else if i == 14 {
            reveal_strlit("td.vern.cc/");
            if "td.vern.cc/"@.len() <= s.len() {
                assert(s.subrange(0, "td.vern.cc/"@.len() as int)[0] == s[0]);
            }
        } else if i == 15 {
            reveal_strlit("t.sneed.network/");
            if "t.sneed.network/"@.len() <= s.len() {
                assert(s.subrange(0, "t.sneed.network/"@.len() as int)[0] == s[0]);
            }
        }
    }
    assert forall|i: int| 0 <= i < site_patterns(Site::Twatter).len() implies !pattern_matches(
        #[trigger] site_patterns(Site::Twatter)[i],
        s,
    ) by {
        if i == 0 {
            reveal_strlit("x.com/");
            if "x.com/"@.len() <= s.len() {
                assert(s.subrange(0, "x.com/"@.len() as int)[0] == s[0]);
            }
        } else if i == 1 {
            reveal_strlit("mobile.x.com/");
            if "mobile.x.com/"@.len() <= s.len() {
                assert(s.subrange(0, "mobile.x.com/"@.len() as int)[0] == s[0]);
            }
        } else if i == 2 {
            reveal_strlit("twitter.com/");
            if "twitter.com/"@.len() <= s.len() {
                assert(s.subrange(0, "twitter.com/"@.len() as int)[0] == s[0]);
            }
        } else if i == 3 {
            reveal_strlit("mobile.twitter.com/");
            if "mobile.twitter.com/"@.len() <= s.len() {
                assert(s.subrange(0, "mobile.twitter.com/"@.len() as int)[0] == s[0]);
            }
        } else if i == 4 {
            reveal_strlit("nitter.");
            if "nitter."@.len() <= s.len() {
                assert(s.subrange(0, "nitter."@.len() as int)[0] == s[0]);
            }
        } else if i == 5 {
            reveal_strlit("nt.");
            if "nt."@.len() <= s.len() {
                assert(s.subrange(0, "nt."@.len() as int)[0] == s[0]);
            }
        } else if i == 6 {
            reveal_strlit("n.");
            if "n."@.len() <= s.len() {
                assert(s.subrange(0, "n."@.len() as int)[0] == s[0]);
            }
        } else if i == 7 {
            reveal_strlit("twiiit.com/");
            if "twiiit.com/"@.len() <= s.len() {
                assert(s.subrange(0, "twiiit.com/"@.len() as int)[0] == s[0]);
            }
        } else if i == 8 {
            reveal_strlit("tweet.lambda.dance/");
            if "tweet.lambda.dance/"@.len() <= s.len() {
                assert(s.subrange(0, "tweet.lambda.dance/"@.len() as int)[0] == s[0]);
            }
        } else if i == 9 {
            reveal_strlit("bird.habedieeh.re/");
            if "bird.habedieeh.re/"@.len() <= s.len() {
                assert(s.subrange(0, "bird.habedieeh.re/"@.len() as int)[0] == s[0]);
            }
        } else if i == 10 {
            reveal_strlit("t.com.sb/");
            if "t.com.sb/"@.len() <= s.len() {
                assert(s.subrange(0, "t.com.sb/"@.len() as int)[0] == s[0]);
            }
        } else if i == 11 {
            reveal_strlit("xcancel.com/");
            if "xcancel.com/"@.len() <= s.len() {
                assert(s.subrange(0, "xcancel.com/"@.len() as int)[0] == s[0]);
            }
        } else if i == 12 {
            reveal_strlit("unofficialbird.com/");
            assert forall|k: int| 0 <= k && k + "unofficialbird.com/"@.len() <= s.len() implies #[trigger] s.subrange(k, k + "unofficialbird.com/"@.len()) != "unofficialbird.com/"@ by {
                assert(s.subrange(k, k + "unofficialbird.com/"@.len())[0] == s[k]);
            }
        }
    }
    assert forall|i: int| 0 <= i < site_patterns(Site::Doodstream).len() implies !pattern_matches(
        #[trigger] site_patterns(Site::Doodstream)[i],
        s,
    ) by {
        if i == 0 {
            reveal_strlit("doodstream.com/");
            if "doodstream.com/"@.len() <= s.len() {
                assert(s.subrange(0, "doodstream.com/"@.len() as int)[0] == s[0]);
            }
        } else if i == 1 {
            reveal_strlit("d0o0d.com/");
            if "d0o0d.com/"@.len() <= s.len() {
                assert(s.subrange(0, "d0o0d.com/"@.len() as int)[0] == s[0]);
            }
        } else if i == 2 {
            reveal_strlit("d0000d.com/");
            if "d0000d.com/"@.len() <= s.len() {
                assert(s.subrange(0, "d0000d.com/"@.len() as int)[0] == s[0]);
            }
        } else if i == 3 {
            reveal_strlit("ds2play.com/");
            if "ds2play.com/"@.len() <= s.len() {
                assert(s.subrange(0, "ds2play.com/"@.len() as int)[0] == s[0]);
            }
        } else if i == 4 {
            reveal_strlit("dooood.com/");
            if "dooood.com/"@.len() <= s.len() {
                assert(s.subrange(0, "dooood.com/"@.len() as int)[0] == s[0]);
            }
        } else if i == 5 {
            reveal_strlit("doods.pro/");
            if "doods.pro/"@.len() <= s.len() {
                assert(s.subrange(0, "doods.pro/"@.len() as int)[0] == s[0]);
            }
        } else if i == 6 {
            reveal_strlit("dood.");
            if "dood."@.len() <= s.len() {
                assert(s.subrange(0, "dood."@.len() as int)[0] == s[0]);
            }
        }
    }
    assert forall|i: int| 0 <= i < site_patterns(Site::Vtube).len() implies !pattern_matches(
        #[trigger] site_patterns(Site::Vtube)[i],
        s,
    ) by {
        if i == 0 {
            reveal_strlit("vtbe.to/");
            if "vtbe.to/"@.len() <= s.len() {
                assert(s.subrange(0, "vtbe.to/"@.len() as int)[0] == s[0]);
            }
        } else if i == 1 {
            reveal_strlit("vtube.network/");
            if "vtube.network/"@.len() <= s.len() {
                assert(s.subrange(0, "vtube.network/"@.len() as int)[0] == s[0]);
            }
        }
    }
    assert forall|i: int| 0 <= i < site_patterns(Site::Libsyn).len() implies !pattern_matches(
        #[trigger] site_patterns(Site::Libsyn)[i],
        s,
    ) by {
        if i == 0 {
            reveal_strlit("play.libsyn.com");
            if "play.libsyn.com"@.len() <= s.len() {
                assert(s.subrange(0, "play.libsyn.com"@.len() as int)[0] == s[0]);
            }
        } else if i == 1 {
            reveal_strlit("html5-player.libsyn.com");
            if "html5-player.libsyn.com"@.len() <= s.len() {
                assert(s.subrange(0, "html5-player.libsyn.com"@.len() as int)[0] == s[0]);
            }
        }
    }
    assert forall|i: int| 0 <= i < site_patterns(Site::Mp4upload).len() implies !pattern_matches(
        #[trigger] site_patterns(Site::Mp4upload)[i],
        s,
    ) by {
        if i == 0 {
            reveal_strlit("mp4upload.com/");
            if "mp4upload.com/"@.len() <= s.len() {
                assert(s.subrange(0, "mp4upload.com/"@.len() as int)[0] == s[0]);
            }
        }
    }
    assert forall|i: int| 0 <= i < site_patterns(Site::Rokfin).len() implies !pattern_matches(
        #[trigger] site_patterns(Site::Rokfin)[i],
        s,
    ) by {
        if i == 0 {
            reveal_strlit("rokfin.com/post/");
            if "rokfin.com/post/"@.len() <= s.len() {
                assert(s.subrange(0, "rokfin.com/post/"@.len() as int)[0] == s[0]);
            }
        }
    }
    lemma_first_match_none(priority(), s);
}

/// `s` with every leading copy of `p` removed.
pub open spec fn strip_repeated(p: Seq<char>, s: Seq<char>) -> Seq<char>
    decreases s.len(),
{
    if p.len() > 0 && p.is_prefix_of(s) {
        strip_repeated(p, s.subrange(p.len() as int, s.len() as int))
    } else {
        s
    }
}

/// A link without its scheme and `www.`: the part that sites are told apart by.
pub open spec fn fragment_of(url: Seq<char>) -> Seq<char> {
    strip_repeated(
        "www."@,
        strip_repeated("http://"@, strip_repeated("https://"@, url)),
    )
}

fn copy_from(v: &Vec<char>, k: usize) -> (r: Vec<char>)
    requires
        k <= v.len(),
    ensures
        r@ == v@.subrange(k as int, v@.len() as int),
{
    let mut out: Vec<char> = Vec::new();
    let mut i: usize = k;
    while i < v.len()
        invariant
            k <= i <= v.len(),
            out@ == v@.subrange(k as int, i as int),
        decreases v.len() - i,
    {
        out.push(v[i]);
        i += 1;
    }
    out
}

fn strip_all(s: &Vec<char>, p: &str) -> (r: Vec<char>)
    ensures
        r@ == strip_repeated(p@, s@),
{
    let n = p.unicode_len();
    let mut cur = copy_from(s, 0);
    assert(s@.subrange(0, s@.len() as int) == s@);
    while n > 0 && has_prefix(&cur, p)
        invariant
            n == p@.len(),
            strip_repeated(p@, cur@) == strip_repeated(p@, s@),
        decreases cur.len(),
    {
        cur = copy_from(&cur, n);
    }
    cur
}

/// Removes leading `https://`, then `http://`, then `www.`, each as often
/// as it repeats.
pub fn strip_scheme(url: &str) -> (r: String)
    ensures
        r@ == fragment_of(url@),
{
    let s = chars_of(url);
    let a = strip_all(&s, "https://");
    let b = strip_all(&a, "http://");
    let c = strip_all(&b, "www.");
    string_of(&c)
}

} // verus!

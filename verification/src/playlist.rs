//! The play-list parser: from an aggregator's flattened source names and
//! episode string to one play source per declared name.

use crate::models::{copy_urls, opt_text, source_views, url_views, PlaySource, PlaySourceView, PlayUrl, PlayUrlView};
use crate::text::{
    chars_of, contains_char, find_from, first_index, has_char, slice_of, split_chars, split_seq,
    string_of, trim_chars, trim_seq, views_of,
};
use vstd::prelude::*;

verus! {

/// A segment `name$url`, cut at its first `$`. A segment without `$` is a
/// name with no address.
pub open spec fn episode_of(segment: Seq<char>) -> PlayUrlView {
    let i = first_index(segment, '$');
    if 0 <= i < segment.len() {
        PlayUrlView { name: segment.subrange(0, i), url: segment.subrange(i + 1, segment.len() as int) }
    } else {
        PlayUrlView { name: segment, url: Seq::empty() }
    }
}

/// A payload that holds one episode: `name$url`, or a bare address.
pub open spec fn single_episode(play_url: Seq<char>) -> PlayUrlView {
    let i = first_index(play_url, '$');
    if 0 <= i < play_url.len() {
        PlayUrlView {
            name: play_url.subrange(0, i),
            url: play_url.subrange(i + 1, play_url.len() as int),
        }
    } else {
        PlayUrlView { name: Seq::empty(), url: play_url }
    }
}

/// A segment counts when it is not empty.
pub open spec fn is_filled(segment: Seq<char>) -> bool {
    segment.len() > 0
}

/// The segments that count, in order.
pub open spec fn filled_segments(segments: Seq<Seq<char>>) -> Seq<Seq<char>> {
    segments.filter(|segment: Seq<char>| is_filled(segment))
}

/// The episode list that a payload encodes. With a `#` in it the payload is
/// a list of segments and empty ones are dropped; without, it is one episode.
pub open spec fn episodes_of(play_url: Seq<char>) -> Seq<PlayUrlView> {
    if contains_char(play_url, '#') {
        filled_segments(split_seq(play_url, '#')).map_values(|segment: Seq<char>| episode_of(segment))
    } else {
        seq![single_episode(play_url)]
    }
}

/// One play source per comma-separated name, trimmed, each with the whole
/// episode list of the payload, be it empty; none when there is no payload.
pub open spec fn parse_play_urls_spec(
    vod_play_from: Seq<char>,
    vod_play_url: Option<Seq<char>>,
) -> Seq<PlaySourceView> {
    match vod_play_url {
        None => Seq::empty(),
        Some(play_url) => split_seq(vod_play_from, ',').map_values(
            |name: Seq<char>|
                PlaySourceView { source_name: trim_seq(name), urls: episodes_of(play_url) },
        ),
    }
}

/// Cuts `segment` at its first `$`; `bare_is_url` says on which side a
/// segment without `$` goes.
fn cut_episode(segment: &Vec<char>, bare_is_url: bool) -> (out: PlayUrl)
    ensures
        out@ == if bare_is_url {
            single_episode(segment@)
        } else {
            episode_of(segment@)
        },
{
    let n = segment.len();
    let at = find_from(segment, 0, '$');
    assert(segment@.subrange(0, n as int) == segment@);
    if at < n {
        let name = slice_of(segment, 0, at);
        let url = slice_of(segment, at + 1, n);
        PlayUrl { name: string_of(&name), url: string_of(&url) }
    } else if bare_is_url {
        PlayUrl { name: String::new(), url: string_of(segment) }
    } else {
        PlayUrl { name: string_of(segment), url: String::new() }
    }
}

/// The episodes of a payload.
pub fn parse_episodes(play_url: &Vec<char>) -> (out: Vec<PlayUrl>)
    ensures
        url_views(out@) == episodes_of(play_url@),
{
    let mut out: Vec<PlayUrl> = Vec::new();
    if has_char(play_url, '#') {
        let segments = split_chars(play_url, '#');
        let ghost all = views_of(segments@);
        let mut i: usize = 0;
        proof {
            reveal(Seq::filter);
            assert(all.subrange(0, 0) =~= Seq::<Seq<char>>::empty());
            assert(url_views(out@) =~= filled_segments(all.subrange(0, 0)).map_values(
                |segment: Seq<char>| episode_of(segment),
            ));
        }
        while i < segments.len()
            invariant
                i <= segments.len(),
                all == views_of(segments@),
                url_views(out@) == filled_segments(all.subrange(0, i as int)).map_values(
                    |segment: Seq<char>| episode_of(segment),
                ),
            decreases segments.len() - i,
        {
            let segment = &segments[i];
            let ghost before = url_views(out@);
            let ghost prefix = all.subrange(0, i as int);
            let ghost next = all.subrange(0, i + 1);
            proof {
                reveal(Seq::filter);
                assert(next.drop_last() == prefix);
                assert(next.last() == segment@);
            }
            if segment.len() > 0 {
                let episode = cut_episode(segment, false);
                out.push(episode);
                proof {
                    assert(filled_segments(next) == filled_segments(prefix).push(segment@));
                    assert(url_views(out@) =~= before.push(episode_of(segment@)));
                    assert(filled_segments(next).map_values(
                        |segment: Seq<char>| episode_of(segment),
                    ) =~= before.push(episode_of(segment@)));
                }
            } else {
                assert(filled_segments(next) == filled_segments(prefix));
            }
            i = i + 1;
        }
        assert(all.subrange(0, segments.len() as int) == all);
    } else {
        let episode = cut_episode(play_url, true);
        out.push(episode);
        assert(url_views(out@) =~= seq![single_episode(play_url@)]);
    }
    out
}

/// Parses the flattened play list of one remote video.
pub fn parse_play_urls(vod_play_from: &str, vod_play_url: &Option<String>) -> (out: Vec<PlaySource>)
    ensures
        source_views(out@) == parse_play_urls_spec(vod_play_from@, opt_text(*vod_play_url)),
{
    let mut out: Vec<PlaySource> = Vec::new();
    match vod_play_url {
        None => {
            assert(source_views(out@) =~= Seq::<PlaySourceView>::empty());
        },
        Some(play_url) => {
            let payload = chars_of(play_url.as_str());
            let episodes = parse_episodes(&payload);
            let from = chars_of(vod_play_from);
            let names = split_chars(&from, ',');
            let ghost eps = episodes_of(play_url@);
            let mut i: usize = 0;
            while i < names.len()
                invariant
                    i <= names.len(),
                    eps == url_views(episodes@),
                    source_views(out@) == views_of(names@).subrange(0, i as int).map_values(
                        |name: Seq<char>| PlaySourceView { source_name: trim_seq(name), urls: eps },
                    ),
                decreases names.len() - i,
            {
                let name = trim_chars(&names[i]);
                let source = PlaySource { source_name: string_of(&name), urls: copy_urls(&episodes) };
                let ghost before = source_views(out@);
                out.push(source);
                assert(source_views(out@) =~= before.push(source@));
                i = i + 1;
            }
            assert(views_of(names@).subrange(0, names.len() as int) == views_of(names@));
        },
    }
    out
}

} // verus!

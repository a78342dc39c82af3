use vod_collector::models::{PlaySource, PlayUrl};
use vod_collector::playlist::parse_play_urls;

fn ep(name: &str, url: &str) -> PlayUrl {
    PlayUrl { name: name.to_string(), url: url.to_string() }
}

fn src(name: &str, urls: Vec<PlayUrl>) -> PlaySource {
    PlaySource { source_name: name.to_string(), urls }
}

#[test]
fn two_sources_share_the_episode_list() {
    let got = parse_play_urls("A,B", &Some("ep1$http://x/1#ep2$http://x/2".to_string()));
    let eps = vec![ep("ep1", "http://x/1"), ep("ep2", "http://x/2")];
    assert_eq!(got, vec![src("A", eps.clone()), src("B", eps)]);
}

#[test]
fn bare_address_is_one_unnamed_episode() {
    let got = parse_play_urls("A", &Some("http://x/1".to_string()));
    assert_eq!(got, vec![src("A", vec![ep("", "http://x/1")])]);
}

#[test]
fn single_episode_is_cut_at_first_dollar() {
    let got = parse_play_urls("A", &Some("第1集$http://x/1$y".to_string()));
    assert_eq!(got, vec![src("A", vec![ep("第1集", "http://x/1$y")])]);
}

#[test]
fn no_payload_gives_no_source() {
    assert_eq!(parse_play_urls("A,B", &None), Vec::<PlaySource>::new());
}

#[test]
fn source_names_are_trimmed() {
    let got = parse_play_urls(" A ,\tB\u{3000}", &Some("n$u".to_string()));
    assert_eq!(got, vec![src("A", vec![ep("n", "u")]), src("B", vec![ep("n", "u")])]);
}

#[test]
fn empty_segments_are_dropped() {
    let got = parse_play_urls("A", &Some("#a$1##b$2#".to_string()));
    assert_eq!(got, vec![src("A", vec![ep("a", "1"), ep("b", "2")])]);
}

#[test]
fn blank_segments_are_episodes() {
    let got = parse_play_urls("A", &Some(" #a".to_string()));
    assert_eq!(got, vec![src("A", vec![ep(" ", ""), ep("a", "")])]);
    let got = parse_play_urls("A", &Some("a$1# #b$2".to_string()));
    assert_eq!(got, vec![src("A", vec![ep("a", "1"), ep(" ", ""), ep("b", "2")])]);
}

#[test]
fn segment_without_dollar_is_a_name() {
    let got = parse_play_urls("A", &Some("ep1#ep2$u$x".to_string()));
    assert_eq!(got, vec![src("A", vec![ep("ep1", ""), ep("ep2", "u$x")])]);
}

#[test]
fn payload_without_episode_gives_sources_without_episodes() {
    assert_eq!(parse_play_urls("A", &Some("#".to_string())), vec![src("A", vec![])]);
    assert_eq!(
        parse_play_urls("A,B", &Some("##".to_string())),
        vec![src("A", vec![]), src("B", vec![])]
    );
}

#[test]
fn empty_name_list_is_one_empty_name() {
    let got = parse_play_urls("", &Some("u".to_string()));
    assert_eq!(got, vec![src("", vec![ep("", "u")])]);
}

#[test]
fn empty_payload_is_one_empty_episode() {
    let got = parse_play_urls("A", &Some(String::new()));
    assert_eq!(got, vec![src("A", vec![ep("", "")])]);
}

#[test]
fn segments_keep_their_white_space() {
    let got = parse_play_urls("A", &Some(" a $ 1 #b$2".to_string()));
    assert_eq!(got, vec![src("A", vec![ep(" a ", " 1 "), ep("b", "2")])]);
}

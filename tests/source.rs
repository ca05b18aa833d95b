use gourmet_client::source::{
    first_download_step, next_download_step, parse_release_feed, releases_file_name,
    feed_query, stage_message, DownloadStep, ProxyAwareHttpSource, SourceStage,
    DOWNLOAD_COMPLETE,
};

const FEED: &str = "{\"Assets\":[{\"PackageId\":\"app\",\"Version\":\"2.0.0\",\"Type\":\"Full\",\"FileName\":\"app-2.0.0-full.nupkg\",\"SHA1\":\"\",\"SHA256\":\"\",\"Size\":10,\"NotesMarkdown\":\"\",\"NotesHtml\":\"\"}]}";

#[test]
fn base_location_ends_in_one_slash() {
    assert_eq!(ProxyAwareHttpSource::new("https://h.example/dl///").base_location(), "https://h.example/dl/");
    assert_eq!(ProxyAwareHttpSource::new("https://h.example/dl").base_location(), "https://h.example/dl/");
    assert_eq!(ProxyAwareHttpSource::new("").base_location(), "/");
}

#[test]
fn feed_names_and_queries() {
    assert_eq!(releases_file_name("stable"), "releases.stable.json");
    assert_eq!(releases_file_name(""), "releases..json");
    assert_eq!(feed_query("1.0.0", "app", "abc"), "localVersion=1.0.0&id=app&stagingId=abc");
}

#[test]
fn feed_url_carries_channel_and_query() {
    let src = ProxyAwareHttpSource::new("https://h.example/releases/latest/download/");
    let u = src.feed_url("win", "1.0.0", "app", "abc").ok().unwrap();
    assert_eq!(
        u.as_str(),
        "https://h.example/releases/latest/download/releases.win.json?localVersion=1.0.0&id=app&stagingId=abc"
    );
}

#[test]
fn asset_url_resolves_against_the_base() {
    let src = ProxyAwareHttpSource::new("https://h.example/dl");
    let u = src.asset_url("app-2.0.0-full.nupkg").ok().unwrap();
    assert_eq!(u.as_str(), "https://h.example/dl/app-2.0.0-full.nupkg");
}

#[test]
fn malformed_location_is_a_location_error() {
    let src = ProxyAwareHttpSource::new("not a url");
    let e = src.feed_url("win", "1.0.0", "app", "abc").err().unwrap();
    assert!(e.starts_with("Invalid update location: "));
    let e = src.asset_url("a.nupkg").err().unwrap();
    assert!(e.starts_with("Invalid update location: "));
}

#[test]
fn feed_is_parsed() {
    let feed = parse_release_feed(FEED).ok().unwrap();
    assert_eq!(feed.Assets.len(), 1);
    assert_eq!(feed.Assets[0].Version, "2.0.0");
    assert_eq!(feed.Assets[0].FileName, "app-2.0.0-full.nupkg");
}

#[test]
fn malformed_feed_is_a_parse_error() {
    let e = parse_release_feed("{not json").err().unwrap();
    assert!(e.starts_with("Failed to parse release feed: "));
    assert!(e.len() > "Failed to parse release feed: ".len());
}

#[test]
fn stage_messages_are_distinct() {
    assert_eq!(stage_message(SourceStage::FetchFeed, "dns"), "Failed to fetch release feed: dns");
    assert_eq!(stage_message(SourceStage::ReadFeed, "eof"), "Failed to read release feed: eof");
    assert_eq!(stage_message(SourceStage::ParseFeed, "x"), "Failed to parse release feed: x");
    assert_eq!(stage_message(SourceStage::Location, "x"), "Invalid update location: x");
    assert_eq!(stage_message(SourceStage::WriteFile, "full"), "Failed to write file: full");
}

#[test]
fn download_reports_completion_once_after_the_write() {
    let mut step = first_download_step();
    let mut seen = vec![step];
    loop {
        match next_download_step(step, Ok(()), true) {
            Ok(Some(next)) => {
                step = next;
                seen.push(step);
            }
            Ok(None) => break,
            Err(e) => panic!("unexpected error {}", e),
        }
    }
    assert_eq!(
        seen,
        vec![
            DownloadStep::Send,
            DownloadStep::ReadBody,
            DownloadStep::CreateFile,
            DownloadStep::WriteFile,
            DownloadStep::ReportComplete,
        ]
    );
    assert_eq!(DOWNLOAD_COMPLETE, 100);
}

#[test]
fn download_without_listener_reports_nothing() {
    assert_eq!(next_download_step(DownloadStep::WriteFile, Ok(()), false), Ok(None));
    assert_eq!(
        next_download_step(DownloadStep::WriteFile, Ok(()), true),
        Ok(Some(DownloadStep::ReportComplete))
    );
}

#[test]
fn download_failures_name_their_step() {
    assert_eq!(
        next_download_step(DownloadStep::Send, Err("refused".to_string()), true),
        Err("Failed to download update: refused".to_string())
    );
    assert_eq!(
        next_download_step(DownloadStep::CreateFile, Err("denied".to_string()), true),
        Err("Failed to create file: denied".to_string())
    );
    assert_eq!(
        next_download_step(DownloadStep::ReadBody, Err("reset".to_string()), false),
        Err("Failed to read update: reset".to_string())
    );
    assert_eq!(
        next_download_step(DownloadStep::WriteFile, Err("full".to_string()), true),
        Err("Failed to write file: full".to_string())
    );
    assert_eq!(next_download_step(DownloadStep::ReportComplete, Err("gone".to_string()), true), Ok(None));
}

#[test]
fn file_is_created_only_after_the_body_is_read() {
    assert_eq!(next_download_step(DownloadStep::Send, Ok(()), true), Ok(Some(DownloadStep::ReadBody)));
    assert_eq!(
        next_download_step(DownloadStep::ReadBody, Ok(()), true),
        Ok(Some(DownloadStep::CreateFile))
    );
    assert_eq!(
        next_download_step(DownloadStep::CreateFile, Ok(()), false),
        Ok(Some(DownloadStep::WriteFile))
    );
}

#[test]
fn trailing_slashes_give_the_same_urls() {
    let a = ProxyAwareHttpSource::new("https://h.example/dl");
    let b = ProxyAwareHttpSource::new("https://h.example/dl//");
    assert_eq!(a.feed_url("beta", "1.2.3", "app", "s1"), b.feed_url("beta", "1.2.3", "app", "s1"));
    assert_eq!(a.asset_url("x.nupkg"), b.asset_url("x.nupkg"));
}

#[test]
fn odd_channel_and_staging_id_are_accepted() {
    let src = ProxyAwareHttpSource::new("https://h.example/dl/");
    let u = src.feed_url("", "1.0.0", "app", "").ok().unwrap();
    assert_eq!(u, "https://h.example/dl/releases..json?localVersion=1.0.0&id=app&stagingId=");
}

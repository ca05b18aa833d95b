//! The update source: where a release feed and a release asset are fetched
//! from, how a feed is read, and the error text of each failure point.
use vstd::prelude::*;
use vstd::string::*;
use crate::text::{joined, starts_with, trim_end_slashes, without_trailing_slashes};

verus! {

#[verifier::external_type_specification]
#[verifier::external_body]
pub struct ExAssetFeed(velopack::VelopackAssetFeed);

/// The points at which fetching from an update source can fail.
#[derive(Debug, Clone, Copy, PartialEq, Eq, Structural)]
pub enum SourceStage {
    Location,
    FetchFeed,
    ReadFeed,
    ParseFeed,
    Download,
    CreateFile,
    ReadUpdate,
    WriteFile,
}

/// The text that opens the error message of each failure point.
pub open spec fn stage_prefix(stage: SourceStage) -> Seq<char> {
    match stage {
        SourceStage::Location => "Invalid update location: "@,
        SourceStage::FetchFeed => "Failed to fetch release feed: "@,
        SourceStage::ReadFeed => "Failed to read release feed: "@,
        SourceStage::ParseFeed => "Failed to parse release feed: "@,
        SourceStage::Download => "Failed to download update: "@,
        SourceStage::CreateFile => "Failed to create file: "@,
        SourceStage::ReadUpdate => "Failed to read update: "@,
        SourceStage::WriteFile => "Failed to write file: "@,
    }
}

/// Two failures at different points never give the same message, whatever
/// their causes: the message always tells where a fetch failed.
pub proof fn stage_messages_differ(a: SourceStage, b: SourceStage, cause_a: Seq<char>, cause_b: Seq<char>)
    requires
        a != b,
    ensures
        stage_prefix(a) + cause_a != stage_prefix(b) + cause_b,
{
    reveal_strlit("Invalid update location: ");
    reveal_strlit("Failed to fetch release feed: ");
    reveal_strlit("Failed to read release feed: ");
    reveal_strlit("Failed to parse release feed: ");
    reveal_strlit("Failed to download update: ");
    reveal_strlit("Failed to create file: ");
    reveal_strlit("Failed to read update: ");
    reveal_strlit("Failed to write file: ");
    let k: int = if a is Location || b is Location {
        0
    } else if (a is ReadFeed && b is ReadUpdate) || (a is ReadUpdate && b is ReadFeed) {
        15
    } else {
        10
    };
    let ma = stage_prefix(a) + cause_a;
    let mb = stage_prefix(b) + cause_b;
    assert(ma[k] == stage_prefix(a)[k]);
    assert(mb[k] == stage_prefix(b)[k]);
    assert(stage_prefix(a)[k] != stage_prefix(b)[k]);
}

/// The error message for a failure at `stage` with the given cause.
pub fn stage_message(stage: SourceStage, cause: &str) -> (r: String)
    ensures
        r@ == stage_prefix(stage) + cause@,
{
    let prefix: &str = match stage {
        SourceStage::Location => "Invalid update location: ",
        SourceStage::FetchFeed => "Failed to fetch release feed: ",
        SourceStage::ReadFeed => "Failed to read release feed: ",
        SourceStage::ParseFeed => "Failed to parse release feed: ",
        SourceStage::Download => "Failed to download update: ",
        SourceStage::CreateFile => "Failed to create file: ",
        SourceStage::ReadUpdate => "Failed to read update: ",
        SourceStage::WriteFile => "Failed to write file: ",
    };
    joined(prefix, cause)
}

/// Whether `serde_json` reads a text as a release feed.
pub uninterp spec fn feed_decodes(json: Seq<char>) -> bool;

/// The text of `url::Url::parse(base)` joined with `relative` by
/// `Url::join`; `None` where the parse or the join fails.
pub uninterp spec fn joined_url(base: Seq<char>, relative: Seq<char>) -> Option<Seq<char>>;

/// The text of `url::Url::parse(url)` once `Url::set_query` has given it
/// `query`; `None` where the parse fails.
pub uninterp spec fn url_with_query(url: Seq<char>, query: Seq<char>) -> Option<Seq<char>>;

/// Relies on `url::Url::parse` then `Url::join` (re-exported by reqwest):
/// both depend on their texts alone. The error comes back as its text, the URL as its
/// serialization.
#[verifier::external_body]
fn resolve_url(base: &str, relative: &str) -> (r: Result<String, String>)
    ensures
        match joined_url(base@, relative@) {
            Some(t) => r is Ok && r->Ok_0@ == t,
            None => r is Err,
        },
{
    match reqwest::Url::parse(base) {
        Ok(b) => b.join(relative).map(String::from).map_err(|e| e.to_string()),
        Err(e) => Err(e.to_string()),
    }
}

/// The longest URL plus query, in characters, that a query is attached
/// to. `Url::set_query` panics once the serialization passes `u32::MAX`
/// bytes; a character takes at most four bytes, and three times that once
/// percent-encoded, which this bound keeps below.
pub const MAX_URL_CHARS: usize = 0x1000_0000;

/// Relies on `url::Url::parse` then `Url::set_query(Some(query))`: the
/// result depends on the two texts alone. The error comes back as its
/// text, the URL as its serialization.
#[verifier::external_body]
fn attach_query(url: &str, query: &str) -> (r: Result<String, String>)
    requires
        url@.len() + query@.len() <= MAX_URL_CHARS,
    ensures
        match url_with_query(url@, query@) {
            Some(t) => r is Ok && r->Ok_0@ == t,
            None => r is Err,
        },
{
    match reqwest::Url::parse(url) {
        Ok(mut u) => {
            u.set_query(Some(query));
            Ok(String::from(u))
        },
        Err(e) => Err(e.to_string()),
    }
}

/// Relies on `serde_json::from_str` with velopack's `Deserialize` of a
/// feed: whether a text is read as a feed depends on the text alone. The
/// error comes back as its text.
#[verifier::external_body]
fn decode_feed(json: &str) -> (r: Result<velopack::VelopackAssetFeed, String>)
    ensures
        r is Ok <==> feed_decodes(json@),
{
    serde_json::from_str::<velopack::VelopackAssetFeed>(json).map_err(|e| e.to_string())
}

/// The directory URL of a source: its location without trailing slashes,
/// then one slash.
pub open spec fn base_of(location: Seq<char>) -> Seq<char> {
    trim_end_slashes(location) + "/"@
}

/// The URL of a channel's feed for a source at `location`: the directory
/// URL joined with the feed's name, with the query attached; none where
/// the URL and the query together pass `MAX_URL_CHARS`.
pub open spec fn feed_url_of(
    location: Seq<char>,
    channel: Seq<char>,
    version: Seq<char>,
    id: Seq<char>,
    staging_id: Seq<char>,
) -> Option<Seq<char>> {
    match joined_url(base_of(location), releases_name_of(channel)) {
        Some(t) => if t.len() + feed_query_of(version, id, staging_id).len() <= MAX_URL_CHARS {
            url_with_query(t, feed_query_of(version, id, staging_id))
        } else {
            None
        },
        None => None,
    }
}

/// The URL of an asset for a source at `location`: the directory URL
/// joined with the asset's file name.
pub open spec fn asset_url_of(location: Seq<char>, file_name: Seq<char>) -> Option<Seq<char>> {
    joined_url(base_of(location), file_name)
}

/// Locations that differ only in trailing slashes fetch the same feed and
/// the same assets.
pub proof fn trailing_slashes_do_not_matter(
    a: Seq<char>,
    b: Seq<char>,
    channel: Seq<char>,
    version: Seq<char>,
    id: Seq<char>,
    staging_id: Seq<char>,
    file_name: Seq<char>,
)
    requires
        trim_end_slashes(a) == trim_end_slashes(b),
    ensures
        feed_url_of(a, channel, version, id, staging_id) == feed_url_of(
            b,
            channel,
            version,
            id,
            staging_id,
        ),
        asset_url_of(a, file_name) == asset_url_of(b, file_name),
{
}

/// The name of the feed document of a channel.
pub open spec fn releases_name_of(channel: Seq<char>) -> Seq<char> {
    "releases."@ + channel + ".json"@
}

/// The query that tells the server who asks for the feed.
pub open spec fn feed_query_of(version: Seq<char>, id: Seq<char>, staging_id: Seq<char>) -> Seq<
    char,
> {
    "localVersion="@ + version + "&id="@ + id + "&stagingId="@ + staging_id
}

/// The name of the feed document of a channel.
pub fn releases_file_name(channel: &str) -> (r: String)
    ensures
        r@ == releases_name_of(channel@),
{
    let head = joined("releases.", channel);
    joined(head.as_str(), ".json")
}

/// The feed query for the running application and rollout group.
pub fn feed_query(version: &str, id: &str, staging_id: &str) -> (r: String)
    ensures
        r@ == feed_query_of(version@, id@, staging_id@),
{
    let a = joined("localVersion=", version);
    let b = joined(a.as_str(), "&id=");
    let c = joined(b.as_str(), id);
    let d = joined(c.as_str(), "&stagingId=");
    joined(d.as_str(), staging_id)
}

/// Parses a feed document; a text that is no feed gives the parse error.
pub fn parse_release_feed(json: &str) -> (r: Result<velopack::VelopackAssetFeed, String>)
    ensures
        r is Ok <==> feed_decodes(json@),
        r is Err ==> starts_with(r->Err_0@, stage_prefix(SourceStage::ParseFeed)),
{
    match decode_feed(json) {
        Ok(feed) => Ok(feed),
        Err(cause) => {
            let m = stage_message(SourceStage::ParseFeed, cause.as_str());
            assert(m@.subrange(0, stage_prefix(SourceStage::ParseFeed).len() as int)
                =~= stage_prefix(SourceStage::ParseFeed));
            Err(m)
        },
    }
}

/// An update source that fetches over a transport which honours the
/// system's certificate store and proxy settings. Copies are independent.
#[derive(Clone)]
pub struct ProxyAwareHttpSource {
    url: String,
}

impl View for ProxyAwareHttpSource {
    type V = Seq<char>;

    /// The location the source fetches from.
    closed spec fn view(&self) -> Seq<char> {
        self.url@
    }
}

impl ProxyAwareHttpSource {
    /// A source at the given location.
    pub fn new(url: &str) -> (r: Self)
        ensures
            r@ == url@,
    {
        ProxyAwareHttpSource { url: String::from_str(url) }
    }

    /// The directory URL of the source, always ending in one slash.
    pub fn base_location(&self) -> (r: String)
        ensures
            r@ == base_of(self@),
    {
        let trimmed = without_trailing_slashes(self.url.as_str());
        joined(trimmed.as_str(), "/")
    }

    /// Resolves a name against the directory URL of the source.
    fn resolve(&self, name: &str) -> (r: Result<String, String>)
        ensures
            match joined_url(base_of(self@), name@) {
                Some(t) => r is Ok && r->Ok_0@ == t,
                None => r is Err && starts_with(r->Err_0@, stage_prefix(SourceStage::Location)),
            },
    {
        let base_text = self.base_location();
        match resolve_url(base_text.as_str(), name) {
            Ok(u) => Ok(u),
            Err(cause) => Err(location_error(cause.as_str())),
        }
    }

    /// The URL of a channel's feed, asked for on behalf of the application
    /// `id` at `version`, in rollout group `staging_id`. Channel and
    /// staging id are taken as they are; only the URL operations can fail.
    pub fn feed_url(&self, channel: &str, version: &str, id: &str, staging_id: &str) -> (r: Result<
        String,
        String,
    >)
        ensures
            match feed_url_of(self@, channel@, version@, id@, staging_id@) {
                Some(u) => r is Ok && r->Ok_0@ == u,
                None => r is Err && starts_with(r->Err_0@, stage_prefix(SourceStage::Location)),
            },
    {
        let name = releases_file_name(channel);
        match self.resolve(name.as_str()) {
            Ok(t) => {
                let q = feed_query(version, id, staging_id);
                let t_len = t.as_str().unicode_len();
                let q_len = q.as_str().unicode_len();
                if t_len > MAX_URL_CHARS || q_len > MAX_URL_CHARS - t_len {
                    return Err(location_error("URL too long"));
                }
                match attach_query(t.as_str(), q.as_str()) {
                    Ok(u) => Ok(u),
                    Err(cause) => Err(location_error(cause.as_str())),
                }
            },
            Err(e) => Err(e),
        }
    }

    /// The URL of a release asset, named by its file name.
    pub fn asset_url(&self, file_name: &str) -> (r: Result<String, String>)
        ensures
            match asset_url_of(self@, file_name@) {
                Some(u) => r is Ok && r->Ok_0@ == u,
                None => r is Err && starts_with(r->Err_0@, stage_prefix(SourceStage::Location)),
            },
    {
        self.resolve(file_name)
    }
}

fn location_error(cause: &str) -> (r: String)
    ensures
        r@ == stage_prefix(SourceStage::Location) + cause@,
        starts_with(r@, stage_prefix(SourceStage::Location)),
{
    let m = stage_message(SourceStage::Location, cause);
    assert(m@.subrange(0, stage_prefix(SourceStage::Location).len() as int) =~= stage_prefix(
        SourceStage::Location,
    ));
    m
}

/// The progress value reported once a download is complete.
pub const DOWNLOAD_COMPLETE: i16 = 100;

/// The steps of an asset download, in order.
#[derive(Debug, Clone, Copy, PartialEq, Eq, Structural)]
pub enum DownloadStep {
    /// Send the request for the asset.
    Send,
    /// Read the whole response body.
    ReadBody,
    /// Create the destination file, once the whole body is in hand.
    CreateFile,
    /// Write the body to the destination file.
    WriteFile,
    /// Report `DOWNLOAD_COMPLETE` to the progress listener.
    ReportComplete,
}

/// The failure point of a step.
pub open spec fn stage_of(step: DownloadStep) -> SourceStage {
    match step {
        DownloadStep::Send => SourceStage::Download,
        DownloadStep::ReadBody => SourceStage::ReadUpdate,
        DownloadStep::CreateFile => SourceStage::CreateFile,
        _ => SourceStage::WriteFile,
    }
}

/// The step after `done` succeeded; `None` when the download is over. The
/// destination is touched only once the whole body has been read, so a
/// failed read leaves it as it was. Completion is reported only after the
/// write, and only to a listener.
pub open spec fn step_after(done: DownloadStep, reporting: bool) -> Option<DownloadStep> {
    match done {
        DownloadStep::Send => Some(DownloadStep::ReadBody),
        DownloadStep::ReadBody => Some(DownloadStep::CreateFile),
        DownloadStep::CreateFile => Some(DownloadStep::WriteFile),
        DownloadStep::WriteFile => if reporting {
            Some(DownloadStep::ReportComplete)
        } else {
            None
        },
        DownloadStep::ReportComplete => None,
    }
}

/// The first step of a download.
pub fn first_download_step() -> (r: DownloadStep)
    ensures
        r == DownloadStep::Send,
{
    DownloadStep::Send
}

/// Given the step just performed and how it went, the next step
/// (`Ok(None)` once the download is done), or the error that ends it. An
/// error ends the download before the report, so a failed download never
/// reports completion. A listener that is gone does not fail the download.
pub fn next_download_step(done: DownloadStep, outcome: Result<(), String>, reporting: bool) -> (r:
    Result<Option<DownloadStep>, String>)
    ensures
        outcome is Ok || done == DownloadStep::ReportComplete ==> r == Ok::<
            Option<DownloadStep>,
            String,
        >(step_after(done, reporting)),
        outcome is Err && done != DownloadStep::ReportComplete ==> r is Err && r->Err_0@
            == stage_prefix(stage_of(done)) + outcome->Err_0@,
        r is Err ==> done != DownloadStep::ReportComplete,
{
    match outcome {
        Ok(()) => Ok(following_step(done, reporting)),
        Err(cause) => match done {
            DownloadStep::ReportComplete => Ok(None),
            DownloadStep::Send => Err(stage_message(SourceStage::Download, cause.as_str())),
            DownloadStep::ReadBody => Err(stage_message(SourceStage::ReadUpdate, cause.as_str())),
            DownloadStep::CreateFile => Err(stage_message(SourceStage::CreateFile, cause.as_str())),
            DownloadStep::WriteFile => Err(stage_message(SourceStage::WriteFile, cause.as_str())),
        },
    }
}

fn following_step(done: DownloadStep, reporting: bool) -> (r: Option<DownloadStep>)
    ensures
        r == step_after(done, reporting),
{
    match done {
        DownloadStep::Send => Some(DownloadStep::ReadBody),
        DownloadStep::ReadBody => Some(DownloadStep::CreateFile),
        DownloadStep::CreateFile => Some(DownloadStep::WriteFile),
        DownloadStep::WriteFile => if reporting {
            Some(DownloadStep::ReportComplete)
        } else {
            None
        },
        DownloadStep::ReportComplete => None,
    }
}

/// The steps a download takes when every step succeeds.
pub open spec fn clean_run(reporting: bool) -> Seq<DownloadStep> {
    let base = seq![
        DownloadStep::Send,
        DownloadStep::ReadBody,
        DownloadStep::CreateFile,
        DownloadStep::WriteFile,
    ];
    if reporting {
        base.push(DownloadStep::ReportComplete)
    } else {
        base
    }
}

/// Completion is reported exactly once to a listener, as the step after the
/// write, and never without a listener; no step follows the report, and a
/// report is never reached from any step but a successful write. The file
/// is created only right after the whole body has been read.
pub proof fn completion_reported_once_after_write(done: DownloadStep, reporting: bool)
    ensures
        step_after(done, reporting) == Some(DownloadStep::ReportComplete) ==> done
            == DownloadStep::WriteFile && reporting,
        step_after(done, reporting) == Some(DownloadStep::CreateFile) ==> done
            == DownloadStep::ReadBody,
        step_after(DownloadStep::ReportComplete, reporting) is None,
        clean_run(reporting)[0] == DownloadStep::Send,
        forall|i: int|
            0 <= i < clean_run(reporting).len() - 1 ==> step_after(
                #[trigger] clean_run(reporting)[i],
                reporting,
            ) == Some(clean_run(reporting)[i + 1]),
        step_after(clean_run(reporting).last(), reporting) is None,
        clean_run(reporting).filter(|s: DownloadStep| s == DownloadStep::ReportComplete).len() == (
        if reporting {
            1int
        } else {
            0int
        }),
        reporting ==> clean_run(reporting)[clean_run(reporting).len() - 2] == DownloadStep::WriteFile,
{
    let base = seq![
        DownloadStep::Send,
        DownloadStep::ReadBody,
        DownloadStep::CreateFile,
        DownloadStep::WriteFile,
    ];
    let is_report = |s: DownloadStep| s == DownloadStep::ReportComplete;
    reveal_with_fuel(Seq::filter, 6);
    assert(base.filter(is_report) =~= Seq::<DownloadStep>::empty()) by {
        assert(base.drop_last() =~= seq![DownloadStep::Send, DownloadStep::ReadBody, DownloadStep::CreateFile]);
        assert(base.drop_last().drop_last() =~= seq![DownloadStep::Send, DownloadStep::ReadBody]);
        assert(base.drop_last().drop_last().drop_last() =~= seq![DownloadStep::Send]);
        assert(base.drop_last().drop_last().drop_last().drop_last() =~= Seq::<DownloadStep>::empty());
    }
    if reporting {
        assert(clean_run(reporting).drop_last() =~= base);
    }
}

/// The steps a download performs from `step` on, when the `k`-th of them
/// goes well exactly where `oks[k]` holds: a failure, or a step whose
/// outcome `oks` does not give, is the last one performed.
pub open spec fn steps_taken(step: DownloadStep, oks: Seq<bool>, reporting: bool) -> Seq<
    DownloadStep,
>
    decreases oks.len(),
{
    if oks.len() > 0 && oks[0] {
        match step_after(step, reporting) {
            Some(next) => seq![step] + steps_taken(next, oks.drop_first(), reporting),
            None => seq![step],
        }
    } else {
        seq![step]
    }
}

/// In any run of a download, completion is reported only to a listener,
/// and only after the request, the read, the creation of the file and the
/// write have all succeeded: a download that fails never reports.
pub proof fn report_only_after_every_step_succeeded(oks: Seq<bool>, reporting: bool, i: int)
    requires
        0 <= i < steps_taken(DownloadStep::Send, oks, reporting).len(),
        steps_taken(DownloadStep::Send, oks, reporting)[i] == DownloadStep::ReportComplete,
    ensures
        reporting,
        i == 4,
        oks.len() >= 4,
        oks[0] && oks[1] && oks[2] && oks[3],
{
    let o1 = oks.drop_first();
    let o2 = o1.drop_first();
    let o3 = o2.drop_first();
    let o4 = o3.drop_first();
    reveal_with_fuel(steps_taken, 6);
    let full = steps_taken(DownloadStep::Send, oks, reporting);
    if !(oks.len() > 0 && oks[0]) {
        assert(full =~= seq![DownloadStep::Send]);
    } else if !(o1.len() > 0 && o1[0]) {
        assert(full =~= seq![DownloadStep::Send, DownloadStep::ReadBody]);
    } else if !(o2.len() > 0 && o2[0]) {
        assert(full =~= seq![DownloadStep::Send, DownloadStep::ReadBody, DownloadStep::CreateFile]);
    } else if !(o3.len() > 0 && o3[0]) {
        assert(full =~= seq![
            DownloadStep::Send,
            DownloadStep::ReadBody,
            DownloadStep::CreateFile,
            DownloadStep::WriteFile,
        ]);
    } else if !reporting {
        assert(full =~= seq![
            DownloadStep::Send,
            DownloadStep::ReadBody,
            DownloadStep::CreateFile,
            DownloadStep::WriteFile,
        ]);
    } else {
        assert(full =~= seq![
            DownloadStep::Send,
            DownloadStep::ReadBody,
            DownloadStep::CreateFile,
            DownloadStep::WriteFile,
            DownloadStep::ReportComplete,
        ]);
        assert(oks[1] == o1[0] && oks[2] == o2[0] && oks[3] == o3[0]);
    }
}

} // verus!

//! Output file name templates of the downloader, built from named fields.
use vstd::prelude::*;
use vstd::string::*;

verus! {

/// A field of the downloader's output template.
#[derive(Clone, Copy, Debug, PartialEq, Eq, Structural)]
pub enum OutputTemplateVariable {
    Identifier,
    Title,
    FullTitle,
    Extension,
    AlternateTitle,
    Description,
    DisplayIdentifier,
    Uploader,
    License,
    Creator,
    Timestamp,
    UploadDate,
    ReleaseDate,
    ReleaseTimestamp,
    ModifiedTimestamp,
    ModifiedDate,
    UploaderIdentifier,
    Channel,
    ChannelIdentifier,
    ChannelFollowerCount,
    Location,
    Duration,
    DurationString,
    ViewCount,
    ConcurrentViewCount,
    LikeCount,
    DislikeCount,
    RepostCount,
    AverageRating,
    CommentCount,
    AgeLimit,
    LiveStatus,
    IsLive,
    WasLive,
    PlayableInEmbed,
    Availability,
    StartTime,
    EndTime,
    Extractor,
    ExtractorKey,
    Epoch,
    Autonumber,
    VideoAutonumber,
    NEntries,
    PlaylistIdentifier,
    PlaylistTitle,
    Playlist,
    PlaylistCount,
    PlaylistIndex,
    PlaylistAutonumber,
    PlaylistUploader,
    PlaylistUploaderIdentifier,
    WebpageUrl,
    WebpageUrlBasename,
    WebpageUrlDomain,
    OriginalUrl,
}

/// The downloader's name for the field.
pub open spec fn variable_name(v: OutputTemplateVariable) -> Seq<char> {
    match v {
        OutputTemplateVariable::Identifier => "id"@,
        OutputTemplateVariable::Title => "title"@,
        OutputTemplateVariable::FullTitle => "fulltitle"@,
        OutputTemplateVariable::Extension => "ext"@,
        OutputTemplateVariable::AlternateTitle => "alt_title"@,
        OutputTemplateVariable::Description => "description"@,
        OutputTemplateVariable::DisplayIdentifier => "display_id"@,
        OutputTemplateVariable::Uploader => "uploader"@,
        OutputTemplateVariable::License => "license"@,
        OutputTemplateVariable::Creator => "creator"@,
        OutputTemplateVariable::Timestamp => "timestamp"@,
        OutputTemplateVariable::UploadDate => "upload_date"@,
        OutputTemplateVariable::ReleaseDate => "release_date"@,
        OutputTemplateVariable::ReleaseTimestamp => "release_timestamp"@,
        OutputTemplateVariable::ModifiedTimestamp => "modified_timestamp"@,
        OutputTemplateVariable::ModifiedDate => "modified_date"@,
        OutputTemplateVariable::UploaderIdentifier => "uploader_id"@,
        OutputTemplateVariable::Channel => "channel"@,
        OutputTemplateVariable::ChannelIdentifier => "channel_id"@,
        OutputTemplateVariable::ChannelFollowerCount => "channel_follower_count"@,
        OutputTemplateVariable::Location => "location"@,
        OutputTemplateVariable::Duration => "duration"@,
        OutputTemplateVariable::DurationString => "duration_string"@,
        OutputTemplateVariable::ViewCount => "view_count"@,
        OutputTemplateVariable::ConcurrentViewCount => "concurrent_view_count"@,
        OutputTemplateVariable::LikeCount => "like_count"@,
        OutputTemplateVariable::DislikeCount => "dislike_count"@,
        OutputTemplateVariable::RepostCount => "repost_count"@,
        OutputTemplateVariable::AverageRating => "average_rating"@,
        OutputTemplateVariable::CommentCount => "comment_count"@,
        OutputTemplateVariable::AgeLimit => "age_limit"@,
        OutputTemplateVariable::LiveStatus => "live_status"@,
        OutputTemplateVariable::IsLive => "is_live"@,
        OutputTemplateVariable::WasLive => "was_live"@,
        OutputTemplateVariable::PlayableInEmbed => "playable_in_embed"@,
        OutputTemplateVariable::Availability => "availability"@,
        OutputTemplateVariable::StartTime => "start_time"@,
        OutputTemplateVariable::EndTime => "end_time"@,
        OutputTemplateVariable::Extractor => "extractor"@,
        OutputTemplateVariable::ExtractorKey => "extractor_key"@,
        OutputTemplateVariable::Epoch => "epoch"@,
        OutputTemplateVariable::Autonumber => "autonumber"@,
        OutputTemplateVariable::VideoAutonumber => "video_autonumber"@,
        OutputTemplateVariable::NEntries => "n_entries"@,
        OutputTemplateVariable::PlaylistIdentifier => "playlist_id"@,
        OutputTemplateVariable::PlaylistTitle => "playlist_title"@,
        OutputTemplateVariable::Playlist => "playlist"@,
        OutputTemplateVariable::PlaylistCount => "playlist_count"@,
        OutputTemplateVariable::PlaylistIndex => "playlist_index"@,
        OutputTemplateVariable::PlaylistAutonumber => "playlist_autonumber"@,
        OutputTemplateVariable::PlaylistUploader => "playlist_uploader"@,
        OutputTemplateVariable::PlaylistUploaderIdentifier => "playlist_uploader_id"@,
        OutputTemplateVariable::WebpageUrl => "webpage_url"@,
        OutputTemplateVariable::WebpageUrlBasename => "webpage_url_basename"@,
        OutputTemplateVariable::WebpageUrlDomain => "webpage_url_domain"@,
        OutputTemplateVariable::OriginalUrl => "original_url"@,
    }
}

/// How the field is written: `b` a boolean, `n` a number, `s` text.
pub open spec fn conversion(v: OutputTemplateVariable) -> char {
    match v {
        OutputTemplateVariable::IsLive
        | OutputTemplateVariable::WasLive => 'b',
        OutputTemplateVariable::Timestamp
        | OutputTemplateVariable::ReleaseTimestamp
        | OutputTemplateVariable::ModifiedTimestamp
        | OutputTemplateVariable::ChannelFollowerCount
        | OutputTemplateVariable::Duration
        | OutputTemplateVariable::ViewCount
        | OutputTemplateVariable::ConcurrentViewCount
        | OutputTemplateVariable::LikeCount
        | OutputTemplateVariable::DislikeCount
        | OutputTemplateVariable::RepostCount
        | OutputTemplateVariable::AverageRating
        | OutputTemplateVariable::CommentCount
        | OutputTemplateVariable::AgeLimit
        | OutputTemplateVariable::StartTime
        | OutputTemplateVariable::EndTime
        | OutputTemplateVariable::Epoch
        | OutputTemplateVariable::Autonumber
        | OutputTemplateVariable::VideoAutonumber
        | OutputTemplateVariable::NEntries
        | OutputTemplateVariable::PlaylistCount
        | OutputTemplateVariable::PlaylistIndex
        | OutputTemplateVariable::PlaylistAutonumber => 'n',
        _ => 's',
    }
}

/// The field as the template writes it: `%(<name>)<conversion>`.
pub open spec fn formatted(v: OutputTemplateVariable) -> Seq<char> {
    seq!['%', '('] + variable_name(v) + seq![')', conversion(v)]
}

#[derive(Clone)]
pub struct OutputTemplateBuilder {
    template: String,
}

impl View for OutputTemplateBuilder {
    type V = Seq<char>;

    closed spec fn view(&self) -> Seq<char> {
        self.template@
    }
}

impl OutputTemplateBuilder {
    pub fn new(template: String) -> (r: Self)
        ensures
            r@ == template@,
    {
        OutputTemplateBuilder { template }
    }

    pub fn clear(&mut self)
        ensures
            final(self)@ == Seq::<char>::empty(),
    {
        self.template = String::new();
    }

    pub fn get(&self) -> (r: String)
        ensures
            r@ == self@,
    {
        self.template.clone()
    }

    /// Appends `join`, where there is one, then the field.
    pub fn push(&mut self, variable: OutputTemplateVariable, join: Option<String>)
        ensures
            final(self)@ == old(self)@ + (match join {
                Some(j) => j@,
                None => Seq::<char>::empty(),
            }) + formatted(variable),
    {
        let s = self.formatVariable(variable);
        if let Some(j) = join {
            self.template.append(j.as_str());
        }
        self.template.append(s.as_str());
        proof {
            if join is None {
                assert(old(self)@ + Seq::<char>::empty() =~= old(self)@);
            }
        }
    }

    pub fn set(&mut self, template: String)
        ensures
            final(self)@ == template@,
    {
        self.template = template;
    }

    fn formatVariable(&self, variable: OutputTemplateVariable) -> (r: String)
        ensures
            r@ == formatted(variable),
    {
        let s = self.getVariableString(variable);
        proof {
            reveal_strlit("%(");
            reveal_strlit(")b");
            reveal_strlit(")n");
            reveal_strlit(")s");
        }
        assert("%("@ =~= seq!['%', '(']);
        let head = String::from_str("%(").concat(s.as_str());
        match variable {
            OutputTemplateVariable::IsLive
            | OutputTemplateVariable::WasLive => {
                assert(")b"@ =~= seq![')', 'b']);
                head.concat(")b")
            },
            OutputTemplateVariable::Timestamp
            | OutputTemplateVariable::ReleaseTimestamp
            | OutputTemplateVariable::ModifiedTimestamp
            | OutputTemplateVariable::ChannelFollowerCount
            | OutputTemplateVariable::Duration
            | OutputTemplateVariable::ViewCount
            | OutputTemplateVariable::ConcurrentViewCount
            | OutputTemplateVariable::LikeCount
            | OutputTemplateVariable::DislikeCount
            | OutputTemplateVariable::RepostCount
            | OutputTemplateVariable::AverageRating
            | OutputTemplateVariable::CommentCount
            | OutputTemplateVariable::AgeLimit
            | OutputTemplateVariable::StartTime
            | OutputTemplateVariable::EndTime
            | OutputTemplateVariable::Epoch
            | OutputTemplateVariable::Autonumber
            | OutputTemplateVariable::VideoAutonumber
            | OutputTemplateVariable::NEntries
            | OutputTemplateVariable::PlaylistCount
            | OutputTemplateVariable::PlaylistIndex
            | OutputTemplateVariable::PlaylistAutonumber => {
                assert(")n"@ =~= seq![')', 'n']);
                head.concat(")n")
            },
            _ => {
                assert(")s"@ =~= seq![')', 's']);
                head.concat(")s")
            },
        }
    }

    fn getVariableString(&self, variable: OutputTemplateVariable) -> (r: String)
        ensures
            r@ == variable_name(variable),
    {
        match variable {
            OutputTemplateVariable::Identifier => String::from_str("id"),
            OutputTemplateVariable::Title => String::from_str("title"),
            OutputTemplateVariable::FullTitle => String::from_str("fulltitle"),
            OutputTemplateVariable::Extension => String::from_str("ext"),
            OutputTemplateVariable::AlternateTitle => String::from_str("alt_title"),
            OutputTemplateVariable::Description => String::from_str("description"),
            OutputTemplateVariable::DisplayIdentifier => String::from_str("display_id"),
            OutputTemplateVariable::Uploader => String::from_str("uploader"),
            OutputTemplateVariable::License => String::from_str("license"),
            OutputTemplateVariable::Creator => String::from_str("creator"),
            OutputTemplateVariable::Timestamp => String::from_str("timestamp"),
            OutputTemplateVariable::UploadDate => String::from_str("upload_date"),
            OutputTemplateVariable::ReleaseDate => String::from_str("release_date"),
            OutputTemplateVariable::ReleaseTimestamp => String::from_str("release_timestamp"),
            OutputTemplateVariable::ModifiedTimestamp => String::from_str("modified_timestamp"),
            OutputTemplateVariable::ModifiedDate => String::from_str("modified_date"),
            OutputTemplateVariable::UploaderIdentifier => String::from_str("uploader_id"),
            OutputTemplateVariable::Channel => String::from_str("channel"),
            OutputTemplateVariable::ChannelIdentifier => String::from_str("channel_id"),
            OutputTemplateVariable::ChannelFollowerCount => String::from_str("channel_follower_count"),
            OutputTemplateVariable::Location => String::from_str("location"),
            OutputTemplateVariable::Duration => String::from_str("duration"),
            OutputTemplateVariable::DurationString => String::from_str("duration_string"),
            OutputTemplateVariable::ViewCount => String::from_str("view_count"),
            OutputTemplateVariable::ConcurrentViewCount => String::from_str("concurrent_view_count"),
            OutputTemplateVariable::LikeCount => String::from_str("like_count"),
            OutputTemplateVariable::DislikeCount => String::from_str("dislike_count"),
            OutputTemplateVariable::RepostCount => String::from_str("repost_count"),
            OutputTemplateVariable::AverageRating => String::from_str("average_rating"),
            OutputTemplateVariable::CommentCount => String::from_str("comment_count"),
            OutputTemplateVariable::AgeLimit => String::from_str("age_limit"),
            OutputTemplateVariable::LiveStatus => String::from_str("live_status"),
            OutputTemplateVariable::IsLive => String::from_str("is_live"),
            OutputTemplateVariable::WasLive => String::from_str("was_live"),
            OutputTemplateVariable::PlayableInEmbed => String::from_str("playable_in_embed"),
            OutputTemplateVariable::Availability => String::from_str("availability"),
            OutputTemplateVariable::StartTime => String::from_str("start_time"),
            OutputTemplateVariable::EndTime => String::from_str("end_time"),
            OutputTemplateVariable::Extractor => String::from_str("extractor"),
            OutputTemplateVariable::ExtractorKey => String::from_str("extractor_key"),
            OutputTemplateVariable::Epoch => String::from_str("epoch"),
            OutputTemplateVariable::Autonumber => String::from_str("autonumber"),
            OutputTemplateVariable::VideoAutonumber => String::from_str("video_autonumber"),
            OutputTemplateVariable::NEntries => String::from_str("n_entries"),
            OutputTemplateVariable::PlaylistIdentifier => String::from_str("playlist_id"),
            OutputTemplateVariable::PlaylistTitle => String::from_str("playlist_title"),
            OutputTemplateVariable::Playlist => String::from_str("playlist"),
            OutputTemplateVariable::PlaylistCount => String::from_str("playlist_count"),
            OutputTemplateVariable::PlaylistIndex => String::from_str("playlist_index"),
            OutputTemplateVariable::PlaylistAutonumber => String::from_str("playlist_autonumber"),
            OutputTemplateVariable::PlaylistUploader => String::from_str("playlist_uploader"),
            OutputTemplateVariable::PlaylistUploaderIdentifier => String::from_str("playlist_uploader_id"),
            OutputTemplateVariable::WebpageUrl => String::from_str("webpage_url"),
            OutputTemplateVariable::WebpageUrlBasename => String::from_str("webpage_url_basename"),
            OutputTemplateVariable::WebpageUrlDomain => String::from_str("webpage_url_domain"),
            OutputTemplateVariable::OriginalUrl => String::from_str("original_url"),
        }
    }
}

} // verus!

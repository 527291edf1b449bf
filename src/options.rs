//! The downloader's configuration, and the command-line flags it stands for.
use vstd::prelude::*;
use vstd::string::*;
use crate::text::{decimal, decimal_string, views};

verus! {

pub const DEFAULT_FORMAT: &'static str = "bv*+ba/b";

pub const DEFAULT_OUTPUT_TEMPLATE: &'static str = "%(upload_date)s - %(title)s.%(ext)s";

#[derive(Clone, Debug, Eq, PartialEq)]
pub struct VideoDownloaderOptions {
    pub ageLimit: i64,
    pub convertSubs: String,
    pub convertThumbnails: String,
    pub downloadPlaylist: bool,
    pub embedMetadata: bool,
    pub ffmpegLocation: String,
    pub format: String,
    pub formatSort: String,
    pub limitRate: String,
    pub output: String,
    pub outputPath: String,
    pub preferFreeFormats: bool,
    pub subFormat: String,
    pub subLangs: String,
    pub username: String,
    pub writeAutoSubs: bool,
    pub writeSubs: bool,
    pub writeThumbnail: bool,
}

/// `flag value`, or nothing where the value is empty.
pub open spec fn valued(flag: Seq<char>, value: Seq<char>) -> Seq<Seq<char>> {
    if value.len() == 0 {
        seq![]
    } else {
        seq![flag, value]
    }
}

/// `on` or `off`, by the switch.
pub open spec fn switched(b: bool, on: Seq<char>, off: Seq<char>) -> Seq<Seq<char>> {
    if b {
        seq![on]
    } else {
        seq![off]
    }
}

pub open spec fn age_limit_flags(age: int) -> Seq<Seq<char>> {
    if age > 0 {
        seq!["--age-limit"@, decimal(age as nat)]
    } else {
        seq![]
    }
}

/// The flags that the options stand for, in a fixed order.
pub open spec fn argument_list(o: VideoDownloaderOptions) -> Seq<Seq<char>> {
    age_limit_flags(o.ageLimit as int)
        + valued("--convert-subs"@, o.convertSubs@)
        + valued("--convert-thumbnails"@, o.convertThumbnails@)
        + switched(o.downloadPlaylist, "--yes-playlist"@, "--no-playlist"@)
        + switched(o.embedMetadata, "--embed-metadata"@, "--no-embed-metadata"@)
        + valued("--ffmpeg-location"@, o.ffmpegLocation@)
        + valued("--format"@, o.format@)
        + valued("--format-sort"@, o.formatSort@)
        + valued("--limit-rate"@, o.limitRate@)
        + valued("--output"@, o.output@)
        + valued("--paths"@, o.outputPath@)
        + switched(o.preferFreeFormats, "--prefer-free-formats"@, "--no-prefer-free-formats"@)
        + valued("--sub-format"@, o.subFormat@)
        + valued("--sub-langs"@, o.subLangs@)
        + valued("--username"@, o.username@)
        + switched(o.writeAutoSubs, "--write-auto-subs"@, "--no-write-auto-subs"@)
        + switched(o.writeSubs, "--write-subs"@, "--no-write-subs"@)
        + switched(o.writeThumbnail, "--write-thumbnail"@, "--no-write-thumbnail"@)
}

fn push_valued(args: &mut Vec<String>, flag: &str, value: &String)
    ensures
        views(final(args)@) == views(old(args)@) + valued(flag@, value@),
{
    if value.as_str().unicode_len() > 0 {
        args.push(String::from_str(flag));
        args.push(value.clone());
        assert(views(final(args)@) =~= views(old(args)@) + valued(flag@, value@));
    } else {
        assert(views(old(args)@) + valued(flag@, value@) =~= views(old(args)@));
    }
}

fn push_switched(args: &mut Vec<String>, b: bool, on: &str, off: &str)
    ensures
        views(final(args)@) == views(old(args)@) + switched(b, on@, off@),
{
    if b {
        args.push(String::from_str(on));
    } else {
        args.push(String::from_str(off));
    }
    assert(views(final(args)@) =~= views(old(args)@) + switched(b, on@, off@));
}

impl VideoDownloaderOptions {
    /// The default options, saving into `outputPath`.
    pub fn withDefaults(outputPath: String) -> (r: Self)
        ensures
            r.ageLimit == 0,
            r.convertSubs@.len() == 0,
            r.convertThumbnails@.len() == 0,
            !r.downloadPlaylist,
            !r.embedMetadata,
            r.ffmpegLocation@.len() == 0,
            r.format@ == DEFAULT_FORMAT@,
            r.formatSort@.len() == 0,
            r.limitRate@.len() == 0,
            r.output@ == DEFAULT_OUTPUT_TEMPLATE@,
            r.outputPath@ == outputPath@,
            !r.preferFreeFormats,
            r.subFormat@.len() == 0,
            r.subLangs@.len() == 0,
            r.username@.len() == 0,
            !r.writeAutoSubs,
            !r.writeSubs,
            !r.writeThumbnail,
    {
        VideoDownloaderOptions {
            ageLimit: 0,
            convertSubs: String::new(),
            convertThumbnails: String::new(),
            downloadPlaylist: false,
            embedMetadata: false,
            ffmpegLocation: String::new(),
            format: String::from_str(DEFAULT_FORMAT),
            formatSort: String::new(),
            limitRate: String::new(),
            output: String::from_str(DEFAULT_OUTPUT_TEMPLATE),
            outputPath,
            preferFreeFormats: false,
            subFormat: String::new(),
            subLangs: String::new(),
            username: String::new(),
            writeAutoSubs: false,
            writeSubs: false,
            writeThumbnail: false,
        }
    }

    /// The command-line flags that these options stand for.
    pub fn generateArgumentList(&self) -> (r: Vec<String>)
        ensures
            views(r@) == argument_list(*self),
    {
        let mut args: Vec<String> = Vec::new();
        if self.ageLimit > 0 {
            args.push(String::from_str("--age-limit"));
            args.push(decimal_string(self.ageLimit as u64));
        }
        assert(views(args@) =~= age_limit_flags(self.ageLimit as int));
        push_valued(&mut args, "--convert-subs", &self.convertSubs);
        push_valued(&mut args, "--convert-thumbnails", &self.convertThumbnails);
        push_switched(&mut args, self.downloadPlaylist, "--yes-playlist", "--no-playlist");
        push_switched(&mut args, self.embedMetadata, "--embed-metadata", "--no-embed-metadata");
        push_valued(&mut args, "--ffmpeg-location", &self.ffmpegLocation);
        push_valued(&mut args, "--format", &self.format);
        push_valued(&mut args, "--format-sort", &self.formatSort);
        push_valued(&mut args, "--limit-rate", &self.limitRate);
        push_valued(&mut args, "--output", &self.output);
        push_valued(&mut args, "--paths", &self.outputPath);
        push_switched(
            &mut args,
            self.preferFreeFormats,
            "--prefer-free-formats",
            "--no-prefer-free-formats",
        );
        push_valued(&mut args, "--sub-format", &self.subFormat);
        push_valued(&mut args, "--sub-langs", &self.subLangs);
        push_valued(&mut args, "--username", &self.username);
        push_switched(&mut args, self.writeAutoSubs, "--write-auto-subs", "--no-write-auto-subs");
        push_switched(&mut args, self.writeSubs, "--write-subs", "--no-write-subs");
        push_switched(&mut args, self.writeThumbnail, "--write-thumbnail", "--no-write-thumbnail");
        args
    }

    /// Subtitle announcements count only where subtitles are written.
    pub open spec fn writes_subtitles(&self) -> bool {
        self.writeSubs || self.writeAutoSubs
    }
}

} // verus!

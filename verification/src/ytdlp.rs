//! The yt-dlp command line of a download, and what its output tells about
//! the download while it runs and when it ends.
use vstd::prelude::*;

use crate::download::{
    aria2_args, build_youtube_extractor_args, filepath_from_download_output, is_media_filepath,
    is_media_path, normalize_aria2_args, output_line_filepath, output_path_arg, overwrite_arg,
    path_arg, push_facebook_title_replacement_args, push_overwrite_args, title_from_download_filename,
    title_from_filename, with_title_replacement, youtube_extractor_args,
};
use crate::pattern::{group_at, group_text, regex_captures, regex_captures_of};
use crate::json::{as_text, get, json_get, json_text, JsonValue};
use crate::text::{
    chars_of, contains, contains_seq, decimal, decimal_of, find, find_first, find_last, has_prefix,
    is_lit, ostr, parse_bounded, parse_uint, push_str, rfind, slice, starts_with, string_of, strs,
    trim, trim_ws,
};

verus! {

// ---------------------------------------------------------------------------
// The command line
// ---------------------------------------------------------------------------

/// Everything the yt-dlp command line of a download is made of, once the
/// paths, templates and the arguments of other services are resolved.
pub struct YtdlpArgOptions {
    /// The `-f` format selector.
    pub format_string: String,
    /// The directory the files are written to.
    pub output_directory: String,
    /// The `-o` template.
    pub output_template: String,
    /// The file yt-dlp prints the final file paths to.
    pub filepath_file: String,
    /// The output template of split chapters, when chapters are split.
    pub chapter_template: Option<String>,
    pub url: String,
    /// The Deno runtime found for YouTube's player code.
    pub deno_path: Option<String>,
    pub use_actual_player_js: bool,
    pub youtube_player_client: Option<String>,
    /// The directory that holds FFmpeg, when one is found.
    pub ffmpeg_dir: Option<String>,
    pub subtitle_mode: String,
    pub subtitle_langs: String,
    pub subtitle_format: String,
    pub subtitle_embed: bool,
    /// Headers that the site needs.
    pub site_header_args: Vec<String>,
    /// Cookie arguments.
    pub cookie_args: Vec<String>,
    pub proxy_url: Option<String>,
    pub live_from_start: bool,
    pub speed_limit: Option<String>,
    pub use_aria2: bool,
    pub aria2_args: Option<String>,
    pub skip_existing: Option<bool>,
    /// Arguments that keep file names valid on the platform.
    pub filename_safety_args: Vec<String>,
    pub download_playlist: bool,
    pub playlist_limit: Option<u32>,
    pub format: String,
    pub quality: String,
    pub audio_bitrate: String,
    pub embed_metadata: bool,
    pub embed_thumbnail: bool,
    pub sponsorblock_remove: Option<String>,
    pub sponsorblock_mark: Option<String>,
    pub download_sections: Option<String>,
    pub title: Option<String>,
}

/// What a download request asks for, as far as its command line goes. The
/// output path is the one the request names, already checked.
pub struct DownloadRequest {
    pub id: String,
    pub url: String,
    pub output_path: String,
    pub filename_template: Option<String>,
    pub organize_by_source: Option<bool>,
    pub quality: String,
    pub format: String,
    pub video_codec: String,
    pub preferred_fps: Option<String>,
    pub download_playlist: bool,
    pub playlist_index: Option<u32>,
    pub playlist_total: Option<u32>,
    pub number_playlist_items: Option<bool>,
    pub queue_index: Option<u32>,
    pub queue_total: Option<u32>,
    pub number_queue_items: Option<bool>,
    pub split_embedded_chapters: Option<bool>,
    pub number_chapter_files: Option<bool>,
    pub output_collision_policy: Option<String>,
    pub audio_bitrate: String,
    pub playlist_limit: Option<u32>,
    pub subtitle_mode: String,
    pub subtitle_langs: String,
    pub subtitle_embed: bool,
    pub subtitle_format: String,
    pub use_actual_player_js: Option<bool>,
    pub youtube_player_client: Option<String>,
    pub embed_metadata: Option<bool>,
    pub embed_thumbnail: Option<bool>,
    pub proxy_url: Option<String>,
    pub live_from_start: Option<bool>,
    pub speed_limit: Option<String>,
    pub use_aria2: Option<bool>,
    pub aria2_args: Option<String>,
    pub skip_existing: Option<bool>,
    pub sponsorblock_remove: Option<String>,
    pub sponsorblock_mark: Option<String>,
    pub download_sections: Option<String>,
    pub title: Option<String>,
}

/// What the machine and the other services contribute to a download's
/// command line: the platform, the title length that fits the output
/// directory, the file the final paths are printed to, the Deno runtime
/// and the FFmpeg directory when found, and the header, cookie and file
/// name arguments.
pub struct DownloadEnvironment {
    pub os: crate::platform::TargetOs,
    pub title_limit: u64,
    pub filepath_file: String,
    pub deno_path: Option<String>,
    pub ffmpeg_dir: Option<String>,
    pub site_header_args: Vec<String>,
    pub cookie_args: Vec<String>,
    pub filename_safety_args: Vec<String>,
}

pub open spec fn flag_or(value: Option<bool>, default: bool) -> bool {
    match value {
        Some(b) => b,
        None => default,
    }
}

/// The numbering prefix of a request's file names.
pub open spec fn request_item_prefix(req: DownloadRequest) -> Seq<char> {
    crate::download::item_prefix(
        flag_or(req.number_playlist_items, false),
        req.download_playlist,
        req.playlist_index,
        req.playlist_total,
        flag_or(req.number_queue_items, false),
        req.queue_index,
        req.queue_total,
    )
}

/// The output and chapter templates of a request, or the refusal of its
/// collision policy.
pub open spec fn request_templates(req: DownloadRequest, env: DownloadEnvironment) -> Result<
    (Seq<char>, Option<Seq<char>>),
    Seq<char>,
> {
    crate::download::download_templates(
        ostr(req.filename_template),
        request_item_prefix(req),
        ostr(req.output_collision_policy),
        req.id@,
        env.os,
        env.title_limit as nat,
        flag_or(req.split_embedded_chapters, false),
        flag_or(req.number_chapter_files, true),
    )
}

/// The command line options of a request: the format selected from its
/// quality, container, codec and frame rate; its output directory, sorted
/// by source when asked; its templates; and its settings as given (flags
/// left unset are off), next to what the environment found.
pub open spec fn request_options(req: DownloadRequest, env: DownloadEnvironment, o: YtdlpArgOptions) -> bool {
    &&& o.format_string@ == crate::format::format_string(
        req.quality@,
        req.format@,
        req.video_codec@,
        ostr(req.preferred_fps),
    )
    &&& o.output_directory@ == crate::download::output_directory(
        req.output_path@,
        req.url@,
        req.organize_by_source,
    )
    &&& request_templates(req, env) == Ok::<(Seq<char>, Option<Seq<char>>), Seq<char>>(
        (o.output_template@, ostr(o.chapter_template)),
    )
    &&& o.filepath_file@ == env.filepath_file@
    &&& o.url@ == req.url@
    &&& ostr(o.deno_path) == ostr(env.deno_path)
    &&& o.use_actual_player_js == flag_or(req.use_actual_player_js, false)
    &&& ostr(o.youtube_player_client) == ostr(req.youtube_player_client)
    &&& ostr(o.ffmpeg_dir) == ostr(env.ffmpeg_dir)
    &&& o.subtitle_mode@ == req.subtitle_mode@
    &&& o.subtitle_langs@ == req.subtitle_langs@
    &&& o.subtitle_format@ == req.subtitle_format@
    &&& o.subtitle_embed == req.subtitle_embed
    &&& strs(o.site_header_args@) == strs(env.site_header_args@)
    &&& strs(o.cookie_args@) == strs(env.cookie_args@)
    &&& ostr(o.proxy_url) == ostr(req.proxy_url)
    &&& o.live_from_start == flag_or(req.live_from_start, false)
    &&& ostr(o.speed_limit) == ostr(req.speed_limit)
    &&& o.use_aria2 == flag_or(req.use_aria2, false)
    &&& ostr(o.aria2_args) == ostr(req.aria2_args)
    &&& o.skip_existing == req.skip_existing
    &&& strs(o.filename_safety_args@) == strs(env.filename_safety_args@)
    &&& o.download_playlist == req.download_playlist
    &&& o.playlist_limit == req.playlist_limit
    &&& o.format@ == req.format@
    &&& o.quality@ == req.quality@
    &&& o.audio_bitrate@ == req.audio_bitrate@
    &&& o.embed_metadata == flag_or(req.embed_metadata, false)
    &&& o.embed_thumbnail == flag_or(req.embed_thumbnail, false)
    &&& ostr(o.sponsorblock_remove) == ostr(req.sponsorblock_remove)
    &&& ostr(o.sponsorblock_mark) == ostr(req.sponsorblock_mark)
    &&& ostr(o.download_sections) == ostr(req.download_sections)
    &&& ostr(o.title) == ostr(req.title)
}

fn flag_value(value: Option<bool>, default: bool) -> (r: bool)
    ensures
        r == flag_or(value, default),
{
    match value {
        Some(b) => b,
        None => default,
    }
}

/// The command line options of a download request; see `request_options`.
/// Fails, with its message, where the collision policy is refused.
pub fn download_arg_options(req: DownloadRequest, env: DownloadEnvironment) -> (r: Result<
    YtdlpArgOptions,
    String,
>)
    ensures
        match r {
            Ok(o) => request_options(req, env, o),
            Err(e) => request_templates(req, env) == Err::<(Seq<char>, Option<Seq<char>>), Seq<char>>(
                e@,
            ),
        },
{
    let format_string = crate::format::build_format_string(
        req.quality.as_str(),
        req.format.as_str(),
        req.video_codec.as_str(),
        option_value(&req.preferred_fps),
    );
    let output_directory = crate::download::build_output_directory(
        req.output_path.as_str(),
        req.url.as_str(),
        req.organize_by_source,
    );
    let item_prefix = crate::download::build_item_prefix(
        flag_value(req.number_playlist_items, false),
        req.download_playlist,
        req.playlist_index,
        req.playlist_total,
        flag_value(req.number_queue_items, false),
        req.queue_index,
        req.queue_total,
    );
    let (output_template, chapter_template) = match crate::download::download_output_templates(
        req.filename_template,
        item_prefix.as_str(),
        option_value(&req.output_collision_policy),
        req.id.as_str(),
        env.os,
        env.title_limit,
        flag_value(req.split_embedded_chapters, false),
        flag_value(req.number_chapter_files, true),
    ) {
        Ok(t) => t,
        Err(e) => return Err(e),
    };
    Ok(YtdlpArgOptions {
        format_string,
        output_directory,
        output_template,
        filepath_file: env.filepath_file,
        chapter_template,
        url: req.url,
        deno_path: env.deno_path,
        use_actual_player_js: flag_value(req.use_actual_player_js, false),
        youtube_player_client: req.youtube_player_client,
        ffmpeg_dir: env.ffmpeg_dir,
        subtitle_mode: req.subtitle_mode,
        subtitle_langs: req.subtitle_langs,
        subtitle_format: req.subtitle_format,
        subtitle_embed: req.subtitle_embed,
        site_header_args: env.site_header_args,
        cookie_args: env.cookie_args,
        proxy_url: req.proxy_url,
        live_from_start: flag_value(req.live_from_start, false),
        speed_limit: req.speed_limit,
        use_aria2: flag_value(req.use_aria2, false),
        aria2_args: req.aria2_args,
        skip_existing: req.skip_existing,
        filename_safety_args: env.filename_safety_args,
        download_playlist: req.download_playlist,
        playlist_limit: req.playlist_limit,
        format: req.format,
        quality: req.quality,
        audio_bitrate: req.audio_bitrate,
        embed_metadata: flag_value(req.embed_metadata, false),
        embed_thumbnail: flag_value(req.embed_thumbnail, false),
        sponsorblock_remove: req.sponsorblock_remove,
        sponsorblock_mark: req.sponsorblock_mark,
        download_sections: req.download_sections,
        title: req.title,
    })
}

/// `flag value` when a non-empty value is given.
pub open spec fn flag_with_value(flag: Seq<char>, value: Option<Seq<char>>) -> Seq<Seq<char>> {
    match value {
        Some(v) => if v.len() > 0 {
            seq![flag, v]
        } else {
            Seq::empty()
        },
        None => Seq::empty(),
    }
}

/// The arguments every download starts with: progress on separate lines,
/// the format, where and under which name files go, where the final paths
/// are printed, no kept intermediates, and the retry counts.
pub open spec fn base_args(o: YtdlpArgOptions) -> Seq<Seq<char>> {
    seq![
        "--newline"@,
        "--progress"@,
        "--no-warnings"@,
        "-f"@,
        o.format_string@,
        "--paths"@,
        path_arg(o.output_directory@),
        "-o"@,
        o.output_template@,
        "--print-to-file"@,
        "after_move:filepath"@,
        o.filepath_file@,
        "--no-keep-video"@,
        "--no-keep-fragments"@,
        "--retries"@,
        "3"@,
        "--fragment-retries"@,
        "3"@,
        "--extractor-retries"@,
        "2"@,
        "--file-access-retries"@,
        "2"@,
    ]
}

pub open spec fn chapter_args(o: YtdlpArgOptions) -> Seq<Seq<char>> {
    match o.chapter_template {
        Some(t) => seq!["--split-chapters"@, "-o"@, "chapter:"@ + t@],
        None => Seq::empty(),
    }
}

pub open spec fn is_youtube(url: Seq<char>) -> bool {
    contains(url, "youtube.com"@) || contains(url, "youtu.be"@)
}

/// For YouTube: the Deno runtime and the extractor arguments, when there
/// are any.
pub open spec fn youtube_args(o: YtdlpArgOptions) -> Seq<Seq<char>> {
    if is_youtube(o.url@) {
        (match o.deno_path {
            Some(p) => seq!["--js-runtimes"@, "deno:"@ + p@],
            None => Seq::empty(),
        }) + match youtube_extractor_args(o.use_actual_player_js, ostr(o.youtube_player_client)) {
            Some(e) => seq!["--extractor-args"@, e],
            None => Seq::empty(),
        }
    } else {
        Seq::empty()
    }
}

pub open spec fn ffmpeg_args(o: YtdlpArgOptions) -> Seq<Seq<char>> {
    match o.ffmpeg_dir {
        Some(d) => seq!["--ffmpeg-location"@, d@],
        None => Seq::empty(),
    }
}

/// Subtitles unless they are off: all automatic ones in `auto` mode, else
/// the chosen languages; in the chosen format, embedded when asked.
pub open spec fn subtitle_args(o: YtdlpArgOptions) -> Seq<Seq<char>> {
    if o.subtitle_mode@ != "off"@ {
        seq!["--write-subs"@] + (if o.subtitle_mode@ == "auto"@ {
            seq!["--write-auto-subs"@, "--sub-langs"@, "all"@]
        } else {
            seq!["--sub-langs"@, o.subtitle_langs@]
        }) + seq!["--sub-format"@, o.subtitle_format@] + if o.subtitle_embed {
            seq!["--embed-subs"@]
        } else {
            Seq::empty()
        }
    } else {
        Seq::empty()
    }
}

pub open spec fn live_args(live_from_start: bool) -> Seq<Seq<char>> {
    if live_from_start {
        seq!["--live-from-start"@, "--no-part"@]
    } else {
        Seq::empty()
    }
}

/// aria2c as the downloader, with its normalized arguments when any are left.
pub open spec fn aria2_downloader_args(o: YtdlpArgOptions) -> Seq<Seq<char>> {
    if o.use_aria2 {
        seq!["--downloader"@, "aria2c"@] + match ostr(o.aria2_args) {
            Some(raw) => match aria2_args(raw) {
                Some(n) => seq!["--downloader-args"@, n],
                None => Seq::empty(),
            },
            None => Seq::empty(),
        }
    } else {
        Seq::empty()
    }
}

/// A single video unless the playlist is asked for, then up to its limit.
pub open spec fn playlist_args(download_playlist: bool, limit: Option<u32>) -> Seq<Seq<char>> {
    if !download_playlist {
        seq!["--no-playlist"@]
    } else {
        match limit {
            Some(l) => if l > 0 {
                seq!["--playlist-end"@, decimal(l as nat)]
            } else {
                Seq::empty()
            },
            None => Seq::empty(),
        }
    }
}

pub open spec fn is_audio_download(format: Seq<char>, quality: Seq<char>) -> bool {
    format == "mp3"@ || format == "m4a"@ || format == "opus"@ || quality == "audio"@
}

pub open spec fn audio_codec(format: Seq<char>) -> Seq<char> {
    if format == "m4a"@ || format == "opus"@ {
        format
    } else {
        "mp3"@
    }
}

/// Audio is extracted to its format (mp3 unless m4a or opus), at 128K or
/// the best quality; video is merged into the chosen container.
pub open spec fn audio_or_merge_args(o: YtdlpArgOptions) -> Seq<Seq<char>> {
    if is_audio_download(o.format@, o.quality@) {
        seq![
            "-x"@,
            "--audio-format"@,
            audio_codec(o.format@),
            "--audio-quality"@,
            if o.audio_bitrate@ == "128"@ {
                "128K"@
            } else {
                "0"@
            },
        ]
    } else {
        seq!["--merge-output-format"@, o.format@]
    }
}

pub open spec fn embed_args(embed_metadata: bool, embed_thumbnail: bool) -> Seq<Seq<char>> {
    (if embed_metadata {
        seq!["--embed-metadata"@]
    } else {
        Seq::empty()
    }) + if embed_thumbnail {
        seq!["--embed-thumbnail"@, "--convert-thumbnails"@, "jpg"@]
    } else {
        Seq::empty()
    }
}

/// The options in the order the command line has them, before the
/// replacement of a placeholder title.
pub open spec fn option_args(o: YtdlpArgOptions) -> Seq<Seq<char>> {
    base_args(o) + chapter_args(o) + youtube_args(o) + ffmpeg_args(o) + subtitle_args(o) + strs(
        o.site_header_args@,
    ) + strs(o.cookie_args@) + flag_with_value("--proxy"@, ostr(o.proxy_url)) + live_args(
        o.live_from_start,
    ) + flag_with_value("--limit-rate"@, ostr(o.speed_limit)) + aria2_downloader_args(o) + seq![
        overwrite_arg(o.skip_existing),
    ] + strs(o.filename_safety_args@) + playlist_args(o.download_playlist, o.playlist_limit)
        + audio_or_merge_args(o) + embed_args(o.embed_metadata, o.embed_thumbnail)
        + flag_with_value("--sponsorblock-remove"@, ostr(o.sponsorblock_remove)) + flag_with_value(
        "--sponsorblock-mark"@,
        ostr(o.sponsorblock_mark),
    ) + flag_with_value("--download-sections"@, ostr(o.download_sections))
}

/// The options that come before the audio or merge arguments.
pub open spec fn args_before_output_kind(o: YtdlpArgOptions) -> Seq<Seq<char>> {
    base_args(o) + chapter_args(o) + youtube_args(o) + ffmpeg_args(o) + subtitle_args(o) + strs(
        o.site_header_args@,
    ) + strs(o.cookie_args@) + flag_with_value("--proxy"@, ostr(o.proxy_url)) + live_args(
        o.live_from_start,
    ) + flag_with_value("--limit-rate"@, ostr(o.speed_limit)) + aria2_downloader_args(o) + seq![
        overwrite_arg(o.skip_existing),
    ] + strs(o.filename_safety_args@) + playlist_args(o.download_playlist, o.playlist_limit)
}

/// The audio format asked for: the chosen format when it is mp3, m4a or
/// opus, else mp3.
pub open spec fn chosen_audio_format(format: Seq<char>) -> Seq<char> {
    if format == "mp3"@ || format == "m4a"@ || format == "opus"@ {
        format
    } else {
        "mp3"@
    }
}

/// An audio download (an mp3, m4a or opus format, or the audio quality)
/// extracts the audio to the chosen format itself (mp3 when the format is
/// none of the three) at 128K or the best quality; any other download is
/// merged into the chosen container. These arguments stand together in the
/// command line.
pub proof fn law_audio_downloads_keep_their_format(o: YtdlpArgOptions)
    ensures
        exists|i: int|
            #![trigger ytdlp_args(o)[i]]
            0 <= i && i + 2 <= ytdlp_args(o).len() && if o.format@ == "mp3"@ || o.format@ == "m4a"@
                || o.format@ == "opus"@ || o.quality@ == "audio"@ {
                &&& i + 5 <= ytdlp_args(o).len()
                &&& ytdlp_args(o)[i] == "-x"@
                &&& ytdlp_args(o)[i + 1] == "--audio-format"@
                &&& ytdlp_args(o)[i + 2] == chosen_audio_format(o.format@)
                &&& ytdlp_args(o)[i + 3] == "--audio-quality"@
                &&& ytdlp_args(o)[i + 4] == if o.audio_bitrate@ == "128"@ {
                    "128K"@
                } else {
                    "0"@
                }
            } else {
                &&& ytdlp_args(o)[i] == "--merge-output-format"@
                &&& ytdlp_args(o)[i + 1] == o.format@
            },
{
    let a = args_before_output_kind(o);
    let m = audio_or_merge_args(o);
    let x = a + m;
    let opts = option_args(o);
    let whole = ytdlp_args(o);
    assert(opts == x + embed_args(o.embed_metadata, o.embed_thumbnail) + flag_with_value(
        "--sponsorblock-remove"@,
        ostr(o.sponsorblock_remove),
    ) + flag_with_value("--sponsorblock-mark"@, ostr(o.sponsorblock_mark)) + flag_with_value(
        "--download-sections"@,
        ostr(o.download_sections),
    ));
    let titled = with_title_replacement(opts, o.url@, ostr(o.title));
    assert(whole == titled + seq!["--"@, o.url@]);
    assert forall|k: int| 0 <= k < m.len() implies #[trigger] whole[a.len() + k] == m[k] by {
        assert(x[a.len() + k] == m[k]);
        assert(opts[a.len() + k] == x[a.len() + k]);
        assert(titled[a.len() + k] == opts[a.len() + k]);
    }
    let i = a.len() as int;
    if is_audio_download(o.format@, o.quality@) {
        assert(whole[i] == m[0]);
        assert(whole[i + 1] == m[1]);
        assert(whole[i + 2] == m[2]);
        assert(whole[i + 3] == m[3]);
        assert(whole[i + 4] == m[4]);
    } else {
        assert(whole[i] == m[0]);
        assert(whole[i + 1] == m[1]);
    }
}

/// The options a command line opens with stand at its start, whatever
/// title replacement follows them.
proof fn lemma_options_lead(o: YtdlpArgOptions)
    ensures
        option_args(o).len() + 2 <= ytdlp_args(o).len(),
        forall|k: int| 0 <= k < option_args(o).len() ==> #[trigger] ytdlp_args(o)[k] == option_args(o)[k],
{
    let opts = option_args(o);
    let titled = with_title_replacement(opts, o.url@, ostr(o.title));
    assert forall|k: int| 0 <= k < opts.len() implies #[trigger] ytdlp_args(o)[k] == opts[k] by {
        assert(titled[k] == opts[k]);
    }
}

/// Every download's command line selects the chosen format with `-f`,
/// writes under the chosen directory with the chosen template, prints the
/// final paths to the chosen file, and ends with `--` and the URL, so that
/// the URL is never read as an option.
pub proof fn law_command_line_names_format_paths_and_url(o: YtdlpArgOptions)
    ensures
        ytdlp_args(o).len() >= 24,
        ytdlp_args(o)[3] == "-f"@ && ytdlp_args(o)[4] == o.format_string@,
        ytdlp_args(o)[5] == "--paths"@ && ytdlp_args(o)[6] == path_arg(o.output_directory@),
        ytdlp_args(o)[7] == "-o"@ && ytdlp_args(o)[8] == o.output_template@,
        ytdlp_args(o)[9] == "--print-to-file"@ && ytdlp_args(o)[11] == o.filepath_file@,
        ytdlp_args(o)[ytdlp_args(o).len() - 2] == "--"@,
        ytdlp_args(o)[ytdlp_args(o).len() - 1] == o.url@,
{
    lemma_options_lead(o);
    let b = base_args(o);
    assert(option_args(o) == b + (option_args(o).subrange(b.len() as int, option_args(o).len() as int))) by {
        assert forall|k: int| 0 <= k < b.len() implies option_args(o)[k] == b[k] by {
            assert((b + chapter_args(o))[k] == b[k]);
        }
        assert(option_args(o) =~= b + (option_args(o).subrange(b.len() as int, option_args(o).len() as int)));
    }
    assert(ytdlp_args(o)[3] == b[3]);
    assert(ytdlp_args(o)[4] == b[4]);
    assert(ytdlp_args(o)[5] == b[5]);
    assert(ytdlp_args(o)[6] == b[6]);
    assert(ytdlp_args(o)[7] == b[7]);
    assert(ytdlp_args(o)[8] == b[8]);
    assert(ytdlp_args(o)[9] == b[9]);
    assert(ytdlp_args(o)[11] == b[11]);
}

/// A single video is asked for unless the playlist is, and then a positive
/// limit ends the playlist there.
pub proof fn law_playlist_choice_reaches_the_command_line(o: YtdlpArgOptions)
    ensures
        !o.download_playlist ==> exists|i: int|
            0 <= i < ytdlp_args(o).len() && #[trigger] ytdlp_args(o)[i] == "--no-playlist"@,
        o.download_playlist && o.playlist_limit is Some && o.playlist_limit->0 > 0 ==> exists|i: int|
            0 <= i && i + 1 < ytdlp_args(o).len() && #[trigger] ytdlp_args(o)[i] == "--playlist-end"@
                && ytdlp_args(o)[i + 1] == decimal(o.playlist_limit->0 as nat),
{
    lemma_options_lead(o);
    let a = args_before_output_kind(o);
    let pl = playlist_args(o.download_playlist, o.playlist_limit);
    let before = a.subrange(0, a.len() - pl.len());
    assert(a =~= before + pl);
    let x = a + audio_or_merge_args(o);
    assert(option_args(o) == x + embed_args(o.embed_metadata, o.embed_thumbnail) + flag_with_value(
        "--sponsorblock-remove"@,
        ostr(o.sponsorblock_remove),
    ) + flag_with_value("--sponsorblock-mark"@, ostr(o.sponsorblock_mark)) + flag_with_value(
        "--download-sections"@,
        ostr(o.download_sections),
    ));
    assert forall|k: int| 0 <= k < pl.len() implies #[trigger] ytdlp_args(o)[before.len() + k] == pl[k] by {
        assert(a[before.len() + k] == pl[k]);
        assert(x[before.len() + k] == a[before.len() + k]);
        assert(option_args(o)[before.len() + k] == x[before.len() + k]);
    }
    let i = before.len() as int;
    if !o.download_playlist {
        assert(ytdlp_args(o)[i] == pl[0]);
    } else if o.playlist_limit is Some && o.playlist_limit->0 > 0 {
        assert(ytdlp_args(o)[i] == pl[0]);
        assert(ytdlp_args(o)[i + 1] == pl[1]);
    }
}

/// The whole command line: the options, a title replacement for a reel
/// with a real title, then `--` and the URL.
pub open spec fn ytdlp_args(o: YtdlpArgOptions) -> Seq<Seq<char>> {
    with_title_replacement(option_args(o), o.url@, ostr(o.title)) + seq!["--"@, o.url@]
}

fn lit(s: &str) -> (r: String)
    ensures
        r@ == s@,
{
    string_of(&chars_of(s))
}

fn copy_string(s: &String) -> (r: String)
    ensures
        r@ == s@,
{
    string_of(&chars_of(s.as_str()))
}

fn copy_strings(v: &Vec<String>) -> (r: Vec<String>)
    ensures
        strs(r@) == strs(v@),
{
    let mut r: Vec<String> = Vec::new();
    let mut i: usize = 0;
    while i < v.len()
        invariant
            i <= v.len(),
            strs(r@) == strs(v@).subrange(0, i as int),
        decreases v.len() - i,
    {
        let ghost before = strs(r@);
        r.push(copy_string(&v[i]));
        assert(strs(r@) =~= before.push(v@[i as int]@));
        assert(strs(v@).subrange(0, i + 1) =~= strs(v@).subrange(0, i as int).push(v@[i as int]@));
        i += 1;
    }
    assert(strs(v@).subrange(0, v.len() as int) =~= strs(v@));
    r
}

fn append_args(args: &mut Vec<String>, more: Vec<String>)
    ensures
        strs(final(args)@) == strs(old(args)@) + strs(more@),
{
    let ghost before = args@;
    let ghost added = more@;
    let mut more = more;
    args.append(&mut more);
    assert(strs(args@) =~= strs(before) + strs(added));
}

fn option_value(value: &Option<String>) -> (r: Option<&str>)
    ensures
        crate::text::opt_view(r) == ostr(*value),
{
    match value {
        Some(v) => Some(v.as_str()),
        None => None,
    }
}

fn flag_with_value_exec(flag: &str, value: &Option<String>) -> (r: Vec<String>)
    ensures
        strs(r@) == flag_with_value(flag@, ostr(*value)),
{
    let mut r: Vec<String> = Vec::new();
    if let Some(v) = value {
        if chars_of(v.as_str()).len() > 0 {
            r.push(lit(flag));
            r.push(copy_string(v));
            assert(strs(r@) =~= seq![flag@, v@]);
            return r;
        }
    }
    assert(strs(r@) =~= Seq::<Seq<char>>::empty());
    r
}

fn base_args_exec(o: &YtdlpArgOptions) -> (r: Vec<String>)
    ensures
        strs(r@) == base_args(*o),
{
    let mut r: Vec<String> = Vec::new();
    r.push(lit("--newline"));
    r.push(lit("--progress"));
    r.push(lit("--no-warnings"));
    r.push(lit("-f"));
    r.push(copy_string(&o.format_string));
    r.push(lit("--paths"));
    r.push(output_path_arg(o.output_directory.as_str()));
    r.push(lit("-o"));
    r.push(copy_string(&o.output_template));
    r.push(lit("--print-to-file"));
    r.push(lit("after_move:filepath"));
    r.push(copy_string(&o.filepath_file));
    r.push(lit("--no-keep-video"));
    r.push(lit("--no-keep-fragments"));
    r.push(lit("--retries"));
    r.push(lit("3"));
    r.push(lit("--fragment-retries"));
    r.push(lit("3"));
    r.push(lit("--extractor-retries"));
    r.push(lit("2"));
    r.push(lit("--file-access-retries"));
    r.push(lit("2"));
    assert(strs(r@) =~= base_args(*o));
    r
}

fn chapter_args_exec(o: &YtdlpArgOptions) -> (r: Vec<String>)
    ensures
        strs(r@) == chapter_args(*o),
{
    let mut r: Vec<String> = Vec::new();
    match &o.chapter_template {
        Some(t) => {
            r.push(lit("--split-chapters"));
            r.push(lit("-o"));
            let mut c = chars_of("chapter:");
            push_str(&mut c, t.as_str());
            r.push(string_of(&c));
        },
        None => {},
    }
    assert(strs(r@) =~= chapter_args(*o));
    r
}

fn youtube_args_exec(o: &YtdlpArgOptions) -> (r: Vec<String>)
    ensures
        strs(r@) == youtube_args(*o),
{
    let mut r: Vec<String> = Vec::new();
    if !crate::download::is_youtube_url(o.url.as_str()) {
        assert(strs(r@) =~= youtube_args(*o));
        return r;
    }
    if let Some(p) = &o.deno_path {
        r.push(lit("--js-runtimes"));
        let mut c = chars_of("deno:");
        push_str(&mut c, p.as_str());
        r.push(string_of(&c));
    }
    let ghost deno = strs(r@);
    if let Some(e) = build_youtube_extractor_args(
        o.use_actual_player_js,
        option_value(&o.youtube_player_client),
    ) {
        r.push(lit("--extractor-args"));
        r.push(e);
    }
    assert(strs(r@) =~= youtube_args(*o));
    r
}

fn ffmpeg_args_exec(o: &YtdlpArgOptions) -> (r: Vec<String>)
    ensures
        strs(r@) == ffmpeg_args(*o),
{
    let mut r: Vec<String> = Vec::new();
    if let Some(d) = &o.ffmpeg_dir {
        r.push(lit("--ffmpeg-location"));
        r.push(copy_string(d));
    }
    assert(strs(r@) =~= ffmpeg_args(*o));
    r
}

fn subtitle_args_exec(o: &YtdlpArgOptions) -> (r: Vec<String>)
    ensures
        strs(r@) == subtitle_args(*o),
{
    let mut r: Vec<String> = Vec::new();
    let mode = chars_of(o.subtitle_mode.as_str());
    if is_lit(&mode, "off") {
        assert(strs(r@) =~= subtitle_args(*o));
        return r;
    }
    r.push(lit("--write-subs"));
    if is_lit(&mode, "auto") {
        r.push(lit("--write-auto-subs"));
        r.push(lit("--sub-langs"));
        r.push(lit("all"));
    } else {
        r.push(lit("--sub-langs"));
        r.push(copy_string(&o.subtitle_langs));
    }
    r.push(lit("--sub-format"));
    r.push(copy_string(&o.subtitle_format));
    if o.subtitle_embed {
        r.push(lit("--embed-subs"));
    }
    assert(strs(r@) =~= subtitle_args(*o));
    r
}

fn live_args_exec(live_from_start: bool) -> (r: Vec<String>)
    ensures
        strs(r@) == live_args(live_from_start),
{
    let mut r: Vec<String> = Vec::new();
    if live_from_start {
        r.push(lit("--live-from-start"));
        r.push(lit("--no-part"));
    }
    assert(strs(r@) =~= live_args(live_from_start));
    r
}

fn aria2_args_exec(o: &YtdlpArgOptions) -> (r: Vec<String>)
    ensures
        strs(r@) == aria2_downloader_args(*o),
{
    let mut r: Vec<String> = Vec::new();
    if o.use_aria2 {
        r.push(lit("--downloader"));
        r.push(lit("aria2c"));
        if let Some(raw) = &o.aria2_args {
            if let Some(n) = normalize_aria2_args(raw.as_str()) {
                r.push(lit("--downloader-args"));
                r.push(n);
            }
        }
    }
    assert(strs(r@) =~= aria2_downloader_args(*o));
    r
}

fn playlist_args_exec(download_playlist: bool, limit: Option<u32>) -> (r: Vec<String>)
    ensures
        strs(r@) == playlist_args(download_playlist, limit),
{
    let mut r: Vec<String> = Vec::new();
    if !download_playlist {
        r.push(lit("--no-playlist"));
    } else if let Some(l) = limit {
        if l > 0 {
            r.push(lit("--playlist-end"));
            r.push(string_of(&decimal_of(l as u64)));
        }
    }
    assert(strs(r@) =~= playlist_args(download_playlist, limit));
    r
}

fn audio_or_merge_args_exec(o: &YtdlpArgOptions) -> (r: Vec<String>)
    ensures
        strs(r@) == audio_or_merge_args(*o),
{
    let mut r: Vec<String> = Vec::new();
    let f = chars_of(o.format.as_str());
    let q = chars_of(o.quality.as_str());
    if is_lit(&f, "mp3") || is_lit(&f, "m4a") || is_lit(&f, "opus") || is_lit(&q, "audio") {
        r.push(lit("-x"));
        r.push(lit("--audio-format"));
        if is_lit(&f, "m4a") || is_lit(&f, "opus") {
            r.push(copy_string(&o.format));
        } else {
            r.push(lit("mp3"));
        }
        r.push(lit("--audio-quality"));
        if is_lit(&chars_of(o.audio_bitrate.as_str()), "128") {
            r.push(lit("128K"));
        } else {
            r.push(lit("0"));
        }
    } else {
        r.push(lit("--merge-output-format"));
        r.push(copy_string(&o.format));
    }
    assert(strs(r@) =~= audio_or_merge_args(*o));
    r
}

fn embed_args_exec(embed_metadata: bool, embed_thumbnail: bool) -> (r: Vec<String>)
    ensures
        strs(r@) == embed_args(embed_metadata, embed_thumbnail),
{
    let mut r: Vec<String> = Vec::new();
    if embed_metadata {
        r.push(lit("--embed-metadata"));
    }
    if embed_thumbnail {
        r.push(lit("--embed-thumbnail"));
        r.push(lit("--convert-thumbnails"));
        r.push(lit("jpg"));
    }
    assert(strs(r@) =~= embed_args(embed_metadata, embed_thumbnail));
    r
}

/// The yt-dlp command line of a download.
pub fn build_ytdlp_args(o: &YtdlpArgOptions) -> (r: Vec<String>)
    ensures
        strs(r@) == ytdlp_args(*o),
{
    let mut args = base_args_exec(o);
    append_args(&mut args, chapter_args_exec(o));
    append_args(&mut args, youtube_args_exec(o));
    append_args(&mut args, ffmpeg_args_exec(o));
    append_args(&mut args, subtitle_args_exec(o));
    append_args(&mut args, copy_strings(&o.site_header_args));
    append_args(&mut args, copy_strings(&o.cookie_args));
    append_args(&mut args, flag_with_value_exec("--proxy", &o.proxy_url));
    append_args(&mut args, live_args_exec(o.live_from_start));
    append_args(&mut args, flag_with_value_exec("--limit-rate", &o.speed_limit));
    append_args(&mut args, aria2_args_exec(o));
    let ghost before_overwrite = strs(args@);
    push_overwrite_args(&mut args, o.skip_existing);
    assert(strs(args@) == before_overwrite + seq![overwrite_arg(o.skip_existing)]) by {
        assert(before_overwrite.push(overwrite_arg(o.skip_existing)) =~= before_overwrite + seq![
            overwrite_arg(o.skip_existing),
        ]);
    }
    append_args(&mut args, copy_strings(&o.filename_safety_args));
    append_args(&mut args, playlist_args_exec(o.download_playlist, o.playlist_limit));
    append_args(&mut args, audio_or_merge_args_exec(o));
    append_args(&mut args, embed_args_exec(o.embed_metadata, o.embed_thumbnail));
    append_args(&mut args, flag_with_value_exec("--sponsorblock-remove", &o.sponsorblock_remove));
    append_args(&mut args, flag_with_value_exec("--sponsorblock-mark", &o.sponsorblock_mark));
    append_args(&mut args, flag_with_value_exec("--download-sections", &o.download_sections));
    assert(strs(args@) == option_args(*o));
    push_facebook_title_replacement_args(&mut args, o.url.as_str(), option_value(&o.title));
    let ghost before_url = strs(args@);
    args.push(lit("--"));
    args.push(copy_string(&o.url));
    assert(strs(args@) =~= before_url + seq!["--"@, o.url@]);
    args
}

// ---------------------------------------------------------------------------
// What the output tells while the download runs
// ---------------------------------------------------------------------------

pub open spec fn quality_label(quality: Seq<char>) -> Option<Seq<char>> {
    if quality == "8k"@ {
        Some("8K"@)
    } else if quality == "4k"@ {
        Some("4K"@)
    } else if quality == "2k"@ {
        Some("2K"@)
    } else if quality == "1080"@ {
        Some("1080p"@)
    } else if quality == "720"@ {
        Some("720p"@)
    } else if quality == "480"@ {
        Some("480p"@)
    } else if quality == "360"@ {
        Some("360p"@)
    } else if quality == "audio"@ {
        Some("Audio"@)
    } else if quality == "best"@ {
        Some("Best"@)
    } else {
        None
    }
}

/// How a quality setting is shown in the history and the log.
pub fn quality_display(quality: &str) -> (r: Option<String>)
    ensures
        ostr(r) == quality_label(quality@),
{
    let q = chars_of(quality);
    let label = if is_lit(&q, "8k") {
        "8K"
    } else if is_lit(&q, "4k") {
        "4K"
    } else if is_lit(&q, "2k") {
        "2K"
    } else if is_lit(&q, "1080") {
        "1080p"
    } else if is_lit(&q, "720") {
        "720p"
    } else if is_lit(&q, "480") {
        "480p"
    } else if is_lit(&q, "360") {
        "360p"
    } else if is_lit(&q, "audio") {
        "Audio"
    } else if is_lit(&q, "best") {
        "Best"
    } else {
        return None;
    };
    Some(lit(label))
}

/// The title handed over by the interface, unless it is only the URL
/// (which starts with `http`).
pub open spec fn metadata_title_of(title: Option<Seq<char>>) -> Option<Seq<char>> {
    match title {
        Some(t) => if has_prefix(t, "http"@) {
            None
        } else {
            Some(t)
        },
        None => None,
    }
}

pub fn metadata_title(title: Option<String>) -> (r: Option<String>)
    ensures
        ostr(r) == metadata_title_of(ostr(title)),
{
    match title {
        Some(t) => if starts_with(&chars_of(t.as_str()), &chars_of("http")) {
            None
        } else {
            Some(t)
        },
        None => None,
    }
}

/// The file name in a `[download]` line that names the destination or an
/// already downloaded file (with `[ExtractAudio]` lines too when
/// `with_extract_audio`): what follows the last path separator, a
/// backslash when the line has one, else a slash.
pub open spec fn download_line_filename(line: Seq<char>, with_extract_audio: bool) -> Option<
    Seq<char>,
> {
    if contains(line, "[download]"@) && (contains(line, "Destination:"@) || contains(
        line,
        "has already been downloaded"@,
    ) || (with_extract_audio && contains(line, "[ExtractAudio]"@))) {
        let sep = if contains(line, seq!['\\']) {
            seq!['\\']
        } else {
            seq!['/']
        };
        match rfind(line, sep) {
            Some(i) => Some(line.subrange(i + 1, line.len() as int)),
            None => None,
        }
    } else {
        None
    }
}

/// The title after a line of output: taken from the file name of a
/// `[download]` line, else unchanged.
pub open spec fn title_after_line(current: Option<Seq<char>>, line: Seq<char>, with_extract_audio: bool) -> Option<
    Seq<char>,
> {
    match download_line_filename(line, with_extract_audio) {
        Some(f) => title_from_filename(current, f),
        None => current,
    }
}

/// The path after `Destination:` in an `[ExtractAudio]` line, trimmed,
/// when it is not empty.
pub open spec fn extract_audio_destination(line: Seq<char>) -> Option<Seq<char>> {
    if contains(line, "[ExtractAudio]"@) && contains(line, "Destination:"@) {
        match find(line, "Destination:"@) {
            Some(i) => {
                let p = trim(line.subrange(i + "Destination:"@.len(), line.len() as int));
                if p.len() > 0 {
                    Some(p)
                } else {
                    None
                }
            },
            None => None,
        }
    } else {
        None
    }
}

/// A line that is, once trimmed, the path of a media file and no bracketed
/// message (nor, when `strict`, a `Deleting`, `WARNING` or `ERROR` line).
pub open spec fn bare_media_path(line: Seq<char>, strict: bool) -> Option<Seq<char>> {
    let t = trim(line);
    if t.len() > 0 && t[0] != '[' && (!strict || !(has_prefix(t, "Deleting"@) || has_prefix(
        t,
        "WARNING"@,
    ) || has_prefix(t, "ERROR"@))) && is_media_path(t) {
        Some(t)
    } else {
        None
    }
}

pub open spec fn or_keep(found: Option<Seq<char>>, current: Option<Seq<char>>) -> Option<Seq<char>> {
    match found {
        Some(p) => Some(p),
        None => current,
    }
}

/// The final file path after a line on the standard output of the
/// process: a path announced by yt-dlp, then a bare media path, then the
/// destination of extracted audio, the last that applies winning.
pub open spec fn filepath_after_stdout_line(current: Option<Seq<char>>, line: Seq<char>) -> Option<
    Seq<char>,
> {
    or_keep(
        extract_audio_destination(line),
        or_keep(bare_media_path(line, false), or_keep(output_line_filepath(line), current)),
    )
}

/// The path caught on the error output of the process after a line: a
/// bare media path, then a path announced by yt-dlp, then the destination
/// of extracted audio, the last that applies winning.
pub open spec fn filepath_after_stderr_line(current: Option<Seq<char>>, line: Seq<char>) -> Option<
    Seq<char>,
> {
    or_keep(
        extract_audio_destination(line),
        or_keep(output_line_filepath(line), or_keep(bare_media_path(line, false), current)),
    )
}

/// The final file path after a line of the bundled binary's standard
/// output: a path announced by yt-dlp, then a bare media path that is no
/// log message.
pub open spec fn filepath_after_sidecar_line(current: Option<Seq<char>>, line: Seq<char>) -> Option<
    Seq<char>,
> {
    or_keep(bare_media_path(line, true), or_keep(output_line_filepath(line), current))
}

fn download_line_filename_exec(line: &[char], with_extract_audio: bool) -> (r: Option<Vec<char>>)
    ensures
        match r {
            Some(f) => download_line_filename(line@, with_extract_audio) == Some(f@),
            None => download_line_filename(line@, with_extract_audio) is None,
        },
{
    if !(contains_seq(line, &chars_of("[download]")) && (contains_seq(line, &chars_of("Destination:"))
        || contains_seq(line, &chars_of("has already been downloaded")) || (with_extract_audio
        && contains_seq(line, &chars_of("[ExtractAudio]"))))) {
        return None;
    }
    let mut back: Vec<char> = Vec::new();
    back.push('\\');
    let mut slash: Vec<char> = Vec::new();
    slash.push('/');
    let has_back = contains_seq(line, &back);
    assert(back@ =~= seq!['\\']);
    assert(slash@ =~= seq!['/']);
    let sep = if has_back {
        back
    } else {
        slash
    };
    match find_last(line, &sep) {
        Some(i) => {
            proof {
                crate::text::lemma_rfind_upto(line@, sep@, line@.len() - sep@.len());
            }
            assert(i + sep@.len() <= line@.len());
            assert(sep@.len() == 1);
            let len = line.len();
            Some(slice(line, i + 1, len))
        },
        None => None,
    }
}

fn extract_audio_destination_exec(line: &[char]) -> (r: Option<Vec<char>>)
    ensures
        match r {
            Some(p) => extract_audio_destination(line@) == Some(p@),
            None => extract_audio_destination(line@) is None,
        },
{
    let marker = chars_of("Destination:");
    if !(contains_seq(line, &chars_of("[ExtractAudio]")) && contains_seq(line, &marker)) {
        return None;
    }
    match find_first(line, &marker) {
        Some(i) => {
            proof {
                crate::text::lemma_find_from(line@, marker@, 0);
            }
            let n = marker.len();
            let len = line.len();
            assert(i + n <= len);
            let p = trim_ws(&slice(line, i + n, len));
            if p.len() > 0 {
                Some(p)
            } else {
                None
            }
        },
        None => None,
    }
}

fn bare_media_path_exec(line: &[char], strict: bool) -> (r: Option<Vec<char>>)
    ensures
        match r {
            Some(p) => bare_media_path(line@, strict) == Some(p@),
            None => bare_media_path(line@, strict) is None,
        },
{
    let t = trim_ws(line);
    if t.len() == 0 || t[0] == '[' {
        return None;
    }
    if strict && (starts_with(&t, &chars_of("Deleting")) || starts_with(&t, &chars_of("WARNING"))
        || starts_with(&t, &chars_of("ERROR"))) {
        return None;
    }
    let ts = string_of(&t);
    if is_media_filepath(ts.as_str()) {
        Some(t)
    } else {
        None
    }
}

fn path_found(found: Option<Vec<char>>) -> (r: Option<String>)
    ensures
        ostr(r) == match found {
            Some(v) => Some(v@),
            None => None::<Seq<char>>,
        },
{
    match found {
        Some(v) => Some(string_of(&v)),
        None => None,
    }
}

/// What the output of a running download has told so far.
pub struct DownloadOutputState {
    pub current_title: Option<String>,
    pub current_index: Option<u32>,
    pub total_count: Option<u32>,
    /// The sizes of the streams already done.
    pub total_filesize: u64,
    /// The size of the stream in progress.
    pub current_stream_size: Option<u64>,
    pub final_filepath: Option<String>,
    /// A path caught on the error output.
    pub stderr_filepath: Option<String>,
}

impl DownloadOutputState {
    /// The state before any output: the interface's title unless it is a
    /// URL, and nothing else known.
    pub fn new(title: Option<String>) -> (r: DownloadOutputState)
        ensures
            ostr(r.current_title) == metadata_title_of(ostr(title)),
            r.current_index is None && r.total_count is None,
            r.total_filesize == 0 && r.current_stream_size is None,
            r.final_filepath is None && r.stderr_filepath is None,
    {
        DownloadOutputState {
            current_title: metadata_title(title),
            current_index: None,
            total_count: None,
            total_filesize: 0,
            current_stream_size: None,
            final_filepath: None,
            stderr_filepath: None,
        }
    }

    /// Takes in a line of the process's standard output.
    pub fn observe_stdout_line(&mut self, line: &str)
        ensures
            ostr(final(self).current_title) == title_after_line(
                ostr(old(self).current_title),
                line@,
                false,
            ),
            ostr(final(self).final_filepath) == filepath_after_stdout_line(
                ostr(old(self).final_filepath),
                line@,
            ),
            final(self).stderr_filepath == old(self).stderr_filepath,
            final(self).current_index == old(self).current_index,
            final(self).total_count == old(self).total_count,
            final(self).total_filesize == old(self).total_filesize,
            final(self).current_stream_size == old(self).current_stream_size,
    {
        let l = chars_of(line);
        if let Some(f) = download_line_filename_exec(&l, false) {
            let title = self.current_title.take();
            self.current_title = title_from_download_filename(title, string_of(&f).as_str());
        }
        if let Some(p) = filepath_from_download_output(line) {
            self.final_filepath = Some(p);
        }
        if let Some(p) = path_found(bare_media_path_exec(&l, false)) {
            self.final_filepath = Some(p);
        }
        if let Some(p) = path_found(extract_audio_destination_exec(&l)) {
            self.final_filepath = Some(p);
        }
    }

    /// Takes in a line of the process's error output, where a path may be
    /// printed too.
    pub fn observe_stderr_line(&mut self, line: &str)
        ensures
            ostr(final(self).stderr_filepath) == filepath_after_stderr_line(
                ostr(old(self).stderr_filepath),
                line@,
            ),
            final(self).current_title == old(self).current_title,
            final(self).final_filepath == old(self).final_filepath,
            final(self).current_index == old(self).current_index,
            final(self).total_count == old(self).total_count,
            final(self).total_filesize == old(self).total_filesize,
            final(self).current_stream_size == old(self).current_stream_size,
    {
        let l = chars_of(line);
        if let Some(p) = path_found(bare_media_path_exec(&l, false)) {
            self.stderr_filepath = Some(p);
        }
        if let Some(p) = filepath_from_download_output(line) {
            self.stderr_filepath = Some(p);
        }
        if let Some(p) = path_found(extract_audio_destination_exec(&l)) {
            self.stderr_filepath = Some(p);
        }
    }

    /// Takes in a line of the bundled binary's standard output, which also
    /// announces the playlist item being downloaded.
    pub fn observe_sidecar_stdout_line(&mut self, line: &str)
        ensures
            (final(self).current_index, final(self).total_count) == (if contains(
                line@,
                "Downloading item"@,
            ) {
                playlist_position(
                    playlist_item_captures(line@),
                    old(self).current_index,
                    old(self).total_count,
                )
            } else {
                (old(self).current_index, old(self).total_count)
            }),
            ostr(final(self).current_title) == title_after_line(
                ostr(old(self).current_title),
                line@,
                true,
            ),
            ostr(final(self).final_filepath) == filepath_after_sidecar_line(
                ostr(old(self).final_filepath),
                line@,
            ),
            final(self).stderr_filepath == old(self).stderr_filepath,
            final(self).total_filesize == old(self).total_filesize,
            final(self).current_stream_size == old(self).current_stream_size,
    {
        let l = chars_of(line);
        if contains_seq(&l, &chars_of("Downloading item")) {
            let (index, count) = playlist_position_from_captures(
                capture_playlist_item(line),
                self.current_index,
                self.total_count,
            );
            self.current_index = index;
            self.total_count = count;
        }
        if let Some(f) = download_line_filename_exec(&l, true) {
            let title = self.current_title.take();
            self.current_title = title_from_download_filename(title, string_of(&f).as_str());
        }
        if let Some(p) = filepath_from_download_output(line) {
            self.final_filepath = Some(p);
        }
        if let Some(p) = path_found(bare_media_path_exec(&l, true)) {
            self.final_filepath = Some(p);
        }
    }

    /// Takes in a line of the bundled binary's error output (already
    /// trimmed): a path announced there becomes the final one.
    pub fn observe_sidecar_stderr_line(&mut self, line: &str)
        ensures
            ostr(final(self).final_filepath) == or_keep(
                output_line_filepath(line@),
                ostr(old(self).final_filepath),
            ),
            final(self).current_title == old(self).current_title,
            final(self).stderr_filepath == old(self).stderr_filepath,
            final(self).current_index == old(self).current_index,
            final(self).total_count == old(self).total_count,
            final(self).total_filesize == old(self).total_filesize,
            final(self).current_stream_size == old(self).current_stream_size,
    {
        if let Some(p) = filepath_from_download_output(line) {
            self.final_filepath = Some(p);
        }
    }

    /// Takes in the playlist position of a progress line: each part that
    /// the line gives replaces the known one.
    pub fn record_progress_position(&mut self, index: Option<u32>, count: Option<u32>)
        ensures
            final(self).current_index == (if index is Some {
                index
            } else {
                old(self).current_index
            }),
            final(self).total_count == (if count is Some {
                count
            } else {
                old(self).total_count
            }),
            final(self).current_title == old(self).current_title,
            final(self).final_filepath == old(self).final_filepath,
            final(self).stderr_filepath == old(self).stderr_filepath,
            final(self).total_filesize == old(self).total_filesize,
            final(self).current_stream_size == old(self).current_stream_size,
    {
        if index.is_some() {
            self.current_index = index;
        }
        if count.is_some() {
            self.total_count = count;
        }
    }

    /// Takes in the size of the stream a progress line reports: a new size
    /// starts a new stream, and the one before it counts as done.
    pub fn record_stream_size(&mut self, size: u64)
        requires
            old(self).total_filesize + stream_size_or_zero(old(self).current_stream_size) <= u64::MAX,
        ensures
            (final(self).total_filesize as int, final(self).current_stream_size) == stream_step(
                old(self).total_filesize as int,
                old(self).current_stream_size,
                size,
            ),
            final(self).current_title == old(self).current_title,
            final(self).final_filepath == old(self).final_filepath,
            final(self).stderr_filepath == old(self).stderr_filepath,
            final(self).current_index == old(self).current_index,
            final(self).total_count == old(self).total_count,
    {
        if self.current_stream_size != Some(size) {
            if let Some(previous) = self.current_stream_size {
                self.total_filesize = self.total_filesize + previous;
            }
            self.current_stream_size = Some(size);
        }
    }

    /// The size reported for a finished download: the size of its first
    /// file when it could be read, else the sizes of the streams seen.
    pub fn reported_filesize(&self, actual: Option<u64>) -> (r: Option<u64>)
        requires
            self.total_filesize + stream_size_or_zero(self.current_stream_size) <= u64::MAX,
        ensures
            match r {
                Some(v) => reported_size(
                    self.total_filesize as int,
                    self.current_stream_size,
                    actual,
                ) == Some(v as int),
                None => reported_size(
                    self.total_filesize as int,
                    self.current_stream_size,
                    actual,
                ) is None,
            },
    {
        match actual {
            Some(a) => Some(a),
            None => match self.current_stream_size {
                Some(last) => Some(self.total_filesize + last),
                None => if self.total_filesize > 0 {
                    Some(self.total_filesize)
                } else {
                    None
                },
            },
        }
    }

    /// Settles the final path once the process has exited: the first path
    /// yt-dlp printed to its file wins; without one, the path from the
    /// output stays, and without that, the one caught on the error output.
    pub fn settle_final_filepath(&mut self, printed_filepaths: &[String])
        ensures
            ostr(final(self).final_filepath) == settled_filepath(
                ostr(old(self).final_filepath),
                strs(printed_filepaths@),
                ostr(old(self).stderr_filepath),
            ),
            final(self).current_title == old(self).current_title,
            final(self).stderr_filepath == old(self).stderr_filepath,
            final(self).current_index == old(self).current_index,
            final(self).total_count == old(self).total_count,
            final(self).total_filesize == old(self).total_filesize,
            final(self).current_stream_size == old(self).current_stream_size,
    {
        if printed_filepaths.len() > 0 {
            self.final_filepath = Some(copy_string(&printed_filepaths[0]));
        }
        if self.final_filepath.is_none() {
            self.final_filepath = match &self.stderr_filepath {
                Some(p) => Some(copy_string(p)),
                None => None,
            };
        }
    }
}

// ---------------------------------------------------------------------------
// Stream sizes, playlist items and the final path
// ---------------------------------------------------------------------------

pub open spec fn stream_size_or_zero(size: Option<u64>) -> int {
    match size {
        Some(s) => s as int,
        None => 0,
    }
}

/// One reported stream size: a size other than the current one moves the
/// current size to the total and becomes current.
pub open spec fn stream_step(total: int, current: Option<u64>, size: u64) -> (int, Option<u64>) {
    if current == Some(size) {
        (total, current)
    } else {
        (total + stream_size_or_zero(current), Some(size))
    }
}

/// The total and current size after the reported sizes, in order.
pub open spec fn streams_seen(sizes: Seq<u64>) -> (int, Option<u64>)
    decreases sizes.len(),
{
    if sizes.len() == 0 {
        (0, None)
    } else {
        let (t, c) = streams_seen(sizes.drop_last());
        stream_step(t, c, sizes.last())
    }
}

/// The sum of the reported sizes where a size repeated on consecutive
/// reports counts once.
pub open spec fn distinct_run_total(sizes: Seq<u64>) -> int
    decreases sizes.len(),
{
    if sizes.len() == 0 {
        0
    } else if sizes.len() > 1 && sizes[sizes.len() - 2] == sizes.last() {
        distinct_run_total(sizes.drop_last())
    } else {
        distinct_run_total(sizes.drop_last()) + sizes.last()
    }
}

/// The size reported for a finished download.
pub open spec fn reported_size(total: int, current: Option<u64>, actual: Option<u64>) -> Option<int> {
    match actual {
        Some(a) => Some(a as int),
        None => match current {
            Some(last) => Some(total + last),
            None => if total > 0 {
                Some(total)
            } else {
                None
            },
        },
    }
}

/// A download whose streams reported their sizes is reported, when its
/// file cannot be read, as the sum of those sizes, each stream counted
/// once however many progress lines repeat its size; with no size
/// reported, no size is reported.
pub proof fn law_reported_size_counts_each_stream_once(sizes: Seq<u64>)
    ensures
        streams_seen(sizes).0 + stream_size_or_zero(streams_seen(sizes).1) == distinct_run_total(
            sizes,
        ),
        reported_size(streams_seen(sizes).0, streams_seen(sizes).1, None) == (if sizes.len() == 0 {
            None
        } else {
            Some(distinct_run_total(sizes))
        }),
{
    lemma_streams_seen(sizes);
}

proof fn lemma_streams_seen(sizes: Seq<u64>)
    ensures
        streams_seen(sizes).0 + stream_size_or_zero(streams_seen(sizes).1) == distinct_run_total(
            sizes,
        ),
        sizes.len() == 0 ==> streams_seen(sizes) == (0int, None::<u64>),
        sizes.len() > 0 ==> streams_seen(sizes).1 == Some(sizes.last()),
        streams_seen(sizes).0 >= 0,
    decreases sizes.len(),
{
    if sizes.len() > 0 {
        let rest = sizes.drop_last();
        lemma_streams_seen(rest);
        if rest.len() > 0 {
            assert(rest.last() == sizes[sizes.len() - 2]);
        }
    }
}

/// A line announcing the item of a playlist being downloaded, and how many
/// items there are.
pub const PLAYLIST_ITEM_PATTERN: &'static str = r"Downloading item (\d+) of (\d+)";

/// The item number and the item count that the playlist item pattern
/// captures in a line; nothing when it does not match.
pub open spec fn playlist_item_captures(line: Seq<char>) -> Option<(Seq<char>, Seq<char>)> {
    match regex_captures_of(PLAYLIST_ITEM_PATTERN@, line) {
        Some(g) => match (group_at(g, 1), group_at(g, 2)) {
            (Some(i), Some(n)) => Some((i, n)),
            _ => None,
        },
        None => None,
    }
}

pub(crate) fn capture_playlist_item(line: &str) -> (r: Option<(String, String)>)
    ensures
        match r {
            Some(c) => playlist_item_captures(line@) == Some((c.0@, c.1@)),
            None => playlist_item_captures(line@) is None,
        },
{
    let groups = match regex_captures(PLAYLIST_ITEM_PATTERN, line) {
        Some(g) => g,
        None => return None,
    };
    match (group_text(&groups, 1), group_text(&groups, 2)) {
        (Some(i), Some(n)) => Some((i, n)),
        _ => None,
    }
}

pub open spec fn parsed_u32(s: Seq<char>) -> Option<u32> {
    match parse_uint(s, u32::MAX as nat) {
        Some(v) => Some(v as u32),
        None => None,
    }
}

/// The playlist position after the captures of an item line: both parts
/// parsed (a part that does not fit becomes unknown); unchanged without a
/// match.
pub open spec fn playlist_position(
    captures: Option<(Seq<char>, Seq<char>)>,
    index: Option<u32>,
    count: Option<u32>,
) -> (Option<u32>, Option<u32>) {
    match captures {
        Some((i, c)) => (parsed_u32(i), parsed_u32(c)),
        None => (index, count),
    }
}

fn parse_u32(s: &String) -> (r: Option<u32>)
    ensures
        r == parsed_u32(s@),
{
    match parse_bounded(&chars_of(s.as_str()), u32::MAX as u64) {
        Some(v) => Some(v as u32),
        None => None,
    }
}

pub fn playlist_position_from_captures(
    captures: Option<(String, String)>,
    index: Option<u32>,
    count: Option<u32>,
) -> (r: (Option<u32>, Option<u32>))
    ensures
        r == playlist_position(
            match captures {
                Some(c) => Some((c.0@, c.1@)),
                None => None,
            },
            index,
            count,
        ),
{
    match captures {
        Some(c) => (parse_u32(&c.0), parse_u32(&c.1)),
        None => (index, count),
    }
}

/// The final path once the process has exited.
pub open spec fn settled_filepath(
    current: Option<Seq<char>>,
    printed: Seq<Seq<char>>,
    from_stderr: Option<Seq<char>>,
) -> Option<Seq<char>> {
    let f = if printed.len() > 0 {
        Some(printed[0])
    } else {
        current
    };
    if f is None {
        from_stderr
    } else {
        f
    }
}

// ---------------------------------------------------------------------------
// Checking the live status before a download
// ---------------------------------------------------------------------------

/// The command line that asks yt-dlp for a video's live status (missing
/// values print as `not_live`), with the Deno runtime for YouTube and the
/// site, cookie and proxy arguments before the URL.
pub open spec fn live_status_args(url: Seq<char>, deno_path: Option<Seq<char>>, extra: Seq<Seq<char>>) -> Seq<
    Seq<char>,
> {
    seq![
        "--print"@,
        "live_status"@,
        "--output-na-placeholder"@,
        "not_live"@,
        "--no-warnings"@,
        "--no-playlist"@,
        "--socket-timeout"@,
        "15"@,
    ] + (if is_youtube(url) {
        match deno_path {
            Some(p) => seq!["--js-runtimes"@, "deno:"@ + p],
            None => Seq::empty(),
        }
    } else {
        Seq::empty()
    }) + extra + seq!["--"@, url]
}

pub fn build_live_status_args(url: &str, deno_path: Option<&str>, extra_args: Vec<String>) -> (r: Vec<
    String,
>)
    ensures
        strs(r@) == live_status_args(url@, crate::text::opt_view(deno_path), strs(extra_args@)),
{
    let mut args: Vec<String> = Vec::new();
    args.push(lit("--print"));
    args.push(lit("live_status"));
    args.push(lit("--output-na-placeholder"));
    args.push(lit("not_live"));
    args.push(lit("--no-warnings"));
    args.push(lit("--no-playlist"));
    args.push(lit("--socket-timeout"));
    args.push(lit("15"));
    if crate::download::is_youtube_url(url) {
        if let Some(p) = deno_path {
            args.push(lit("--js-runtimes"));
            let mut c = chars_of("deno:");
            push_str(&mut c, p);
            args.push(string_of(&c));
        }
    }
    let ghost head = strs(args@);
    assert(head =~= seq![
        "--print"@,
        "live_status"@,
        "--output-na-placeholder"@,
        "not_live"@,
        "--no-warnings"@,
        "--no-playlist"@,
        "--socket-timeout"@,
        "15"@,
    ] + (if is_youtube(url@) {
        match crate::text::opt_view(deno_path) {
            Some(p) => seq!["--js-runtimes"@, "deno:"@ + p],
            None => Seq::empty(),
        }
    } else {
        Seq::empty()
    }));
    append_args(&mut args, extra_args);
    let ghost before_url = strs(args@);
    args.push(lit("--"));
    args.push(lit(url));
    assert(strs(args@) =~= before_url + seq!["--"@, url@]);
    args
}

/// The live status yt-dlp reported: on failure, an upcoming live when the
/// error says so, else an error quoting the trimmed error output; on
/// success, the trimmed last line of the output unless it is empty or
/// `not_live`.
pub open spec fn live_status_result(success: bool, stdout: Seq<char>, stderr: Seq<char>, upcoming: bool) -> Result<
    Option<Seq<char>>,
    Seq<char>,
> {
    if !success {
        if upcoming {
            Ok(Some("is_upcoming"@))
        } else if trim(stderr).len() == 0 {
            Err("Failed to check live status before download."@)
        } else {
            Err("Failed to check live status before download: "@ + trim(stderr))
        }
    } else {
        let ls = crate::text::lines(stdout);
        let status = if ls.len() > 0 {
            trim(ls.last())
        } else {
            Seq::empty()
        };
        if status.len() == 0 || status == "not_live"@ {
            Ok(None)
        } else {
            Ok(Some(status))
        }
    }
}

/// Interprets the live-status check; `upcoming` tells whether the trimmed
/// error output announces a live that has not started.
pub fn live_status_from_output(success: bool, stdout: &str, stderr: &str, upcoming: bool) -> (r: Result<
    Option<String>,
    String,
>)
    ensures
        match r {
            Ok(s) => live_status_result(success, stdout@, stderr@, upcoming) == Ok::<
                Option<Seq<char>>,
                Seq<char>,
            >(ostr(s)),
            Err(m) => live_status_result(success, stdout@, stderr@, upcoming) == Err::<
                Option<Seq<char>>,
                Seq<char>,
            >(m@),
        },
{
    if !success {
        if upcoming {
            return Ok(Some(lit("is_upcoming")));
        }
        let message = trim_ws(&chars_of(stderr));
        if message.len() == 0 {
            return Err(lit("Failed to check live status before download."));
        }
        let mut m = chars_of("Failed to check live status before download: ");
        crate::text::extend(&mut m, &message);
        return Err(string_of(&m));
    }
    let ls = crate::text::lines_of(&chars_of(stdout));
    let status = if ls.len() > 0 {
        trim_ws(&ls[ls.len() - 1])
    } else {
        Vec::new()
    };
    if status.len() == 0 || is_lit(&status, "not_live") {
        Ok(None)
    } else {
        Ok(Some(string_of(&status)))
    }
}

// ---------------------------------------------------------------------------
// Metadata recovered for a reel in the core fallback
// ---------------------------------------------------------------------------

/// A member that is text, trimmed, when not blank.
pub open spec fn json_string_field(v: JsonValue, key: Seq<char>) -> Option<Seq<char>> {
    match as_text(get(v, key)) {
        Some(t) => if trim(t).len() > 0 {
            Some(trim(t))
        } else {
            None
        },
        None => None,
    }
}

/// The `url` of the last item that has one.
pub open spec fn last_item_url(items: Seq<JsonValue>) -> Option<Seq<char>>
    decreases items.len(),
{
    if items.len() == 0 {
        None
    } else {
        match json_string_field(items.last(), "url"@) {
            Some(u) => Some(u),
            None => last_item_url(items.drop_last()),
        }
    }
}

/// The thumbnail of a video's info: its `thumbnail`, else the last of its
/// `thumbnails` that has a URL.
pub open spec fn info_thumbnail(v: JsonValue) -> Option<Seq<char>> {
    match json_string_field(v, "thumbnail"@) {
        Some(t) => Some(t),
        None => match get(v, "thumbnails"@) {
            Some(JsonValue::Array(items)) => last_item_url(items@),
            _ => None,
        },
    }
}

/// `http://` turned into `https://` at the start of a URL.
pub open spec fn over_https(u: Seq<char>) -> Seq<char> {
    if has_prefix(u, "http://"@) {
        "https://"@ + u.subrange("http://"@.len() as int, u.len() as int)
    } else {
        u
    }
}

/// What a reel's info gives: its title unless it is a placeholder, and its
/// thumbnail over HTTPS.
pub open spec fn info_metadata(v: JsonValue) -> (Option<Seq<char>>, Option<Seq<char>>) {
    (
        match json_string_field(v, "title"@) {
            Some(t) => if crate::download::is_placeholder_title(t) {
                None
            } else {
                Some(t)
            },
            None => None,
        },
        match info_thumbnail(v) {
            Some(u) => Some(over_https(u)),
            None => None,
        },
    )
}

/// The title and thumbnail recovered for a reel.
#[derive(Clone, Debug, Default)]
pub struct CoreFallbackMetadata {
    pub title: Option<String>,
    pub thumbnail: Option<String>,
}

fn json_string_field_of(v: &JsonValue, key: &str) -> (r: Option<String>)
    ensures
        ostr(r) == json_string_field(*v, key@),
{
    let t = json_text(json_get(v, key))?;
    let t = trim_ws(&chars_of(t));
    if t.len() > 0 {
        Some(string_of(&t))
    } else {
        None
    }
}

fn thumbnail_from_info_json(v: &JsonValue) -> (r: Option<String>)
    ensures
        ostr(r) == info_thumbnail(*v),
{
    if let Some(t) = json_string_field_of(v, "thumbnail") {
        return Some(t);
    }
    match json_get(v, "thumbnails") {
        Some(JsonValue::Array(items)) => {
            let mut k: usize = items.len();
            assert(items@.take(items@.len() as int) =~= items@);
            let ghost expected = info_thumbnail(*v);
            assert(expected == last_item_url(items@));
            while k > 0
                invariant
                    k <= items.len(),
                    expected == info_thumbnail(*v),
                    expected == last_item_url(items@.take(k as int)),
                decreases k,
            {
                assert(items@.take(k as int).drop_last() =~= items@.take(k - 1));
                assert(items@.take(k as int).last() == items@[k - 1]);
                if let Some(u) = json_string_field_of(&items[k - 1], "url") {
                    return Some(u);
                }
                k -= 1;
            }
            None
        },
        _ => None,
    }
}

/// The metadata of a reel's info (`metadata_from_info_json`).
pub fn metadata_from_info_json(info: &JsonValue) -> (r: CoreFallbackMetadata)
    ensures
        (ostr(r.title), ostr(r.thumbnail)) == info_metadata(*info),
{
    let title = match json_string_field_of(info, "title") {
        Some(t) => if crate::download::is_placeholder_facebook_title(t.as_str()) {
            None
        } else {
            Some(t)
        },
        None => None,
    };
    let thumbnail = match thumbnail_from_info_json(info) {
        Some(u) => {
            let c = chars_of(u.as_str());
            match crate::text::strip_prefix(&c, &chars_of("http://")) {
                Some(rest) => {
                    let mut v = chars_of("https://");
                    crate::text::extend(&mut v, &rest);
                    Some(string_of(&v))
                },
                None => Some(u),
            }
        },
        None => None,
    };
    CoreFallbackMetadata { title, thumbnail }
}

/// The metadata recovered from a probe's info, when it has a title or a
/// thumbnail.
pub fn recovered_metadata(info: &JsonValue) -> (r: Option<CoreFallbackMetadata>)
    ensures
        match r {
            Some(m) => (ostr(m.title), ostr(m.thumbnail)) == info_metadata(*info) && (m.title is Some
                || m.thumbnail is Some),
            None => info_metadata(*info).0 is None && info_metadata(*info).1 is None,
        },
{
    let m = metadata_from_info_json(info);
    if m.title.is_some() || m.thumbnail.is_some() {
        Some(m)
    } else {
        None
    }
}

/// The yt-dlp command line that reads a reel's info without downloading.
pub fn core_metadata_probe_args(url: &str) -> (r: Vec<String>)
    ensures
        strs(r@) == seq![
            "--dump-single-json"@,
            "--skip-download"@,
            "--no-warnings"@,
            "--no-playlist"@,
            "--socket-timeout"@,
            "15"@,
            "--impersonate"@,
            "chrome"@,
            "--"@,
            url@,
        ],
{
    let mut r: Vec<String> = Vec::new();
    r.push(lit("--dump-single-json"));
    r.push(lit("--skip-download"));
    r.push(lit("--no-warnings"));
    r.push(lit("--no-playlist"));
    r.push(lit("--socket-timeout"));
    r.push(lit("15"));
    r.push(lit("--impersonate"));
    r.push(lit("chrome"));
    r.push(lit("--"));
    r.push(lit(url));
    assert(strs(r@) =~= seq![
        "--dump-single-json"@,
        "--skip-download"@,
        "--no-warnings"@,
        "--no-playlist"@,
        "--socket-timeout"@,
        "15"@,
        "--impersonate"@,
        "chrome"@,
        "--"@,
        url@,
    ]);
    r
}

// ---------------------------------------------------------------------------
// The history entries of a finished download
// ---------------------------------------------------------------------------

/// What a finished download writes to the history for one of its files.
#[derive(Clone, Debug)]
pub struct HistoryWrite {
    /// The entry to update: the one the download was queued under, for its
    /// first file. A new entry is added when there is none.
    pub update_id: Option<String>,
    pub filepath: String,
    pub filesize: Option<u64>,
    /// The title of a new entry.
    pub title: String,
    /// The title an updated entry is given.
    pub update_title: Option<String>,
    pub thumbnail: Option<String>,
    pub source: Option<String>,
    pub quality: Option<String>,
    pub format: String,
    pub time_range: Option<String>,
}

pub open spec fn or_unknown(t: Option<Seq<char>>) -> Seq<char> {
    match t {
        Some(v) => v,
        None => "Unknown"@,
    }
}

/// The title of the history entry for the file at `index`: the display
/// title for the first file, else the file's own name (then the display
/// title); `Unknown` when there is none.
pub open spec fn entry_title(index: int, file_title: Option<Seq<char>>, display_title: Option<Seq<char>>) -> Seq<
    char,
> {
    if index == 0 {
        or_unknown(display_title)
    } else {
        or_unknown(
            match file_title {
                Some(t) => Some(t),
                None => display_title,
            },
        )
    }
}

fn or_unknown_exec(t: Option<String>) -> (r: String)
    ensures
        r@ == or_unknown(ostr(t)),
{
    match t {
        Some(v) => v,
        None => lit("Unknown"),
    }
}

fn copy_opt(o: &Option<String>) -> (r: Option<String>)
    ensures
        ostr(r) == ostr(*o),
{
    match o {
        Some(v) => Some(copy_string(v)),
        None => None,
    }
}

/// The history writes of a finished download, one per output file in
/// order. The first file updates the entry the download was queued under
/// when there is one; every other file adds an entry, titled by
/// `entry_title`, with the thumbnail given or else the one the URL implies,
/// and the effective source. A file's size is the size read from disk, or
/// for the first file the size the download reported.
pub fn plan_history_writes(
    output_paths: &[String],
    file_sizes: &[Option<u64>],
    file_titles: &[Option<String>],
    history_id: Option<&str>,
    url: &str,
    display_title: &Option<String>,
    thumbnail: &Option<String>,
    source: &Option<String>,
    quality_display: &Option<String>,
    format: &str,
    reported_filesize: Option<u64>,
    download_sections: &Option<String>,
) -> (r: Vec<HistoryWrite>)
    requires
        file_sizes.len() == output_paths.len(),
        file_titles.len() == output_paths.len(),
    ensures
        r.len() == output_paths.len(),
        forall|i: int| #![trigger r@[i]] 0 <= i < r.len() ==> {
            let w = r@[i];
            &&& w.filepath@ == output_paths@[i]@
            &&& w.filesize == (if file_sizes@[i] is Some || i > 0 {
                file_sizes@[i]
            } else {
                reported_filesize
            })
            &&& ostr(w.update_id) == (if i == 0 {
                crate::text::opt_view(history_id)
            } else {
                None
            })
            &&& w.title@ == entry_title(i, ostr(file_titles@[i]), ostr(*display_title))
            &&& ostr(w.update_title) == ostr(*display_title)
            &&& ostr(w.thumbnail) == (if w.update_id is Some {
                ostr(*thumbnail)
            } else {
                match ostr(*thumbnail) {
                    Some(t) => Some(t),
                    None => crate::download::thumbnail_url(url@),
                }
            })
            &&& ostr(w.source) == Some(crate::download::effective(ostr(*source), url@))
            &&& ostr(w.quality) == ostr(*quality_display)
            &&& w.format@ == format@
            &&& ostr(w.time_range) == crate::download::time_range(ostr(*download_sections))
        },
{
    let mut r: Vec<HistoryWrite> = Vec::new();
    let mut i: usize = 0;
    while i < output_paths.len()
        invariant
            i <= output_paths.len(),
            file_sizes.len() == output_paths.len(),
            file_titles.len() == output_paths.len(),
            r.len() == i,
            forall|k: int| #![trigger r@[k]] 0 <= k < i ==> {
                let w = r@[k];
                &&& w.filepath@ == output_paths@[k]@
                &&& w.filesize == (if file_sizes@[k] is Some || k > 0 {
                    file_sizes@[k]
                } else {
                    reported_filesize
                })
                &&& ostr(w.update_id) == (if k == 0 {
                    crate::text::opt_view(history_id)
                } else {
                    None
                })
                &&& w.title@ == entry_title(k, ostr(file_titles@[k]), ostr(*display_title))
                &&& ostr(w.update_title) == ostr(*display_title)
                &&& ostr(w.thumbnail) == (if w.update_id is Some {
                    ostr(*thumbnail)
                } else {
                    match ostr(*thumbnail) {
                        Some(t) => Some(t),
                        None => crate::download::thumbnail_url(url@),
                    }
                })
                &&& ostr(w.source) == Some(crate::download::effective(ostr(*source), url@))
                &&& ostr(w.quality) == ostr(*quality_display)
                &&& w.format@ == format@
                &&& ostr(w.time_range) == crate::download::time_range(ostr(*download_sections))
            },
        decreases output_paths.len() - i,
    {
        let filesize = match file_sizes[i] {
            Some(n) => Some(n),
            None => if i == 0 {
                reported_filesize
            } else {
                None
            },
        };
        let update_id = if i == 0 {
            match history_id {
                Some(h) => Some(lit(h)),
                None => None,
            }
        } else {
            None
        };
        let title = if i == 0 {
            or_unknown_exec(copy_opt(display_title))
        } else {
            or_unknown_exec(
                match &file_titles[i] {
                    Some(t) => Some(copy_string(t)),
                    None => copy_opt(display_title),
                },
            )
        };
        let entry_thumbnail = if update_id.is_some() {
            copy_opt(thumbnail)
        } else {
            match thumbnail {
                Some(t) => Some(copy_string(t)),
                None => crate::download::generate_thumbnail_url(url),
            }
        };
        let w = HistoryWrite {
            update_id,
            filepath: copy_string(&output_paths[i]),
            filesize,
            title,
            update_title: copy_opt(display_title),
            thumbnail: entry_thumbnail,
            source: crate::download::effective_source(source, url),
            quality: copy_opt(quality_display),
            format: lit(format),
            time_range: crate::download::extract_time_range(download_sections),
        };
        r.push(w);
        i += 1;
    }
    r
}

/// The thumbnail of a finished download when no generated one is used: the
/// one given unless blank, else the one the URL implies. A blank one for a
/// reel with a file on disk is replaced by a frame of the video instead,
/// which `wants_generated_thumbnail` tells.
pub fn wants_generated_thumbnail(thumbnail: &Option<String>, url: &str, has_file: bool) -> (r: bool)
    ensures
        r == (!(ostr(*thumbnail) matches Some(t) && trim(t).len() > 0)
            && crate::download::is_reel_url(url@) && has_file),
{
    let blank = match thumbnail {
        Some(t) => trim_ws(&chars_of(t.as_str())).len() == 0,
        None => true,
    };
    blank && crate::download::is_facebook_reel_url(url) && has_file
}

/// The thumbnail of a finished download without a generated one.
pub fn completed_thumbnail(thumbnail: Option<String>, url: &str) -> (r: Option<String>)
    ensures
        ostr(r) == (if ostr(thumbnail) matches Some(t) && trim(t).len() > 0 {
            ostr(thumbnail)
        } else {
            crate::download::thumbnail_url(url@)
        }),
{
    if let Some(t) = &thumbnail {
        if trim_ws(&chars_of(t.as_str())).len() > 0 {
            return thumbnail;
        }
    }
    crate::download::generate_thumbnail_url(url)
}

} // verus!

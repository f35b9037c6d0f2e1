//! The stream addresses that a live room's information lists in its older
//! form, as formats to record.
use vstd::prelude::*;

use crate::json::{as_text, get, get_opt, json_get, json_get_opt, json_text, JsonValue};
use crate::text::{
    chars_of, extend, find_at, find_first, find_from, find_last, lower, lower_vec, ostr, push_str,
    rfind, slice, string_of, trim, trim_ws,
};

verus! {

/// A stream address of a room with what is known of it: its format id,
/// protocol, container and quality. Nothing else is known of such streams;
/// their note is `legacy`.
#[derive(Clone, Debug)]
pub struct LegacyStreamFormat {
    pub format_id: String,
    pub ext: Option<String>,
    pub protocol: String,
    pub quality: Option<String>,
    pub url: String,
}

impl View for LegacyStreamFormat {
    type V = (Seq<char>, Option<Seq<char>>, Seq<char>, Option<Seq<char>>, Seq<char>);

    open spec fn view(&self) -> Self::V {
        (self.format_id@, ostr(self.ext), self.protocol@, ostr(self.quality), self.url@)
    }
}

/// Text that is not blank.
pub open spec fn non_blank(t: Option<Seq<char>>) -> Option<Seq<char>> {
    match t {
        Some(s) => if trim(s).len() > 0 {
            Some(s)
        } else {
            None
        },
        None => None,
    }
}

/// The `stream_url` object of the room's `data`.
pub open spec fn stream_url_of(json: JsonValue) -> Option<JsonValue> {
    get_opt(get(json, "data"@), "stream_url"@)
}

/// The FLV address of a quality, when the room lists one.
pub open spec fn flv_format(json: JsonValue, quality: Seq<char>) -> Seq<
    (Seq<char>, Option<Seq<char>>, Seq<char>, Option<Seq<char>>, Seq<char>),
> {
    match non_blank(as_text(get_opt(get_opt(stream_url_of(json), "flv_pull_url"@), quality))) {
        Some(url) => seq![("legacy-"@ + quality, Some("flv"@), "flv"@, Some(lower(quality)), url)],
        None => seq![],
    }
}

/// The FLV addresses of the qualities `FULL_HD1`, `HD1`, `SD2` and `SD1`,
/// in this order; without any, the RTMP address when there is one.
pub open spec fn legacy_formats(json: JsonValue) -> Seq<
    (Seq<char>, Option<Seq<char>>, Seq<char>, Option<Seq<char>>, Seq<char>),
> {
    let flv = flv_format(json, "FULL_HD1"@) + flv_format(json, "HD1"@) + flv_format(json, "SD2"@)
        + flv_format(json, "SD1"@);
    if flv.len() > 0 {
        flv
    } else {
        match non_blank(as_text(get_opt(stream_url_of(json), "rtmp_pull_url"@))) {
            Some(url) => seq![("legacy-rtmp"@, None, "rtmp"@, None, url)],
            None => seq![],
        }
    }
}

fn non_blank_text(t: Option<&str>) -> (r: Option<String>)
    ensures
        ostr(r) == non_blank(crate::text::opt_view(t)),
{
    match t {
        Some(s) => if trim_ws(&chars_of(s)).len() > 0 {
            Some(string_of(&chars_of(s)))
        } else {
            None
        },
        None => None,
    }
}

fn push_flv_format(formats: &mut Vec<LegacyStreamFormat>, json: &JsonValue, quality: &str)
    ensures
        final(formats)@.map_values(|f: LegacyStreamFormat| f@) == old(formats)@.map_values(
            |f: LegacyStreamFormat| f@,
        ) + flv_format(*json, quality@),
{
    let stream_url = json_get_opt(json_get(json, "data"), "stream_url");
    let url = non_blank_text(json_text(json_get_opt(json_get_opt(stream_url, "flv_pull_url"), quality)));
    let ghost before = formats@.map_values(|f: LegacyStreamFormat| f@);
    if let Some(url) = url {
        let mut id = chars_of("legacy-");
        extend(&mut id, &chars_of(quality));
        formats.push(LegacyStreamFormat {
            format_id: string_of(&id),
            ext: Some(string_of(&chars_of("flv"))),
            protocol: string_of(&chars_of("flv")),
            quality: Some(string_of(&lower_vec(&chars_of(quality)))),
            url,
        });
        assert(formats@.map_values(|f: LegacyStreamFormat| f@) =~= before + flv_format(*json, quality@));
    } else {
        assert(formats@.map_values(|f: LegacyStreamFormat| f@) =~= before + flv_format(*json, quality@));
    }
}

/// The formats a room's information lists in its older form.
pub fn formats_from_legacy_room_stream_urls(json: &JsonValue) -> (r: Vec<LegacyStreamFormat>)
    ensures
        r@.map_values(|f: LegacyStreamFormat| f@) == legacy_formats(*json),
{
    let mut formats: Vec<LegacyStreamFormat> = Vec::new();
    assert(formats@.map_values(|f: LegacyStreamFormat| f@) =~= seq![]);
    push_flv_format(&mut formats, json, "FULL_HD1");
    push_flv_format(&mut formats, json, "HD1");
    push_flv_format(&mut formats, json, "SD2");
    push_flv_format(&mut formats, json, "SD1");
    if formats.len() == 0 {
        let stream_url = json_get_opt(json_get(json, "data"), "stream_url");
        if let Some(url) = non_blank_text(json_text(json_get_opt(stream_url, "rtmp_pull_url"))) {
            formats.push(LegacyStreamFormat {
                format_id: string_of(&chars_of("legacy-rtmp")),
                ext: None,
                protocol: string_of(&chars_of("rtmp")),
                quality: None,
                url,
            });
            assert(formats@.map_values(|f: LegacyStreamFormat| f@) =~= legacy_formats(*json));
        }
    }
    formats
}


// ---------------------------------------------------------------------------
// Data embedded in a live page
// ---------------------------------------------------------------------------

/// Where the element with `id="<script_id>"` (or the same in single
/// quotes) starts being named in a page.
pub open spec fn script_id_position(html: Seq<char>, script_id: Seq<char>) -> Option<int> {
    match crate::text::find(html, "id=\""@ + script_id + "\""@) {
        Some(p) => Some(p),
        None => crate::text::find(html, "id='"@ + script_id + "'"@),
    }
}

/// The trimmed text inside the script element that a page names by
/// `script_id`: from the `>` after the id to the next `</script>`, when a
/// `<script` opens before the id.
pub open spec fn script_body(html: Seq<char>, script_id: Seq<char>) -> Option<Seq<char>> {
    match script_id_position(html, script_id) {
        None => None,
        Some(p) => if rfind(html.take(p), "<script"@) is None {
            None
        } else {
            match find_from(html, ">"@, p) {
                None => None,
                Some(g) => match find_from(html, "</script>"@, g + 1) {
                    None => None,
                    Some(e) => Some(trim(html.subrange(g + 1, e))),
                },
            }
        },
    }
}

/// The text of the script element that a page names by `script_id`.
pub fn script_body_from_html(html: &str, script_id: &str) -> (r: Option<String>)
    ensures
        ostr(r) == script_body(html@, script_id@),
{
    let h = chars_of(html);
    let mut quoted = chars_of("id=\"");
    push_str(&mut quoted, script_id);
    push_str(&mut quoted, "\"");
    let mut single_quoted = chars_of("id='");
    push_str(&mut single_quoted, script_id);
    push_str(&mut single_quoted, "'");
    let p = match find_first(&h, &quoted) {
        Some(p) => p,
        None => match find_first(&h, &single_quoted) {
            Some(p) => p,
            None => return None,
        },
    };
    proof {
        crate::text::lemma_find_from(h@, quoted@, 0);
        crate::text::lemma_find_from(h@, single_quoted@, 0);
    }
    if find_last(&slice(&h, 0, p), &chars_of("<script")).is_none() {
        return None;
    }
    let g = match find_at(&h, &chars_of(">"), p) {
        Some(g) => g,
        None => return None,
    };
    proof {
        reveal_strlit(">");
        crate::text::lemma_find_from(h@, ">"@, p as int);
    }
    let content_start = if g < h.len() {
        g + 1
    } else {
        return None;
    };
    let e = match find_at(&h, &chars_of("</script>"), content_start) {
        Some(e) => e,
        None => return None,
    };
    proof {
        crate::text::lemma_find_from(h@, "</script>"@, content_start as int);
    }
    Some(string_of(&trim_ws(&slice(&h, content_start, e))))
}


// ---------------------------------------------------------------------------
// Resolutions
// ---------------------------------------------------------------------------

pub open spec fn parsed_dimension(s: Seq<char>) -> Option<u32> {
    match crate::text::parse_uint(trim(s), u32::MAX as nat) {
        Some(v) => Some(v as u32),
        None => None,
    }
}

/// The width and height a resolution such as `1080x1920` names; each is
/// unknown where it does not parse, and both are when there are more than
/// two parts.
pub open spec fn resolution_size(resolution: Seq<char>) -> (Option<u32>, Option<u32>) {
    let parts = crate::text::split(resolution, "x"@);
    if parts.len() > 2 {
        (None, None)
    } else {
        (
            parsed_dimension(parts[0]),
            if parts.len() > 1 {
                parsed_dimension(parts[1])
            } else {
                None
            },
        )
    }
}

fn parse_dimension(s: &Vec<char>) -> (r: Option<u32>)
    ensures
        r == parsed_dimension(s@),
{
    match crate::text::parse_bounded(&trim_ws(s), u32::MAX as u64) {
        Some(v) => Some(v as u32),
        None => None,
    }
}

/// The width and height of a resolution such as `1080x1920`.
pub fn parse_resolution(resolution: &str) -> (r: (Option<u32>, Option<u32>))
    ensures
        r == resolution_size(resolution@),
{
    proof {
        reveal_strlit("x");
        crate::text::lemma_split_nonempty(resolution@, "x"@);
    }
    let parts = crate::text::split_all(&chars_of(resolution), &chars_of("x"));
    assert(parts@.len() == crate::text::vviews(parts@).len());
    if parts.len() > 2 {
        return (None, None);
    }
    assert(parts@[0]@ == crate::text::vviews(parts@)[0]);
    let width = parse_dimension(&parts[0]);
    let height = if parts.len() > 1 {
        assert(parts@[1]@ == crate::text::vviews(parts@)[1]);
        parse_dimension(&parts[1])
    } else {
        None
    };
    (width, height)
}

} // verus!

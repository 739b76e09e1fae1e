//! Text pieces of the printed point report: obstacle and comment lists,
//! image file names, font checks and embedded-image data URIs.

use vstd::prelude::*;
use vstd::string::StrSliceExecFns;
use crate::qr::base64_of;
use crate::text::{occurs_at, chars_eq, chars_of, decimal, push_chars, push_decimal, push_signed, push_str, signed_decimal, string_of};

verus! {

/// The view of an optional text.
pub open spec fn opt_view(o: Option<String>) -> Option<Seq<char>> {
    match o {
        Some(s) => Some(s@),
        None => None,
    }
}

/// `<name> (x<number>)`, with `N/A` and `0` standing in for what is missing.
pub open spec fn obstacle_text(name: Option<Seq<char>>, number: Option<i32>) -> Seq<char> {
    (match name {
        Some(n) => n,
        None => "N/A"@,
    }) + " (x"@ + signed_decimal(
        match number {
            Some(k) => k as int,
            None => 0,
        },
    ) + ")"@
}

/// The items joined with `", "`.
pub open spec fn joined(items: Seq<Seq<char>>) -> Seq<char>
    decreases items.len(),
{
    if items.len() == 0 {
        Seq::empty()
    } else if items.len() == 1 {
        items[0]
    } else {
        joined(items.drop_last()) + ", "@ + items.last()
    }
}

/// `None` for an empty list, the items joined with `", "` otherwise.
pub open spec fn list_text(items: Seq<Seq<char>>) -> Seq<char> {
    if items.len() == 0 {
        "None"@
    } else {
        joined(items)
    }
}

fn obstacle_chars(name: Option<&str>, number: Option<i32>) -> (r: Vec<char>)
    ensures
        r@ == obstacle_text(
            match name {
                Some(n) => Some(n@),
                None => None,
            },
            number,
        ),
{
    let mut out = match name {
        Some(n) => chars_of(n),
        None => chars_of("N/A"),
    };
    push_str(&mut out, " (x");
    let k: i32 = match number {
        Some(k) => k,
        None => 0,
    };
    push_signed(&mut out, k as i64);
    push_str(&mut out, ")");
    out
}

/// One obstacle as `<name> (x<number>)`.
pub fn format_obstacle(name: Option<&str>, number: Option<i32>) -> (r: String)
    ensures
        r@ == obstacle_text(
            match name {
                Some(n) => Some(n@),
                None => None,
            },
            number,
        ),
{
    string_of(&obstacle_chars(name, number))
}

/// The obstacles of a point, or `None`.
pub fn format_obstacles_list(obstacles: &Vec<(Option<String>, Option<i32>)>) -> (r: String)
    ensures
        r@ == list_text(
            obstacles@.map_values(
                |o: (Option<String>, Option<i32>)| obstacle_text(opt_view(o.0), o.1),
            ),
        ),
{
    let ghost items = obstacles@.map_values(
        |o: (Option<String>, Option<i32>)| obstacle_text(opt_view(o.0), o.1),
    );
    if obstacles.len() == 0 {
        return String::from_str("None");
    }
    let mut out: Vec<char> = Vec::new();
    let mut i: usize = 0;
    while i < obstacles.len()
        invariant
            items == obstacles@.map_values(
                |o: (Option<String>, Option<i32>)| obstacle_text(opt_view(o.0), o.1),
            ),
            i <= obstacles@.len(),
            out@ == joined(items.subrange(0, i as int)),
        decreases obstacles@.len() - i,
    {
        if i > 0 {
            push_str(&mut out, ", ");
        }
        let name: Option<&str> = match &obstacles[i].0 {
            Some(n) => Some(n.as_str()),
            None => None,
        };
        let piece = obstacle_chars(name, obstacles[i].1);
        push_chars(&mut out, &piece);
        assert(items.subrange(0, i + 1).drop_last() =~= items.subrange(0, i as int));
        i = i + 1;
        assert(out@ =~= joined(items.subrange(0, i as int)));
    }
    assert(items.subrange(0, obstacles@.len() as int) =~= items);
    string_of(&out)
}

/// The comments of a point, or `None`.
pub fn format_comments_list(comments: &Vec<String>) -> (r: String)
    ensures
        r@ == list_text(comments@.map_values(|c: String| c@)),
{
    let ghost items = comments@.map_values(|c: String| c@);
    if comments.len() == 0 {
        return String::from_str("None");
    }
    let mut out: Vec<char> = Vec::new();
    let mut i: usize = 0;
    while i < comments.len()
        invariant
            items == comments@.map_values(|c: String| c@),
            i <= comments@.len(),
            out@ == joined(items.subrange(0, i as int)),
        decreases comments@.len() - i,
    {
        if i > 0 {
            push_str(&mut out, ", ");
        }
        push_str(&mut out, comments[i].as_str());
        assert(items.subrange(0, i + 1).drop_last() =~= items.subrange(0, i as int));
        i = i + 1;
        assert(out@ =~= joined(items.subrange(0, i as int)));
    }
    assert(items.subrange(0, comments@.len() as int) =~= items);
    string_of(&out)
}

/// `img_<point>_<picture>.png`.
pub open spec fn image_filename_text(point: nat, picture: nat) -> Seq<char> {
    "img_"@ + decimal(point) + "_"@ + decimal(picture) + ".png"@
}

/// The file name an embedded image is written under.
pub fn generate_image_filename(point_index: usize, picture_index: usize) -> (r: String)
    ensures
        r@ == image_filename_text(point_index as nat, picture_index as nat),
{
    let mut out = chars_of("img_");
    push_decimal(&mut out, point_index as u64);
    push_str(&mut out, "_");
    push_decimal(&mut out, picture_index as u64);
    push_str(&mut out, ".png");
    proof {
        assert(out@ =~= image_filename_text(point_index as nat, picture_index as nat));
    }
    string_of(&out)
}

/// ASCII lower case of one character.
pub open spec fn lower_ascii(c: char) -> char {
    if 'A' <= c <= 'Z' {
        ((c as u8) + 32) as char
    } else {
        c
    }
}

/// ASCII lower case of a text.
pub open spec fn lower_ascii_seq(s: Seq<char>) -> Seq<char> {
    s.map_values(|c: char| lower_ascii(c))
}

/// The font file extensions the report can load, in any letter case.
pub open spec fn font_extension_ok(ext: Seq<char>) -> bool {
    let l = lower_ascii_seq(ext);
    l == "ttf"@ || l == "otf"@ || l == "woff"@ || l == "woff2"@
}

fn lower_char(c: char) -> (r: char)
    ensures
        r == lower_ascii(c),
{
    if 'A' <= c && c <= 'Z' {
        ((c as u8) + 32) as char
    } else {
        c
    }
}

/// Whether a file extension names a font the report can load.
pub fn is_valid_font_extension(ext: &str) -> (r: bool)
    ensures
        r == font_extension_ok(ext@),
{
    let cs = chars_of(ext);
    let mut low: Vec<char> = Vec::new();
    let mut i: usize = 0;
    while i < cs.len()
        invariant
            cs@ == ext@,
            i <= cs@.len(),
            low@ == lower_ascii_seq(cs@.subrange(0, i as int)),
        decreases cs@.len() - i,
    {
        low.push(lower_char(cs[i]));
        i = i + 1;
        assert(low@ =~= lower_ascii_seq(cs@.subrange(0, i as int)));
    }
    assert(cs@.subrange(0, cs@.len() as int) =~= cs@);
    chars_eq(&low, "ttf") || chars_eq(&low, "otf") || chars_eq(&low, "woff") || chars_eq(&low, "woff2")
}

/// The first position of `c` in `s`, if any.
pub open spec fn first_index(s: Seq<char>, c: char, i: int) -> bool {
    0 <= i < s.len() && s[i] == c && forall|k: int| 0 <= k < i ==> s[k] != c
}

fn find_char(s: &Vec<char>, c: char) -> (r: Option<usize>)
    ensures
        r matches Some(i) ==> first_index(s@, c, i as int),
        r is None ==> forall|k: int| 0 <= k < s@.len() ==> s@[k] != c,
{
    let mut i: usize = 0;
    while i < s.len()
        invariant
            i <= s@.len(),
            forall|k: int| 0 <= k < i ==> s@[k] != c,
        decreases s@.len() - i,
    {
        if s[i] == c {
            return Some(i);
        }
        i = i + 1;
    }
    None
}

/// Whether `s` starts with `p`.
pub open spec fn starts_with(s: Seq<char>, p: Seq<char>) -> bool {
    p.len() <= s.len() && s.subrange(0, p.len() as int) == p
}

fn has_prefix(s: &Vec<char>, p: &str) -> (r: bool)
    ensures
        r == starts_with(s@, p@),
{
    let pc = chars_of(p);
    if pc.len() > s.len() {
        return false;
    }
    let mut i: usize = 0;
    while i < pc.len()
        invariant
            pc@ == p@,
            pc@.len() <= s@.len(),
            i <= pc@.len(),
            forall|j: int| 0 <= j < i ==> s@[j] == pc@[j],
        decreases pc@.len() - i,
    {
        if s[i] != pc[i] {
            assert(s@.subrange(0, pc@.len() as int)[i as int] != pc@[i as int]);
            return false;
        }
        i = i + 1;
    }
    assert(s@.subrange(0, pc@.len() as int) =~= pc@);
    true
}

/// The payload of a `data:` URI (what follows its first comma); any other
/// text is already bare.
pub open spec fn bare_base64(s: Seq<char>) -> Seq<char> {
    if starts_with(s, "data:"@) && exists|i: int| first_index(s, ',', i) {
        let i = choose|i: int| first_index(s, ',', i);
        s.subrange(i + 1, s.len() as int)
    } else {
        s
    }
}

proof fn lemma_first_index_unique(s: Seq<char>, c: char, i: int, j: int)
    requires
        first_index(s, c, i),
        first_index(s, c, j),
    ensures
        i == j,
{
    if i < j {
        assert(s[i] != c);
    } else if j < i {
        assert(s[j] != c);
    }
}

/// Drops the `data:...,` header of an embedded image, if it has one.
pub fn clean_base64_string(input: &str) -> (r: String)
    ensures
        r@ == bare_base64(input@),
{
    let cs = chars_of(input);
    let n = cs.len();
    if has_prefix(&cs, "data:") {
        match find_char(&cs, ',') {
            Some(i) => {
                assert(i < n);
                proof {
                    let k = choose|k: int| first_index(cs@, ',', k);
                    lemma_first_index_unique(cs@, ',', i as int, k);
                }
                let mut out: Vec<char> = Vec::new();
                let mut j: usize = i + 1;
                while j < cs.len()
                    invariant
                        i < cs@.len(),
                        i + 1 <= j <= cs@.len(),
                        out@ == cs@.subrange(i + 1, j as int),
                    decreases cs@.len() - j,
                {
                    out.push(cs[j]);
                    j = j + 1;
                    assert(out@ =~= cs@.subrange(i + 1, j as int));
                }
                return string_of(&out);
            },
            None => {},
        }
    }
    string_of(&cs)
}

/// The header `data:<mime>;base64,` of an embedded image at its start.
pub open spec fn data_uri_split(s: Seq<char>, i: int) -> bool {
    &&& starts_with(s, "data:"@)
    &&& 5 <= i
    &&& occurs_at(s, ";base64,"@, i)
    &&& forall|k: int| 5 <= k < i ==> !occurs_at(s, ";base64,"@, k)
}

fn marker_at(s: &Vec<char>, i: usize) -> (r: bool)
    requires
        i + 8 <= s@.len(),
    ensures
        r == occurs_at(s@, ";base64,"@, i as int),
{
    proof {
        reveal_strlit(";base64,");
    }
    let m = chars_of(";base64,");
    let n = s.len();
    let mut k: usize = 0;
    while k < 8
        invariant
            n == s@.len(),
            m@ == ";base64,"@,
            m@.len() == 8,
            i + 8 <= s@.len(),
            k <= 8,
            forall|j: int| 0 <= j < k ==> s@[i + j] == m@[j],
        decreases 8 - k,
    {
        if s[i + k] != m[k] {
            assert(s@.subrange(i as int, i + 8)[k as int] != m@[k as int]);
            return false;
        }
        k = k + 1;
    }
    assert(s@.subrange(i as int, i + 8) =~= m@);
    true
}

/// Splits an embedded image into its MIME type and its payload. A text
/// without the `data:<mime>;base64,` header has no MIME type and is all payload.
pub fn extract_base64_content<'a>(input: &'a str) -> (r: (Option<&'a str>, &'a str))
    ensures
        match r.0 {
            Some(mime) => exists|i: int|
                data_uri_split(input@, i) && mime@ == input@.subrange(5, i) && r.1@
                    == input@.subrange(i + 8, input@.len() as int),
            None => r.1@ == input@ && forall|i: int| !data_uri_split(input@, i),
        },
{
    proof {
        reveal_strlit("data:");
        reveal_strlit(";base64,");
    }
    let cs = chars_of(input);
    if !has_prefix(&cs, "data:") || cs.len() < 13 {
        return (None, input);
    }
    let n = cs.len();
    let mut i: usize = 5;
    while i < n - 7
        invariant
            cs@ == input@,
            n == cs@.len(),
            n >= 13,
            5 <= i,
            i + 7 <= n,
            starts_with(cs@, "data:"@),
            forall|k: int| 5 <= k < i ==> !occurs_at(cs@, ";base64,"@, k),
        decreases n - i,
    {
        if marker_at(&cs, i) {
            let mime = input.substring_char(5, i);
            let rest = input.substring_char(i + 8, n);
            assert(data_uri_split(input@, i as int));
            return (Some(mime), rest);
        }
        i = i + 1;
    }
    (None, input)
}

/// The image kind told by the leading bytes (PNG, JPEG, GIF, WebP).
pub open spec fn image_format_of(d: Seq<u8>) -> Option<Seq<char>> {
    if d.len() < 3 {
        None
    } else if d.len() >= 8 && d.subrange(0, 8) == seq![0x89u8, 0x50, 0x4E, 0x47, 0x0D, 0x0A, 0x1A, 0x0A] {
        Some("png"@)
    } else if d[0] == 0xFF && d[1] == 0xD8 && d[2] == 0xFF {
        Some("jpg"@)
    } else if d.len() >= 6 && d.subrange(0, 4) == seq![0x47u8, 0x49, 0x46, 0x38] {
        Some("gif"@)
    } else if d.len() >= 12 && d.subrange(0, 4) == seq![0x52u8, 0x49, 0x46, 0x46] && d.subrange(8, 12)
        == seq![0x57u8, 0x45, 0x42, 0x50] {
        Some("webp"@)
    } else {
        None
    }
}

fn bytes_at(d: &[u8], at: usize, expect: &[u8]) -> (r: bool)
    requires
        at + expect@.len() <= d@.len(),
    ensures
        r == (d@.subrange(at as int, at + expect@.len()) == expect@),
{
    let n = d.len();
    let mut k: usize = 0;
    while k < expect.len()
        invariant
            n == d@.len(),
            at + expect@.len() <= d@.len(),
            k <= expect@.len(),
            forall|j: int| 0 <= j < k ==> d@[at + j] == expect@[j],
        decreases expect@.len() - k,
    {
        if d[at + k] != expect[k] {
            assert(d@.subrange(at as int, at + expect@.len())[k as int] != expect@[k as int]);
            return false;
        }
        k = k + 1;
    }
    assert(d@.subrange(at as int, at + expect@.len()) =~= expect@);
    true
}

/// The image kind of some bytes, by their signature.
pub fn get_image_format(data: &[u8]) -> (r: Option<&'static str>)
    ensures
        match r {
            Some(k) => image_format_of(data@) == Some(k@),
            None => image_format_of(data@) is None,
        },
{
    let png: [u8; 8] = [0x89, 0x50, 0x4E, 0x47, 0x0D, 0x0A, 0x1A, 0x0A];
    let gif: [u8; 4] = [0x47, 0x49, 0x46, 0x38];
    let riff: [u8; 4] = [0x52, 0x49, 0x46, 0x46];
    let webp: [u8; 4] = [0x57, 0x45, 0x42, 0x50];
    proof {
        assert(png@ =~= seq![0x89u8, 0x50, 0x4E, 0x47, 0x0D, 0x0A, 0x1A, 0x0A]);
        assert(gif@ =~= seq![0x47u8, 0x49, 0x46, 0x38]);
        assert(riff@ =~= seq![0x52u8, 0x49, 0x46, 0x46]);
        assert(webp@ =~= seq![0x57u8, 0x45, 0x42, 0x50]);
    }
    if data.len() < 3 {
        return None;
    }
    if data.len() >= 8 && bytes_at(data, 0, png.as_slice()) {
        return Some("png");
    }
    if data[0] == 0xFF && data[1] == 0xD8 && data[2] == 0xFF {
        return Some("jpg");
    }
    if data.len() >= 6 && bytes_at(data, 0, gif.as_slice()) {
        return Some("gif");
    }
    if data.len() >= 12 && bytes_at(data, 0, riff.as_slice()) && bytes_at(data, 8, webp.as_slice()) {
        return Some("webp");
    }
    None
}

/// What precedes the first `c` in `s` (all of `s` when it has none).
pub open spec fn before(s: Seq<char>, c: char) -> Seq<char> {
    if exists|i: int| first_index(s, c, i) {
        s.subrange(0, choose|i: int| first_index(s, c, i))
    } else {
        s
    }
}

/// What follows the first `c` in `s`, if it holds one.
pub open spec fn after(s: Seq<char>, c: char) -> Option<Seq<char>> {
    if exists|i: int| first_index(s, c, i) {
        Some(s.subrange((choose|i: int| first_index(s, c, i)) + 1, s.len() as int))
    } else {
        None
    }
}

fn copy_range(s: &Vec<char>, from: usize, to: usize) -> (r: Vec<char>)
    requires
        from <= to <= s@.len(),
    ensures
        r@ == s@.subrange(from as int, to as int),
{
    let mut out: Vec<char> = Vec::new();
    let mut j: usize = from;
    while j < to
        invariant
            from <= j <= to,
            to <= s@.len(),
            out@ == s@.subrange(from as int, j as int),
        decreases to - j,
    {
        out.push(s[j]);
        j = j + 1;
        assert(out@ =~= s@.subrange(from as int, j as int));
    }
    out
}

fn split_once(s: &Vec<char>, c: char) -> (r: (Vec<char>, Option<Vec<char>>))
    ensures
        r.0@ == before(s@, c),
        match r.1 {
            Some(t) => after(s@, c) == Some(t@),
            None => after(s@, c) is None,
        },
{
    let n = s.len();
    match find_char(s, c) {
        Some(i) => {
            assert(i < n);
            proof {
                let k = choose|k: int| first_index(s@, c, k);
                lemma_first_index_unique(s@, c, i as int, k);
            }
            (copy_range(s, 0, i), Some(copy_range(s, i + 1, n)))
        },
        None => {
            assert(!exists|i: int| first_index(s@, c, i));
            (copy_range(s, 0, s.len()), None)
        },
    }
}

/// Hours and minutes of a time: the first two `:`-separated fields.
pub open spec fn clock_text(t: Seq<char>) -> Seq<char> {
    match after(t, ':') {
        Some(rest) => before(t, ':') + ":"@ + before(rest, ':'),
        None => t,
    }
}

/// `YYYY-MM-DD[THH:MM...]` written `DD/MM/YYYY[ à HH:MM]`; a text whose date
/// part does not have exactly three `-`-separated fields is kept as it is.
pub open spec fn date_display(s: Seq<char>) -> Seq<char> {
    let dp = before(s, 'T');
    match after(dp, '-') {
        Some(r1) => match after(r1, '-') {
            Some(d) => if exists|i: int| first_index(d, '-', i) {
                s
            } else {
                let base = d + "/"@ + before(r1, '-') + "/"@ + before(dp, '-');
                match after(s, 'T') {
                    Some(rest) => base + " à "@ + clock_text(before(rest, 'T')),
                    None => base,
                }
            },
            None => s,
        },
        None => s,
    }
}

fn clock(t: &Vec<char>) -> (r: Vec<char>)
    ensures
        r@ == clock_text(t@),
{
    proof {
        reveal_strlit(":");
    }
    let (head, rest) = split_once(t, ':');
    match rest {
        Some(rest) => {
            let (minutes, _) = split_once(&rest, ':');
            let mut out = head;
            out.push(':');
            push_chars(&mut out, &minutes);
            proof {
                assert(out@ =~= clock_text(t@));
            }
            out
        },
        None => copy_range(t, 0, t.len()),
    }
}

/// A stored date as shown in reports.
pub fn format_date(date_str: &str) -> (r: String)
    ensures
        r@ == date_display(date_str@),
{
    proof {
        reveal_strlit("/");
    }
    let cs = chars_of(date_str);
    let (dp, rest) = split_once(&cs, 'T');
    let (year, r1) = split_once(&dp, '-');
    let r1 = match r1 {
        Some(r1) => r1,
        None => return string_of(&cs),
    };
    let (month, day) = split_once(&r1, '-');
    let day = match day {
        Some(d) => d,
        None => return string_of(&cs),
    };
    if find_char(&day, '-').is_some() {
        return string_of(&cs);
    }
    let mut out = day;
    out.push('/');
    push_chars(&mut out, &month);
    out.push('/');
    push_chars(&mut out, &year);
    match rest {
        Some(rest) => {
            let (time_field, _) = split_once(&rest, 'T');
            push_str(&mut out, " à ");
            let t = clock(&time_field);
            push_chars(&mut out, &t);
        },
        None => {},
    }
    proof {
        assert(out@ =~= date_display(date_str@));
    }
    string_of(&out)
}

/// The characters `char::is_whitespace` accepts (Unicode `White_Space`).
pub open spec fn is_space(c: char) -> bool {
    ('\u{9}' <= c <= '\u{d}') || c == ' ' || c == '\u{85}' || c == '\u{a0}' || c == '\u{1680}'
        || ('\u{2000}' <= c <= '\u{200a}') || c == '\u{2028}' || c == '\u{2029}' || c == '\u{202f}'
        || c == '\u{205f}' || c == '\u{3000}'
}

fn space(c: char) -> (r: bool)
    ensures
        r == is_space(c),
{
    ('\u{9}' <= c && c <= '\u{d}') || c == ' ' || c == '\u{85}' || c == '\u{a0}' || c == '\u{1680}'
        || ('\u{2000}' <= c && c <= '\u{200a}') || c == '\u{2028}' || c == '\u{2029}' || c
        == '\u{202f}' || c == '\u{205f}' || c == '\u{3000}'
}

/// `s` without its whitespace.
pub open spec fn without_spaces(s: Seq<char>) -> Seq<char>
    decreases s.len(),
{
    if s.len() == 0 {
        Seq::empty()
    } else {
        without_spaces(s.drop_last()) + if is_space(s.last()) {
            Seq::empty()
        } else {
            seq![s.last()]
        }
    }
}

/// The last position of `c` in `s`.
pub open spec fn last_index(s: Seq<char>, c: char, i: int) -> bool {
    0 <= i < s.len() && s[i] == c && forall|k: int| i < k < s.len() ==> s[k] != c
}

/// The base64 payload of a text: what follows its last comma (all of it
/// without one), with whitespace removed.
pub open spec fn base64_payload_text(s: Seq<char>) -> Seq<char> {
    without_spaces(
        if exists|i: int| last_index(s, ',', i) {
            s.subrange((choose|i: int| last_index(s, ',', i)) + 1, s.len() as int)
        } else {
            s
        },
    )
}

/// The base64 payload of an embedded image text.
pub fn base64_payload(input: &str) -> (r: String)
    ensures
        r@ == base64_payload_text(input@),
{
    let cs = chars_of(input);
    let n = cs.len();
    let mut start: usize = 0;
    let mut k: usize = n;
    while k > 0
        invariant_except_break
            start == 0,
        invariant
            n == cs@.len(),
            k <= n,
            forall|j: int| k <= j < n ==> cs@[j] != ',',
        ensures
            start <= n,
            start > 0 ==> cs@[start - 1] == ',' && forall|j: int| start <= j < n ==> cs@[j] != ',',
            start == 0 ==> forall|j: int| 0 <= j < n ==> cs@[j] != ',',
        decreases k,
    {
        if cs[k - 1] == ',' {
            start = k;
            break;
        }
        k = k - 1;
    }
    proof {
        if start > 0 {
            assert(last_index(cs@, ',', start - 1));
            assert forall|i: int| last_index(cs@, ',', i) implies i == start - 1 by {
                if i < start - 1 {
                    assert(cs@[start - 1] != ',');
                } else if i > start - 1 {
                    assert(cs@[i] != ',');
                }
            }
        } else {
            assert(!exists|i: int| last_index(cs@, ',', i));
        }
    }
    let ghost src = cs@.subrange(start as int, n as int);
    let mut out: Vec<char> = Vec::new();
    let mut j: usize = start;
    while j < n
        invariant
            n == cs@.len(),
            start <= j <= n,
            src == cs@.subrange(start as int, n as int),
            out@ == without_spaces(cs@.subrange(start as int, j as int)),
        decreases n - j,
    {
        assert(cs@.subrange(start as int, j + 1).drop_last() =~= cs@.subrange(start as int, j as int));
        if !space(cs[j]) {
            out.push(cs[j]);
        }
        j = j + 1;
        assert(out@ =~= without_spaces(cs@.subrange(start as int, j as int)));
    }
    proof {
        if start == 0 {
            assert(cs@.subrange(0, n as int) =~= cs@);
        }
    }
    string_of(&out)
}

/// Relies on `base64::Engine::decode` of `general_purpose::STANDARD`, which
/// requires canonical padding and no trailing bits: it accepts exactly the
/// texts that are the padded standard encoding of some bytes, and gives
/// those bytes back.
#[verifier::external_body]
fn base64_standard_decode(s: &str) -> (r: Result<Vec<u8>, String>)
    ensures
        match r {
            Ok(b) => base64_of(b@) == s@,
            Err(_) => forall|b: Seq<u8>| base64_of(b) != s@,
        },
{
    base64::Engine::decode(&base64::engine::general_purpose::STANDARD, s).map_err(|e| e.to_string())
}

/// Decodes the base64 payload of an embedded image text.
pub fn decode_base64(base64_str: &str) -> (r: Result<Vec<u8>, String>)
    ensures
        match r {
            Ok(b) => base64_of(b@) == base64_payload_text(base64_str@),
            Err(_) => forall|b: Seq<u8>| base64_of(b) != base64_payload_text(base64_str@),
        },
{
    let payload = base64_payload(base64_str);
    match base64_standard_decode(payload.as_str()) {
        Ok(b) => Ok(b),
        Err(e) => {
            let mut msg = chars_of("Failed to decode base64: ");
            push_str(&mut msg, e.as_str());
            Err(string_of(&msg))
        },
    }
}

} // verus!

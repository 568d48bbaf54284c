//! Screenshots that a reply points to.

use vstd::prelude::*;
use crate::auth::model;
use crate::radix64;
use crate::text;

verus! {

/// The local path that a `file:` URL names: what follows the scheme and an
/// optional `localhost`, where that is not empty.
pub open spec fn file_url_path(url: Seq<char>) -> Option<Seq<char>> {
    match text::strip_prefix(url, "file://"@) {
        None => None,
        Some(rest) => {
            let path = match text::strip_prefix(rest, "localhost"@) {
                Some(path) => path,
                None => rest,
            };
            if path.len() == 0 {
                None
            } else {
                Some(path)
            }
        },
    }
}

/// The local path that a `file:` URL names.
pub fn path_from_file_url(url: &str) -> (r: Option<String>)
    ensures
        match r {
            Some(path) => file_url_path(url@) == Some(path@),
            None => file_url_path(url@) is None,
        },
{
    match text::strip_prefix_text(url, "file://") {
        None => None,
        Some(rest) => {
            let path: &str = match text::strip_prefix_text(rest, "localhost") {
                Some(path) => path,
                None => rest,
            };
            if path.is_empty() {
                None
            } else {
                Some(path.to_owned())
            }
        },
    }
}

/// Where the last segment of `path` starts: behind its last slash.
pub open spec fn segment_start(path: Seq<char>) -> int
    decreases path.len(),
{
    if path.len() == 0 || path.last() == '/' {
        path.len() as int
    } else {
        segment_start(path.drop_last())
    }
}

/// The last segment of `path`; an empty one or a `.` is passed over, and a `..`
/// names no file.
pub open spec fn file_name(path: Seq<char>) -> Option<Seq<char>>
    decreases path.len(),
{
    let start = segment_start(path);
    let segment = path.skip(start);
    if segment.len() == 0 || segment == seq!['.'] {
        if 0 < start <= path.len() {
            file_name(path.take(start - 1))
        } else {
            None
        }
    } else if segment == seq!['.', '.'] {
        None
    } else {
        Some(segment)
    }
}

/// Whether `path` reads alike on every platform: it holds neither a backslash nor
/// a colon, and does not start with two slashes.
pub open spec fn is_portable(path: Seq<char>) -> bool {
    &&& !path.contains('\\')
    &&& !path.contains(':')
    &&& !(path.len() >= 2 && path[0] == '/' && path[1] == '/')
}

/// Whether `name` can be the file name of `path`: a part of it, and, where the
/// path reads alike on every platform, its last segment.
pub open spec fn names_file(path: Seq<char>, name: Option<Seq<char>>) -> bool {
    &&& is_portable(path) ==> name == file_name(path)
    &&& name matches Some(name) ==> name.len() > 0 && text::find(path, name) is Some
}

/// Calls `std::path::Path::file_name`. What separates the segments of a path, and
/// what is a prefix of it, depends on the platform; the contract says what the
/// file name is where no platform sees a prefix or another separator than the
/// slash, and that it is a part of the path wherever there is one.
#[verifier::external_body]
fn file_name_of(path: &str) -> (r: Option<String>)
    ensures
        names_file(path@, model::text_view(r)),
{
    std::path::Path::new(path).file_name().and_then(|name| name.to_str()).map(str::to_owned)
}

/// Where the last dot of `name` stands.
pub open spec fn last_dot(name: Seq<char>) -> Option<int>
    decreases name.len(),
{
    if name.len() == 0 {
        None
    } else if name.last() == '.' {
        Some(name.len() - 1)
    } else {
        last_dot(name.drop_last())
    }
}

/// What follows the last dot of `name`, unless that dot comes first.
pub open spec fn extension(name: Seq<char>) -> Option<Seq<char>> {
    match last_dot(name) {
        Some(i) => if i > 0 {
            Some(name.skip(i + 1))
        } else {
            None
        },
        None => None,
    }
}

fn extension_of(name: &str) -> (r: Option<String>)
    ensures
        match r {
            Some(ext) => extension(name@) == Some(ext@),
            None => extension(name@) is None,
        },
{
    let chars: Vec<char> = text::chars_of(name);
    let total: usize = chars.len();
    let mut n: usize = total;
    proof {
        assert(name@.take(n as int) =~= name@);
    }
    while n > 0
        invariant
            n <= total,
            total == chars@.len(),
            chars@ == name@,
            last_dot(name@) == last_dot(name@.take(n as int)),
        decreases n,
    {
        if chars[n - 1] == '.' {
            if n == 1 {
                return None;
            }
            let ext: &str = name.substring_char(n, total);
            proof {
                assert(ext@ =~= name@.skip(n as int));
            }
            return Some(ext.to_owned());
        }
        proof {
            assert(name@.take(n as int).drop_last() =~= name@.take(n - 1));
        }
        n = n - 1;
    }
    None
}

/// The media type that a file extension stands for.
pub open spec fn mime_of_extension(ext: Option<Seq<char>>) -> Seq<char> {
    match ext {
        Some(ext) => {
            let ext = text::ascii_lower(ext);
            if ext == "jpg"@ || ext == "jpeg"@ {
                "image/jpeg"@
            } else if ext == "webp"@ {
                "image/webp"@
            } else if ext == "gif"@ {
                "image/gif"@
            } else {
                "image/png"@
            }
        },
        None => "image/png"@,
    }
}

/// The media type of an image with this file name, told by its extension.
pub open spec fn mime(name: Option<Seq<char>>) -> Seq<char> {
    mime_of_extension(
        match name {
            Some(name) => extension(name),
            None => None,
        },
    )
}

proof fn lemma_lower_extensions()
    ensures
        text::ascii_lower("jpg"@) == "jpg"@,
        text::ascii_lower("jpeg"@) == "jpeg"@,
        text::ascii_lower("webp"@) == "webp"@,
        text::ascii_lower("gif"@) == "gif"@,
{
    reveal_strlit("jpg");
    reveal_strlit("jpeg");
    reveal_strlit("webp");
    reveal_strlit("gif");
    assert(text::ascii_lower("jpg"@) =~= "jpg"@);
    assert(text::ascii_lower("jpeg"@) =~= "jpeg"@);
    assert(text::ascii_lower("webp"@) =~= "webp"@);
    assert(text::ascii_lower("gif"@) =~= "gif"@);
}

/// The media type of an image with this file name, told by its extension; PNG
/// where that says nothing.
pub fn mime_for_name(name: &Option<String>) -> (r: &'static str)
    ensures
        r@ == mime(model::text_view(*name)),
{
    let ext: Option<String> = match name {
        Some(name) => extension_of(name.as_str()),
        None => None,
    };
    proof {
        lemma_lower_extensions();
    }
    match ext {
        Some(ext) => {
            let ext: &str = ext.as_str();
            if text::same_ignoring_ascii_case(ext, "jpg") || text::same_ignoring_ascii_case(
                ext,
                "jpeg",
            ) {
                "image/jpeg"
            } else if text::same_ignoring_ascii_case(ext, "webp") {
                "image/webp"
            } else if text::same_ignoring_ascii_case(ext, "gif") {
                "image/gif"
            } else {
                "image/png"
            }
        },
        None => "image/png",
    }
}

/// The media type of the image at `path`, told by the extension of its file name.
pub fn mime_for_path(path: &str) -> (r: &'static str)
    ensures
        exists|name: Option<Seq<char>>| #[trigger] names_file(path@, name) && r@ == mime(name),
{
    let name: Option<String> = file_name_of(path);
    mime_for_name(&name)
}

/// The file name at an optional path.
pub(crate) fn optional_file_name_of(path: &Option<String>) -> (r: Option<String>)
    ensures
        names_optional_file(model::text_view(*path), model::text_view(r)),
{
    match path {
        Some(path) => file_name_of(path.as_str()),
        None => None,
    }
}

/// Whether `name` can be the file name at an optional path.
pub open spec fn names_optional_file(path: Option<Seq<char>>, name: Option<Seq<char>>) -> bool {
    match path {
        Some(path) => names_file(path, name),
        None => name is None,
    }
}

/// Media type and base64 data of a `data:` URL.
pub open spec fn data_url(url: Seq<char>) -> Option<(Seq<char>, Seq<char>)> {
    match text::strip_prefix(url, "data:"@) {
        Some(rest) => text::split_once(rest, ";base64,"@),
        None => None,
    }
}

/// Media type, base64 data and path of the screenshot at `url`, given what the
/// file that it names holds and how that file is called. A `data:` URL has no
/// path.
pub open spec fn screenshot(
    url: Seq<char>,
    contents: Option<Seq<u8>>,
    name: Option<Seq<char>>,
) -> Option<(Seq<char>, Seq<char>, Seq<char>)> {
    match data_url(url) {
        Some((mime, data)) => Some((mime, data, Seq::empty())),
        None => match (file_url_path(url), contents) {
            (Some(path), Some(bytes)) => Some((mime(name), radix64::base64_text(bytes, false), path)),
            _ => None,
        },
    }
}

fn split_data_url(url: &str) -> (r: Option<(&str, &str)>)
    ensures
        match r {
            Some((mime, data)) => data_url(url@) == Some((mime@, data@)),
            None => data_url(url@) is None,
        },
{
    match text::strip_prefix_text(url, "data:") {
        Some(rest) => text::split_once_text(rest, ";base64,"),
        None => None,
    }
}

/// The file to read for the screenshot at `url`, where it is kept in one.
pub fn screenshot_file(url: &str) -> (r: Option<String>)
    ensures
        match r {
            Some(path) => data_url(url@) is None && file_url_path(url@) == Some(path@),
            None => data_url(url@) is Some || file_url_path(url@) is None,
        },
{
    match split_data_url(url) {
        Some(_) => None,
        None => path_from_file_url(url),
    }
}

/// An optional file's bytes.
pub open spec fn bytes_view(contents: Option<Vec<u8>>) -> Option<Seq<u8>> {
    match contents {
        Some(bytes) => Some(bytes@),
        None => None,
    }
}

/// Whether a file's base64 text fits in memory.
pub open spec fn encodable(contents: Option<Vec<u8>>) -> bool {
    contents matches Some(bytes) ==> radix64::standard_len(bytes@.len()) <= isize::MAX
}

/// Whether [`load_screenshot`] can be asked with this file.
pub fn can_encode(contents: &Option<Vec<u8>>) -> (r: bool)
    ensures
        r == encodable(*contents),
{
    match contents {
        None => true,
        Some(bytes) => {
            let n: usize = bytes.len();
            let groups: usize = if n % 3 == 0 {
                n / 3
            } else {
                n / 3 + 1
            };
            proof {
                assert(groups == (n + 2) / 3);
            }
            groups <= (isize::MAX as usize) / 4
        },
    }
}

/// Whether `loaded` is this screenshot.
pub open spec fn is_loaded(
    loaded: Option<(String, String, String)>,
    shot: Option<(Seq<char>, Seq<char>, Seq<char>)>,
) -> bool {
    match loaded {
        Some((mime, data, path)) => shot == Some((mime@, data@, path@)),
        None => shot is None,
    }
}

/// Media type, base64 data and path of the screenshot at `url`, given the bytes
/// of its [`screenshot_file`] where that could be read, and that file's name.
pub fn load_named_screenshot(
    url: &str,
    contents: Option<Vec<u8>>,
    name: &Option<String>,
) -> (r: Option<(String, String, String)>)
    requires
        encodable(contents),
    ensures
        is_loaded(r, screenshot(url@, bytes_view(contents), model::text_view(*name))),
{
    if let Some((mime, data)) = split_data_url(url) {
        return Some((mime.to_owned(), data.to_owned(), String::new()));
    }
    match path_from_file_url(url) {
        None => None,
        Some(path) => match contents {
            None => None,
            Some(bytes) => {
                let mime: &'static str = mime_for_name(name);
                let data: String = radix64::base64_standard(bytes.as_slice());
                Some((mime.to_owned(), data, path))
            },
        },
    }
}

/// Media type, base64 data and path of the screenshot at `url`, given the bytes
/// of its [`screenshot_file`] where that could be read.
pub fn load_screenshot(url: &str, contents: Option<Vec<u8>>) -> (r: Option<
    (String, String, String),
>)
    requires
        encodable(contents),
    ensures
        exists|name: Option<Seq<char>>| #[trigger]
            names_optional_file(file_url_path(url@), name) && is_loaded(
                r,
                screenshot(url@, bytes_view(contents), name),
            ),
{
    let path: Option<String> = path_from_file_url(url);
    let name: Option<String> = optional_file_name_of(&path);
    proof {
        assert(model::text_view(path) == file_url_path(url@));
    }
    load_named_screenshot(url, contents, &name)
}

/// A `file:` URL names its absolute path, with or without a `localhost`.
pub proof fn law_file_url_names_its_path(path: Seq<char>)
    requires
        path.len() > 0,
        path[0] == '/',
    ensures
        file_url_path("file://"@ + path) == Some(path),
        file_url_path("file://localhost"@ + path) == Some(path),
{
    reveal_strlit("file://");
    reveal_strlit("localhost");
    reveal_strlit("file://localhost");
    let bare = "file://"@ + path;
    assert(bare.subrange(0, 7) =~= "file://"@);
    assert(bare.skip(7) =~= path);
    assert(!text::occurs_at(path, "localhost"@, 0)) by {
        if path.len() >= 9 {
            assert(path.subrange(0, 9)[0] == path[0]);
        }
    }
    let local = "file://localhost"@ + path;
    assert(local.subrange(0, 7) =~= "file://"@);
    assert(local.skip(7) =~= "localhost"@ + path);
    assert(("localhost"@ + path).subrange(0, 9) =~= "localhost"@);
    assert(("localhost"@ + path).skip(9) =~= path);
}

/// A `data:` URL gives its media type and its data as they stand, whatever a
/// file holds.
pub proof fn law_data_url_is_read_as_it_stands(
    mime: Seq<char>,
    data: Seq<char>,
    contents: Option<Seq<u8>>,
    name: Option<Seq<char>>,
)
    requires
        !mime.contains(';'),
    ensures
        screenshot("data:"@ + mime + ";base64,"@ + data, contents, name) == Some(
            (mime, data, Seq::<char>::empty()),
        ),
{
    reveal_strlit("data:");
    reveal_strlit(";base64,");
    let url = "data:"@ + mime + ";base64,"@ + data;
    let rest = mime + ";base64,"@ + data;
    assert(url.subrange(0, 5) =~= "data:"@);
    assert(url.skip(5) =~= rest);
    let n = mime.len() as int;
    assert(rest.subrange(n, n + 8) =~= ";base64,"@);
    assert forall|j: int| 0 <= j < n implies !text::occurs_at(rest, ";base64,"@, j) by {
        if j + 8 <= rest.len() {
            assert(rest.subrange(j, j + 8)[0] == mime[j]);
            assert(mime.contains(mime[j]));
        }
    }
    text::lemma_find_is(rest, ";base64,"@, 0, n);
    assert(rest.take(n) =~= mime);
    assert(rest.skip(n + 8) =~= data);
}

/// Only a `file:` URL names a path: what stands behind the scheme and a
/// `localhost`, whatever that is, as long as it is something.
pub proof fn law_file_url_is_scheme_and_path(url: Seq<char>, path: Seq<char>)
    ensures
        url.len() < 7 || url.take(7) != "file://"@ ==> file_url_path(url) is None,
        file_url_path("file://localhost"@ + path) == (if path.len() == 0 {
            None
        } else {
            Some(path)
        }),
        path.len() < 9 || path.take(9) != "localhost"@ ==> file_url_path("file://"@ + path) == (
        if path.len() == 0 {
            None
        } else {
            Some(path)
        }),
{
    reveal_strlit("file://");
    reveal_strlit("localhost");
    reveal_strlit("file://localhost");
    assert("file://localhost"@ + path =~= "file://"@ + ("localhost"@ + path));
    text::law_strip_prefix_undoes_prefixing(path, "localhost"@, path);
    text::law_strip_prefix_undoes_prefixing(path, "file://"@, "localhost"@ + path);
    text::law_strip_prefix_undoes_prefixing(path, "file://"@, path);
    if text::strip_prefix(url, "file://"@) is Some {
        assert(url.subrange(0, 7) =~= url.take(7));
    }
    if text::strip_prefix(path, "localhost"@) is Some {
        assert(path.subrange(0, 9) =~= path.take(9));
    }
}

proof fn lemma_last_dot(stem: Seq<char>, ext: Seq<char>)
    requires
        !ext.contains('.'),
    ensures
        last_dot(stem + seq!['.'] + ext) == Some(stem.len() as int),
        last_dot(ext) is None,
    decreases ext.len(),
{
    let name = stem + seq!['.'] + ext;
    if ext.len() == 0 {
        assert(name.last() == '.');
    } else {
        let rest = ext.drop_last();
        assert(ext.contains(ext[ext.len() - 1]));
        assert(name.last() == ext.last());
        assert(name.drop_last() =~= stem + seq!['.'] + rest);
        assert(!rest.contains('.')) by {
            if rest.contains('.') {
                let i = choose|i: int| 0 <= i < rest.len() && rest[i] == '.';
                assert(ext[i] == '.');
            }
        }
        lemma_last_dot(stem, rest);
    }
}

/// An extension is what stands behind the last dot of a name. A name that holds no
/// dot has none, and neither has one that starts with its only dot.
pub proof fn law_extension_stands_behind_the_last_dot(stem: Seq<char>, ext: Seq<char>)
    requires
        !ext.contains('.'),
    ensures
        stem.len() > 0 ==> extension(stem + seq!['.'] + ext) == Some(ext),
        extension(seq!['.'] + ext) is None,
        extension(ext) is None,
{
    lemma_last_dot(stem, ext);
    lemma_last_dot(seq![], ext);
    assert(Seq::<char>::empty() + seq!['.'] + ext =~= seq!['.'] + ext);
    let name = stem + seq!['.'] + ext;
    assert(name.skip((stem.len() + 1) as int) =~= ext);
}

/// The extensions of the JPEG, WebP and GIF formats, in small or capital letters,
/// stand for those formats; a file with any other extension, or with none, is taken
/// for a PNG.
pub proof fn law_media_type_follows_the_extension(
    stem: Seq<char>,
    ext: Seq<char>,
    known: Seq<char>,
)
    requires
        stem.len() > 0,
        !ext.contains('.'),
        ext.len() == known.len(),
        forall|i: int|
            0 <= i < ext.len() ==> #[trigger] ext[i] == known[i] || (65 <= ext[i] as u32 <= 90
                && known[i] as u32 == ext[i] as u32 + 32),
    ensures
        ({
            let shown = mime(Some(stem + seq!['.'] + ext));
            &&& known == "jpg"@ || known == "jpeg"@ ==> shown == "image/jpeg"@
            &&& known == "webp"@ ==> shown == "image/webp"@
            &&& known == "gif"@ ==> shown == "image/gif"@
            &&& text::ascii_lower(ext) != "jpg"@ && text::ascii_lower(ext) != "jpeg"@
                && text::ascii_lower(ext) != "webp"@ && text::ascii_lower(ext) != "gif"@ ==> shown
                == "image/png"@
        }),
        mime(Some(ext)) == "image/png"@,
        mime(Some(seq!['.'] + ext)) == "image/png"@,
        mime(None) == "image/png"@,
{
    law_extension_stands_behind_the_last_dot(stem, ext);
    let low = text::ascii_lower(ext);
    if known == "jpg"@ || known == "jpeg"@ || known == "webp"@ || known == "gif"@ {
        reveal_strlit("jpg");
        reveal_strlit("jpeg");
        reveal_strlit("webp");
        reveal_strlit("gif");
        assert forall|i: int| 0 <= i < ext.len() implies low[i] == known[i] by {
            text::law_lower_case_changes_capitals_only(ext, i);
            assert(ext[i] == known[i] || (65 <= ext[i] as u32 <= 90 && known[i] as u32
                == ext[i] as u32 + 32));
            assert(!(65 <= known[i] as u32 <= 90));
        }
        assert(low =~= known);
        assert("gif"@[0] == 'g' && "jpg"@[0] == 'j' && "jpeg"@[0] == 'j' && "webp"@[0] == 'w');
    }
}

/// A screenshot that is kept in a file is that file's bytes in base64, with the
/// media type of its name and with its path. There is none without the file, and
/// none where the URL is of another kind.
pub proof fn law_file_screenshot_is_the_file(
    url: Seq<char>,
    bytes: Seq<u8>,
    name: Option<Seq<char>>,
)
    requires
        url.len() < 5 || url.take(5) != "data:"@,
    ensures
        file_url_path(url) is None ==> screenshot(url, Some(bytes), name) is None,
        file_url_path(url) is Some ==> screenshot(url, Some(bytes), name) == Some(
            (mime(name), radix64::base64_text(bytes, false), file_url_path(url)->0),
        ),
        screenshot(url, None, name) is None,
{
    reveal_strlit("data:");
    if text::strip_prefix(url, "data:"@) is Some {
        assert(url.subrange(0, 5) =~= url.take(5));
    }
}

/// A `data:` URL is split at the first mark of base64 data, and is read without any
/// file; one without that mark is no screenshot.
pub proof fn law_data_url_splits_at_its_mark(
    mime: Seq<char>,
    data: Seq<char>,
    contents: Option<Seq<u8>>,
    name: Option<Seq<char>>,
)
    ensures
        ({
            let rest = mime + ";base64,"@ + data;
            (forall|j: int|
                0 <= j < mime.len() ==> #[trigger] rest.subrange(j, j + 8) != ";base64,"@)
                ==> screenshot("data:"@ + rest, contents, name) == Some(
                (mime, data, Seq::<char>::empty()),
            )
        }),
        (forall|j: int|
            0 <= j <= mime.len() - 8 ==> #[trigger] mime.subrange(j, j + 8) != ";base64,"@)
            ==> screenshot("data:"@ + mime, contents, name) is None,
{
    reveal_strlit("data:");
    reveal_strlit(";base64,");
    reveal_strlit("file://");
    let mark = ";base64,"@;
    let rest = mime + mark + data;
    let n = mime.len() as int;
    text::law_strip_prefix_undoes_prefixing(rest, "data:"@, rest);
    text::law_strip_prefix_undoes_prefixing(mime, "data:"@, mime);
    assert(rest.subrange(n, n + 8) =~= mark);
    if forall|j: int| 0 <= j < n ==> #[trigger] rest.subrange(j, j + 8) != mark {
        assert forall|j: int| 0 <= j < n implies !text::occurs_at(rest, mark, j) by {
            assert(rest.subrange(j, j + 8) != mark);
        }
        text::lemma_find_is(rest, mark, 0, n);
        assert(rest.take(n) =~= mime);
        assert(rest.skip(n + 8) =~= data);
    }
    text::law_find_gives_the_first_place(mime, mark);
    if text::find(mime, mark) is Some {
        let i = text::find(mime, mark)->0;
        assert(mime.subrange(i, i + 8) == mark);
    }
    let url = "data:"@ + mime;
    assert(file_url_path(url) is None) by {
        if text::strip_prefix(url, "file://"@) is Some {
            assert(url.subrange(0, 7)[0] == 'd');
        }
    }
}

/// What was loaded is the screenshot, part by part.
pub proof fn law_loaded_is_the_screenshot(
    mime: String,
    data: String,
    path: String,
    shot: Option<(Seq<char>, Seq<char>, Seq<char>)>,
)
    ensures
        is_loaded(None, shot) <==> shot is None,
        is_loaded(Some((mime, data, path)), shot) <==> (shot matches Some((m, d, p)) && m == mime@
            && d == data@ && p == path@),
{
}

/// A path that is there has the file name of that path; without one there is no
/// file name.
pub proof fn law_no_path_no_file_name(path: Seq<char>, name: Option<Seq<char>>)
    ensures
        names_optional_file(Some(path), name) <==> names_file(path, name),
        names_optional_file(None, name) <==> name is None,
{
}

} // verus!

use vstd::prelude::*;

use crate::command::{push_text, texts, Invocation, InvocationView};
use crate::text::{decimal, has_prefix, has_suffix};

verus! {

/// Where the last path segment of `s[..j]` starts.
pub open spec fn segment_start(s: Seq<char>, j: int) -> int
    decreases j,
{
    if j <= 0 {
        0
    } else if s[j - 1] == '/' {
        j
    } else {
        segment_start(s, j - 1)
    }
}

/// What follows the last `/` of `s`, or all of `s` where it has none.
pub open spec fn last_segment(s: Seq<char>) -> Seq<char> {
    s.subrange(segment_start(s, s.len() as int), s.len() as int)
}

/// `s` without the `.img` endings at its end, however many there are.
pub open spec fn strip_img(s: Seq<char>) -> Seq<char>
    decreases s.len(),
{
    if s.len() >= 4 && has_suffix(s, ".img"@) {
        strip_img(s.subrange(0, s.len() - 4))
    } else {
        s
    }
}

/// The name of the customized image: the source's file name without its `.img`
/// endings, then `_` and the package, then `_proposed` where the package came
/// from the staging pocket, then `.img`.
pub open spec fn output_name(uri: Seq<char>, package: Seq<char>, proposed: bool) -> Seq<char> {
    strip_img(last_segment(uri)) + "_"@ + package + (if proposed { "_proposed"@ } else { ""@ })
        + ".img"@
}

/// An image location that the run downloads rather than copies.
pub open spec fn remote(uri: Seq<char>) -> bool {
    has_prefix(uri, "http://"@) || has_prefix(uri, "https://"@)
}

/// Whether `uri` is fetched over HTTP(S) rather than read from a local path.
pub fn is_remote(uri: &str) -> (r: bool)
    ensures
        r == remote(uri@),
{
    crate::text::starts_with(uri, "http://") || crate::text::starts_with(uri, "https://")
}

fn segment_begin(s: &str) -> (r: usize)
    ensures
        r == segment_start(s@, s@.len() as int),
        r <= s@.len(),
{
    let n = s.unicode_len();
    let mut j = n;
    while j > 0 && s.get_char(j - 1) != '/'
        invariant
            n == s@.len(),
            j <= n,
            segment_start(s@, n as int) == segment_start(s@, j as int),
        decreases j,
    {
        j -= 1;
    }
    j
}

fn strip_img_endings(s: &str) -> (r: &str)
    ensures
        r@ == strip_img(s@),
{
    proof {
        reveal_strlit(".img");
    }
    let mut t = s;
    while t.unicode_len() >= 4 && crate::text::ends_with(t, ".img")
        invariant
            strip_img(s@) == strip_img(t@),
        decreases t@.len(),
    {
        let n = t.unicode_len();
        t = t.substring_char(0, n - 4);
    }
    t
}

/// The file name of the customized image made from the image at `uri`.
pub fn output_image_name(uri: &str, package: &str, proposed: bool) -> (r: String)
    ensures
        r@ == output_name(uri@, package@, proposed),
{
    let start = segment_begin(uri);
    let n = uri.unicode_len();
    let name = strip_img_endings(uri.substring_char(start, n));
    let tag = if proposed { "_proposed" } else { "" };
    crate::text::cat3(name, "_", package).concat(tag).concat(".img")
}

/// The notation of a signed integer.
pub open spec fn signed_decimal(n: int) -> Seq<char> {
    if n < 0 { "-"@ + decimal((-n) as nat) } else { decimal(n as nat) }
}

/// The notation of `n`, with a minus sign where it is negative.
pub fn signed_decimal_string(n: i64) -> (r: String)
    ensures
        r@ == signed_decimal(n as int),
{
    if n < 0 {
        let m: u64 = (0 - (n as i128)) as u64;
        crate::text::cat("-", crate::text::decimal_string(m).as_str())
    } else {
        crate::text::decimal_string(n as u64)
    }
}

/// The container metadata of an image with `package` installed on `release`,
/// made at `timestamp` (seconds since the epoch).
pub open spec fn metadata_text(package: Seq<char>, release: Seq<char>, proposed: bool, timestamp: int) -> Seq<char> {
    "architecture: x86_64\ncreation_date: "@ + signed_decimal(timestamp)
        + "\nproperties:\n  description: \"Ubuntu "@ + release + " with "@ + package
        + (if proposed { " (proposed)"@ } else { ""@ }) + "\"\n  os: Ubuntu\n  release: \""@
        + release + "\"\n"@
}

/// The text of the container metadata file.
pub fn lxd_metadata(package: &str, release: &str, proposed: bool, timestamp: i64) -> (r: String)
    ensures
        r@ == metadata_text(package@, release@, proposed, timestamp as int),
{
    let tag = if proposed { " (proposed)" } else { "" };
    let stamp = signed_decimal_string(timestamp);
    crate::text::cat("architecture: x86_64\ncreation_date: ", stamp.as_str())
        .concat("\nproperties:\n  description: \"Ubuntu ")
        .concat(release)
        .concat(" with ")
        .concat(package)
        .concat(tag)
        .concat("\"\n  os: Ubuntu\n  release: \"")
        .concat(release)
        .concat("\"\n")
}

/// The name of the metadata file in the container archive.
pub open spec fn metadata_file() -> Seq<char> {
    "metadata.yaml"@
}

/// Where the last `.` of `s[..j]` that stands after the first character of its
/// last segment is, or `-1` where there is none.
pub open spec fn last_dot(s: Seq<char>, j: int) -> int
    decreases j,
{
    if j <= 0 || j <= segment_start(s, s.len() as int) + 1 {
        -1
    } else if s[j - 1] == '.' {
        j - 1
    } else {
        last_dot(s, j - 1)
    }
}

/// `path` with its file extension replaced by `.tar.gz`, or with `.tar.gz`
/// added where its file name has none.
pub open spec fn archive_name(path: Seq<char>) -> Seq<char> {
    let d = last_dot(path, path.len() as int);
    if d < 0 {
        path + ".tar.gz"@
    } else {
        path.subrange(0, d) + ".tar.gz"@
    }
}

/// The path of the container archive made from the image at `image_path`.
pub fn tarball_path(image_path: &str) -> (r: String)
    ensures
        r@ == archive_name(image_path@),
{
    let n = image_path.unicode_len();
    let start = segment_begin(image_path);
    let mut j = n;
    while j > start && j - start > 1 && image_path.get_char(j - 1) != '.'
        invariant
            n == image_path@.len(),
            start == segment_start(image_path@, n as int),
            j <= n,
            last_dot(image_path@, n as int) == last_dot(image_path@, j as int),
        decreases j,
    {
        j -= 1;
    }
    if j <= start || j - start <= 1 {
        crate::text::cat(image_path, ".tar.gz")
    } else {
        crate::text::cat(image_path.substring_char(0, j - 1), ".tar.gz")
    }
}

/// The command that packs the metadata file and the image at `image` into the
/// compressed archive `tarball`, the image under the name `rootfs.img`.
pub open spec fn tarball_view(image: Seq<char>, tarball: Seq<char>) -> InvocationView {
    InvocationView {
        program: "tar"@,
        args: seq![
            "--transform"@,
            "flags=r;s/.*.img/rootfs.img/"@,
            "-czf"@,
            tarball,
            metadata_file(),
            image,
        ],
    }
}

/// Packs the container archive.
pub fn tarball_command(image_path: &str, tarball: &str) -> (r: Invocation)
    ensures
        r@ == tarball_view(image_path@, tarball@),
{
    let mut args: Vec<String> = Vec::new();
    push_text(&mut args, "--transform");
    push_text(&mut args, "flags=r;s/.*.img/rootfs.img/");
    push_text(&mut args, "-czf");
    push_text(&mut args, tarball);
    push_text(&mut args, "metadata.yaml");
    push_text(&mut args, image_path);
    assert(texts(args@) =~= tarball_view(image_path@, tarball@).args);
    Invocation::new("tar", args)
}

/// A container archive can be made only from an image in the `qcow2` format.
pub fn lxd_format_supported(format: &str) -> (r: bool)
    ensures
        r == (format@ == "qcow2"@),
{
    let ok = crate::text::starts_with(format, "qcow2") && format.unicode_len() == 5;
    proof {
        reveal_strlit("qcow2");
        assert(format@.len() == 5 ==> format@.subrange(0, 5) =~= format@);
    }
    ok
}

} // verus!

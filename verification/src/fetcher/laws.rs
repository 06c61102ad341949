//! Properties of the fetcher that hold across its functions.

use crate::fetcher::cache::{build_dir_spec, join_spec};
use crate::fetcher::distribution::{parse_distribution, slug_of, Distribution};
use crate::fetcher::error::FetcherErrorView;
use crate::fetcher::fetcher::{layout_spec, Layout};
use crate::fetcher::manifest::{GitHubRelease, VersionEntry};
use crate::fetcher::platform::{
    cft_key, cft_top, host_platform, parse_platform, snapshot_dir, ungoogled_suffix, Platform,
};
use crate::fetcher::resolver::{
    cft_build, cft_entry_spec, cft_listed, checked_build_id_spec, download_for, list_cft_spec,
    list_ungoogled_spec, plain_name, published, release_of_version, resolve_cft_channel_spec,
    resolve_cft_spec, resolve_snapshot_spec, resolve_ungoogled_spec, snapshot_revision_spec,
    tag_matches, ungoogled_build, ungoogled_from_release, ungoogled_listed, version_is,
    version_of_tag, BuildView,
};
use crate::fetcher::version::VersionSpecView;
use crate::search::{
    first_where, is_first, lemma_filter_map_source, lemma_first_where_found, rev_filter_map_seq,
};
use crate::text::{
    decimal, first_index_of, is_ws, lemma_first_index_unique, lower_char, lower_seq, trim_end_seq,
    trim_seq, trim_start_seq,
};
use vstd::prelude::*;

verus! {

/// A word of lowercase ASCII letters, digits, `-` and `_` is left unchanged
/// by trimming and ASCII-lowercasing.
proof fn lemma_plain_word(s: Seq<char>)
    requires
        s.len() > 0,
        forall|i: int|
            0 <= i < s.len() ==> ('a' <= #[trigger] s[i] <= 'z' || '0' <= s[i] <= '9' || s[i]
                == '-' || s[i] == '_'),
    ensures
        lower_seq(trim_seq(s)) == s,
{
    assert(!is_ws(s[0]));
    assert(!is_ws(s.last()));
    assert(trim_start_seq(s) == s);
    assert(trim_end_seq(s) == s);
    assert(lower_seq(s) =~= s);
}

/// Every distribution's slug parses back to that distribution.
pub proof fn slug_round_trips_through_parse(d: Distribution)
    ensures
        parse_distribution(slug_of(d)) == Some(d),
{
    reveal_strlit("cft");
    reveal_strlit("ungoogled");
    reveal_strlit("snapshot");
    reveal_strlit("chrome-for-testing");
    reveal_strlit("chrome_for_testing");
    reveal_strlit("chrome");
    reveal_strlit("ungoogled-chromium");
    reveal_strlit("ungoogled_chromium");
    reveal_strlit("snapshots");
    reveal_strlit("chromium-snapshot");
    reveal_strlit("chromium_snapshot");
    lemma_plain_word(slug_of(d));
}

/// Every platform's Chrome for Testing key parses back to that platform.
pub proof fn platform_key_round_trips_through_parse(p: Platform)
    ensures
        parse_platform(cft_key(p)) == Some(p),
{
    reveal_strlit("linux64");
    reveal_strlit("mac-x64");
    reveal_strlit("mac-arm64");
    reveal_strlit("win32");
    reveal_strlit("win64");
    lemma_plain_word(cft_key(p));
}

/// A platform's Chrome for Testing key and its snapshot bucket directory are
/// different names.
pub proof fn cft_and_snapshot_names_differ(p: Platform)
    ensures
        cft_key(p) != snapshot_dir(p),
{
    reveal_strlit("linux64");
    reveal_strlit("mac-x64");
    reveal_strlit("mac-arm64");
    reveal_strlit("win32");
    reveal_strlit("win64");
    reveal_strlit("Linux_x64");
    reveal_strlit("Mac");
    reveal_strlit("Mac_Arm");
    reveal_strlit("Win");
    reveal_strlit("Win_x64");
    assert(cft_key(p)[0] != snapshot_dir(p)[0]);
}

/// Different platforms look for different ungoogled-chromium asset suffixes.
pub proof fn ungoogled_suffixes_are_unique(p: Platform, q: Platform)
    requires
        p != q,
    ensures
        ungoogled_suffix(p) != ungoogled_suffix(q),
{
    reveal_strlit("-x86_64.AppImage");
    reveal_strlit("_x86_64-macos.dmg");
    reveal_strlit("_arm64-macos.dmg");
    reveal_strlit("_windows_x86.zip");
    reveal_strlit("_windows_x64.zip");
    if ungoogled_suffix(p) == ungoogled_suffix(q) {
        assert(ungoogled_suffix(p).len() == ungoogled_suffix(q).len());
        assert(ungoogled_suffix(p)[1] == ungoogled_suffix(q)[1]);
        assert(ungoogled_suffix(p)[10] == ungoogled_suffix(q)[10]);
        assert(ungoogled_suffix(p)[12] == ungoogled_suffix(q)[12]);
    }
}

/// Chrome for Testing builds live straight under the cache root and the
/// other distributions under their slug, so a Chrome for Testing build and a
/// build of another distribution never share a directory, whatever their
/// (plain) build ids.
pub proof fn distributions_never_share_a_build_dir(
    cache: Seq<char>,
    d: Distribution,
    a: Seq<char>,
    b: Seq<char>,
)
    requires
        d != Distribution::ChromeForTesting,
        plain_name(a),
        plain_name(b),
    ensures
        build_dir_spec(cache, Distribution::ChromeForTesting, a) != build_dir_spec(cache, d, b),
{
    reveal_strlit("ungoogled");
    reveal_strlit("snapshot");
    let s = slug_of(d);
    assert(a[0] != '/') by {
        assert(!a.contains('/'));
    }
    assert(b[0] != '/') by {
        assert(!b.contains('/'));
    }
    let pre: Seq<char> = if cache.len() == 0 {
        Seq::empty()
    } else if cache.last() == '/' {
        cache
    } else {
        cache + seq!['/']
    };
    assert(join_spec(cache, a) == pre + a) by {
        if cache.len() == 0 {
            assert(pre + a =~= a);
        }
    }
    assert(join_spec(cache, s) == pre + s) by {
        if cache.len() == 0 {
            assert(pre + s =~= s);
        }
    }
    let ps = pre + s;
    assert(ps.last() == s.last());
    assert(join_spec(ps, b) == ps + seq!['/'] + b);
    if pre + a == ps + seq!['/'] + b {
        let k: int = (pre.len() + s.len()) as int;
        assert((pre + a)[k] == (ps + seq!['/'] + b)[k]);
        assert(a[s.len() as int] == '/');
        assert(a.contains('/'));
    }
}

/// Digits only.
proof fn lemma_decimal_digits(n: nat)
    ensures
        decimal(n).len() > 0,
        forall|i: int| 0 <= i < decimal(n).len() ==> '0' <= #[trigger] decimal(n)[i] <= '9',
    decreases n,
{
    if n >= 10 {
        lemma_decimal_digits(n / 10);
    }
}

/// Every build id resolution hands out is a single plain directory name, so
/// joining it onto the cache root cannot leave the root: for Chrome for
/// Testing and ungoogled-chromium because an index-supplied id is refused
/// otherwise, for snapshots because the id is `r` and the revision's digits.
pub proof fn resolved_build_ids_are_plain(
    vs: Seq<VersionEntry>,
    chs: Seq<(String, crate::fetcher::manifest::ChannelEntry)>,
    rs: Seq<crate::fetcher::manifest::GitHubRelease>,
    spec: VersionSpecView,
    c: crate::fetcher::version::Channel,
    p: Platform,
    repo: Seq<char>,
    base: Seq<char>,
    revision: u64,
)
    ensures
        resolve_cft_spec(vs, spec, p) matches Ok(r) ==> plain_name(r.build_id),
        resolve_cft_channel_spec(chs, c, p) matches Ok(r) ==> plain_name(r.build_id),
        resolve_ungoogled_spec(rs, spec, p, repo) matches Ok(r) ==> plain_name(r.build_id),
        plain_name(resolve_snapshot_spec(base, revision, p).build_id),
        resolve_snapshot_spec(base, revision, p).build_id[0] == 'r',
{
    reveal_strlit("r");
    let id = resolve_snapshot_spec(base, revision, p).build_id;
    lemma_decimal_digits(revision as nat);
    let ds = decimal(revision as nat);
    assert(id == seq!['r'] + ds);
    assert(id[0] == 'r');
    assert forall|ch: char| ch == '/' || ch == '\\' || ch == ':' || ch == '\0' implies !id.contains(
        ch,
    ) by {
        if id.contains(ch) {
            let i = choose|i: int| 0 <= i < id.len() && id[i] == ch;
            if i > 0 {
                assert(id[i] == ds[i - 1]);
            }
        }
    }
    reveal_strlit(".");
    reveal_strlit("..");
    assert(id != "."@);
    if id == ".."@ {
        assert(id[0] == '.');
    }
}

/// Every build in the Chrome for Testing listing for a platform resolves
/// when selected, to a download whose build id is the listed version,
/// provided the manifest lists each version once: the listing never offers a
/// build that resolution would refuse or answer with another.
pub proof fn listed_cft_builds_resolve(vs: Seq<VersionEntry>, p: Platform, k: int)
    requires
        forall|i: int, j: int| 0 <= i < j < vs.len() ==> vs[i].version@ != vs[j].version@,
        0 <= k < list_cft_spec(vs, p).len(),
    ensures
        resolve_cft_spec(vs, list_cft_spec(vs, p)[k].spec, p) matches Ok(rv)
            && list_cft_spec(vs, p)[k].spec == VersionSpecView::Explicit(rv.build_id),
{
    let i = lemma_listed_from(vs, p, k);
    let want = vs[i].version@;
    assert(is_first(vs, version_is(want), i)) by {
        assert forall|j: int| 0 <= j < i implies !(version_is(want))(#[trigger] vs[j]) by {
            assert(vs[j].version@ != vs[i].version@);
        }
    }
    lemma_first_where_found(vs, version_is(want), i);
    let ds = vs[i].downloads.chrome@;
    let j = first_where(ds, download_for(cft_key(p))).unwrap();
    assert(checked_build_id_spec(want, Distribution::ChromeForTesting) is Ok);
    assert(cft_entry_spec(vs[i].version@, ds, p) is Ok);
}

/// The `k`th listed build is the listing entry of a listed manifest entry.
proof fn lemma_listed_from(vs: Seq<VersionEntry>, p: Platform, k: int) -> (i: int)
    requires
        0 <= k < list_cft_spec(vs, p).len(),
    ensures
        0 <= i < vs.len(),
        (cft_listed(cft_key(p)))(vs[i]),
        list_cft_spec(vs, p)[k] == cft_build(vs[i]),
    decreases vs.len(),
{
    let pred = cft_listed(cft_key(p));
    let f = |v: VersionEntry| cft_build(v);
    let rest = vs.drop_first();
    assert(list_cft_spec(vs, p) == rev_filter_map_seq(vs, pred, f));
    if pred(vs[0]) {
        let tail = rev_filter_map_seq(rest, pred, f);
        if k < tail.len() {
            let i = lemma_listed_from(rest, p, k);
            assert(rest[i] == vs[i + 1]);
            i + 1
        } else {
            0
        }
    } else {
        let i = lemma_listed_from(rest, p, k);
        assert(rest[i] == vs[i + 1]);
        i + 1
    }
}

/// A character that occurs has a first occurrence.
proof fn lemma_some_first_index(s: Seq<char>, c: char, j: int)
    requires
        0 <= j < s.len(),
        s[j] == c,
    ensures
        exists|i: int| first_index_of(s, c, i),
    decreases j,
{
    if exists|m: int| 0 <= m < j && s[m] == c {
        let m = choose|m: int| 0 <= m < j && s[m] == c;
        lemma_some_first_index(s, c, m);
    } else {
        assert(first_index_of(s, c, j));
    }
}

/// The Chrome version of a tag holds no `-`.
proof fn lemma_version_has_no_dash(tag: Seq<char>)
    ensures
        !version_of_tag(tag).contains('-'),
{
    if exists|i: int| first_index_of(tag, '-', i) {
        let i = choose|i: int| first_index_of(tag, '-', i);
        let v = tag.subrange(0, i);
        assert forall|j: int| 0 <= j < v.len() implies v[j] != '-' by {
            assert(v[j] == tag[j]);
        }
    } else {
        assert forall|j: int| 0 <= j < tag.len() implies tag[j] != '-' by {
            if tag[j] == '-' {
                lemma_some_first_index(tag, '-', j);
            }
        }
    }
}

/// A tag names its own Chrome version.
proof fn lemma_tag_matches_own_version(tag: Seq<char>)
    ensures
        tag_matches(tag, version_of_tag(tag)),
{
    if exists|i: int| first_index_of(tag, '-', i) {
        let i = choose|i: int| first_index_of(tag, '-', i);
        assert(tag.subrange(0, i) =~= version_of_tag(tag));
    }
}

/// A tag that names a Chrome version free of `-` carries exactly that
/// version.
proof fn lemma_matching_tag_has_version(tag: Seq<char>, want: Seq<char>)
    requires
        tag_matches(tag, want),
        !want.contains('-'),
    ensures
        version_of_tag(tag) == want,
{
    if tag == want {
        if exists|i: int| first_index_of(tag, '-', i) {
            let i = choose|i: int| first_index_of(tag, '-', i);
            assert(want[i] == '-');
        }
    } else {
        let n = want.len() as int;
        assert forall|j: int| 0 <= j < n implies tag[j] != '-' by {
            assert(tag[j] == tag.subrange(0, n)[j]);
            assert(want[j] != '-');
        }
        assert(first_index_of(tag, '-', n));
        let i = choose|i: int| first_index_of(tag, '-', i);
        lemma_first_index_unique(tag, '-', i, n);
        assert(version_of_tag(tag) =~= tag.subrange(0, n));
    }
}

/// Every build in the ungoogled-chromium listing for a platform resolves
/// when selected, to a download whose build id is the listed version,
/// provided no two published releases carry the same Chrome version.
pub proof fn listed_ungoogled_builds_resolve(
    rs: Seq<GitHubRelease>,
    p: Platform,
    repo: Seq<char>,
    k: int,
)
    requires
        forall|i: int, j: int|
            0 <= i < j < rs.len() && published(rs[i]) && published(rs[j]) ==> version_of_tag(
                rs[i].tag_name@,
            ) != version_of_tag(rs[j].tag_name@),
        0 <= k < list_ungoogled_spec(rs, p).len(),
    ensures
        resolve_ungoogled_spec(rs, list_ungoogled_spec(rs, p)[k].spec, p, repo) matches Ok(rv)
            && list_ungoogled_spec(rs, p)[k].spec == VersionSpecView::Explicit(rv.build_id),
{
    let pred = ungoogled_listed(ungoogled_suffix(p));
    let f = |r: GitHubRelease| ungoogled_build(r);
    let i = lemma_filter_map_source(rs, pred, f, k);
    let want = version_of_tag(rs[i].tag_name@);
    assert(list_ungoogled_spec(rs, p)[k] == ungoogled_build(rs[i]));
    lemma_tag_matches_own_version(rs[i].tag_name@);
    lemma_version_has_no_dash(rs[i].tag_name@);
    assert(is_first(rs, release_of_version(want), i)) by {
        assert forall|j: int| 0 <= j < i implies !(release_of_version(want))(#[trigger] rs[j]) by {
            if published(rs[j]) && tag_matches(rs[j].tag_name@, want) {
                lemma_matching_tag_has_version(rs[j].tag_name@, want);
            }
        }
    }
    lemma_first_where_found(rs, release_of_version(want), i);
    assert(checked_build_id_spec(want, Distribution::UngoogledChromium) == Ok::<
        Seq<char>,
        FetcherErrorView,
    >(want));
}

/// The snapshot bucket never answers an explicit version or a non-stable
/// channel with some other build: both are refused.
pub proof fn snapshots_refuse_what_they_cannot_index(spec: VersionSpecView)
    ensures
        spec is Explicit ==> snapshot_revision_spec(spec) is Err,
        spec matches VersionSpecView::Channel(c) && c != crate::fetcher::version::Channel::Stable
            ==> snapshot_revision_spec(spec) is Err,
        spec matches VersionSpecView::Revision(r) ==> snapshot_revision_spec(spec) == Ok::<
            Option<u64>,
            FetcherErrorView,
        >(Some(r)),
{
}

/// Two fetches of the same build under different stamps never share a
/// staging directory or a download file, and neither staging path is the
/// build directory itself: one fetch's clean-up cannot touch another's work.
pub proof fn staging_is_per_fetch(
    l1: Layout,
    l2: Layout,
    cache: Seq<char>,
    d: Distribution,
    s1: Seq<char>,
    s2: Seq<char>,
)
    requires
        layout_spec(l1, cache, d, s1),
        layout_spec(l2, cache, d, s2),
        l1.resolved@ == l2.resolved@,
        s1 != s2,
    ensures
        l1.tmp_dir@ != l2.tmp_dir@,
        l1.tmp_archive@ != l2.tmp_archive@,
        l1.tmp_dir@ != l1.final_dir@,
        l1.tmp_archive@ != l1.final_dir@,
{
    let pre = l1.final_dir@ + ".tmp."@;
    let n = pre.len() as int;
    reveal_strlit(".tmp.");
    reveal_strlit(".");
    if l1.tmp_dir@ == l2.tmp_dir@ {
        assert(l1.tmp_dir@.subrange(n, l1.tmp_dir@.len() as int) =~= s1);
        assert(l2.tmp_dir@.subrange(n, l2.tmp_dir@.len() as int) =~= s2);
    }
    if l1.tmp_archive@ == l2.tmp_archive@ {
        let a = l1.tmp_archive@;
        assert(a.len() == n + s1.len() + 1 + crate::fetcher::archive::tmp_ext(
            l1.resolved.archive@,
        ).len());
        assert(a.len() == n + s2.len() + 1 + crate::fetcher::archive::tmp_ext(
            l1.resolved.archive@,
        ).len());
        assert(a.subrange(n, n + s1.len()) =~= s1);
        assert(l2.tmp_archive@.subrange(n, n + s2.len()) =~= s2);
    }
    assert(l1.tmp_dir@.len() > l1.final_dir@.len());
    assert(l1.tmp_archive@.len() > l1.final_dir@.len());
}

/// A Chrome for Testing zip unpacks into one directory named `chrome-`
/// followed by the platform's manifest key, for every platform.
pub proof fn cft_top_dir_is_chrome_dash_key(p: Platform)
    ensures
        cft_top(p) == "chrome-"@ + cft_key(p),
{
    reveal_strlit("chrome-");
    reveal_strlit("linux64");
    reveal_strlit("mac-x64");
    reveal_strlit("mac-arm64");
    reveal_strlit("win32");
    reveal_strlit("win64");
    reveal_strlit("chrome-linux64");
    reveal_strlit("chrome-mac-x64");
    reveal_strlit("chrome-mac-arm64");
    reveal_strlit("chrome-win32");
    reveal_strlit("chrome-win64");
    match p {
        Platform::LinuxX64 => assert(cft_top(p) =~= "chrome-"@ + cft_key(p)),
        Platform::MacX64 => assert(cft_top(p) =~= "chrome-"@ + cft_key(p)),
        Platform::MacArm64 => assert(cft_top(p) =~= "chrome-"@ + cft_key(p)),
        Platform::Win32 => assert(cft_top(p) =~= "chrome-"@ + cft_key(p)),
        Platform::Win64 => assert(cft_top(p) =~= "chrome-"@ + cft_key(p)),
    }
}

/// On Windows the detected platform follows the host's pointer width, on
/// any CPU architecture: a 64-bit host gets `Win64` (manifest key `win64`),
/// a 32-bit host `Win32` (`win32`); and Windows is detected only with one of
/// those two widths.
pub proof fn windows_detection_follows_pointer_width(arch: Seq<char>, pointer_width: u32)
    ensures
        pointer_width == 64 ==> host_platform("windows"@, arch, pointer_width) == Some(
            Platform::Win64,
        ) && cft_key(Platform::Win64) == "win"@ + "64"@,
        pointer_width == 32 ==> host_platform("windows"@, arch, pointer_width) == Some(
            Platform::Win32,
        ) && cft_key(Platform::Win32) == "win"@ + "32"@,
        pointer_width != 32 && pointer_width != 64 ==> host_platform(
            "windows"@,
            arch,
            pointer_width,
        ) is None,
        forall|os: Seq<char>|
            #![trigger host_platform(os, arch, pointer_width)]
            host_platform(os, arch, pointer_width) == Some(Platform::Win64) ==> os == "windows"@
                && pointer_width == 64,
        forall|os: Seq<char>|
            #![trigger host_platform(os, arch, pointer_width)]
            host_platform(os, arch, pointer_width) == Some(Platform::Win32) ==> os == "windows"@
                && pointer_width == 32,
{
    reveal_strlit("windows");
    reveal_strlit("linux");
    reveal_strlit("macos");
    reveal_strlit("win");
    reveal_strlit("64");
    reveal_strlit("32");
    reveal_strlit("win64");
    reveal_strlit("win32");
    assert("windows"@.len() != "linux"@.len());
    assert("windows"@.len() != "macos"@.len());
    assert(cft_key(Platform::Win64) =~= "win"@ + "64"@);
    assert(cft_key(Platform::Win32) =~= "win"@ + "32"@);
}

} // verus!
